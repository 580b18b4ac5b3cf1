//! Frames: the named fields of a tag, and the kinds of content they carry.

use vstd::prelude::*;
use vstd::string::*;
use crate::text::{str_eq, starts_with_char};

verus! {

/// The kind of content that a frame carries.
#[derive(Clone, Copy, Debug, PartialEq, Eq, Structural)]
pub enum Kind {
    /// Free text (identifiers that begin with `T`, but for `TXXX`).
    Text,
    /// A URL (identifiers that begin with `W`, but for `WXXX`).
    Link,
    /// User-defined text, told apart by a description (`TXXX`).
    ExtendedText,
    /// A user-defined URL, told apart by a description (`WXXX`).
    ExtendedLink,
    /// A comment, told apart by a description and a language (`COMM`).
    Comment,
    /// Lyrics, told apart by a description and a language (`USLT`).
    Lyrics,
    /// Anything else: carried along and shown, never interpreted.
    Binary,
}

/// The content of a `TXXX` frame.
#[derive(Debug, PartialEq, Eq)]
pub struct ExtendedText {
    pub description: String,
    pub value: String,
}

/// The content of a `WXXX` frame.
#[derive(Debug, PartialEq, Eq)]
pub struct ExtendedLink {
    pub description: String,
    pub link: String,
}

/// The content of a `COMM` frame.
#[derive(Debug, PartialEq, Eq)]
pub struct Comment {
    pub lang: String,
    pub description: String,
    pub text: String,
}

/// The content of a `USLT` frame.
#[derive(Debug, PartialEq, Eq)]
pub struct Lyrics {
    pub lang: String,
    pub description: String,
    pub text: String,
}

/// Content that is only carried along: how it is shown, and its bytes.
#[derive(Debug, PartialEq, Eq)]
pub struct Binary {
    pub summary: String,
    pub data: Vec<u8>,
}

/// What a frame holds.
#[derive(Debug, PartialEq, Eq)]
pub enum Content {
    Text(String),
    Link(String),
    ExtendedText(ExtendedText),
    ExtendedLink(ExtendedLink),
    Comment(Comment),
    Lyrics(Lyrics),
    Binary(Binary),
}

/// How the text of a frame is encoded in the file.
#[derive(Clone, Copy, Debug, PartialEq, Eq, Structural)]
pub enum Encoding {
    Latin1,
    UTF16,
    UTF16BE,
    UTF8,
}

/// One named field of a tag. As a query, a frame carries the keys that tell
/// it apart (description, language) and an empty payload.
///
/// Besides identifier and content a frame carries what the file says of how
/// it is to be kept and encoded. The editor looks at none of it and hands it
/// on as it is; a frame made by the editor has neither flag set and no
/// encoding of its own.
#[derive(Debug, PartialEq, Eq)]
pub struct Frame {
    pub id: String,
    pub content: Content,
    /// Whether the frame is to be kept when the tag is altered by software
    /// that does not know it.
    pub tag_alter_preservation: bool,
    /// Whether the frame is to be kept when the file, but not the tag, is
    /// altered.
    pub file_alter_preservation: bool,
    /// The encoding that the frame was read in, if the file fixed one.
    pub encoding: Option<Encoding>,
}

/// The mathematical value of a [`Content`].
pub enum ContentView {
    Text(Seq<char>),
    Link(Seq<char>),
    ExtendedText { description: Seq<char>, value: Seq<char> },
    ExtendedLink { description: Seq<char>, link: Seq<char> },
    Comment { lang: Seq<char>, description: Seq<char>, text: Seq<char> },
    Lyrics { lang: Seq<char>, description: Seq<char>, text: Seq<char> },
    Binary { summary: Seq<char>, data: Seq<u8> },
}

/// The mathematical value of a [`Frame`].
pub struct FrameView {
    pub id: Seq<char>,
    pub content: ContentView,
    pub tag_alter_preservation: bool,
    pub file_alter_preservation: bool,
    pub encoding: Option<Encoding>,
}

/// The frame under `id` with the content `content`, as the editor makes it:
/// neither flag set, no encoding of its own.
pub open spec fn plain_frame(id: Seq<char>, content: ContentView) -> FrameView {
    FrameView {
        id,
        content,
        tag_alter_preservation: false,
        file_alter_preservation: false,
        encoding: None,
    }
}

impl View for Content {
    type V = ContentView;

    open spec fn view(&self) -> ContentView {
        match self {
            Content::Text(s) => ContentView::Text(s@),
            Content::Link(s) => ContentView::Link(s@),
            Content::ExtendedText(x) => ContentView::ExtendedText {
                description: x.description@,
                value: x.value@,
            },
            Content::ExtendedLink(x) => ContentView::ExtendedLink {
                description: x.description@,
                link: x.link@,
            },
            Content::Comment(x) => ContentView::Comment {
                lang: x.lang@,
                description: x.description@,
                text: x.text@,
            },
            Content::Lyrics(x) => ContentView::Lyrics {
                lang: x.lang@,
                description: x.description@,
                text: x.text@,
            },
            Content::Binary(x) => ContentView::Binary { summary: x.summary@, data: x.data@ },
        }
    }
}

impl View for Frame {
    type V = FrameView;

    open spec fn view(&self) -> FrameView {
        FrameView {
            id: self.id@,
            content: self.content@,
            tag_alter_preservation: self.tag_alter_preservation,
            file_alter_preservation: self.file_alter_preservation,
            encoding: self.encoding,
        }
    }
}

impl ContentView {
    /// The kind of this content.
    pub open spec fn kind(self) -> Kind {
        match self {
            ContentView::Text(_) => Kind::Text,
            ContentView::Link(_) => Kind::Link,
            ContentView::ExtendedText { .. } => Kind::ExtendedText,
            ContentView::ExtendedLink { .. } => Kind::ExtendedLink,
            ContentView::Comment { .. } => Kind::Comment,
            ContentView::Lyrics { .. } => Kind::Lyrics,
            ContentView::Binary { .. } => Kind::Binary,
        }
    }

    /// The string that stands for this content when a single frame is
    /// printed: the text, the link, the value, or for binary content its
    /// summary.
    pub open spec fn payload(self) -> Seq<char> {
        match self {
            ContentView::Text(s) => s,
            ContentView::Link(s) => s,
            ContentView::ExtendedText { value, .. } => value,
            ContentView::ExtendedLink { link, .. } => link,
            ContentView::Comment { text, .. } => text,
            ContentView::Lyrics { text, .. } => text,
            ContentView::Binary { summary, .. } => summary,
        }
    }

    /// The description that tells this content apart from others under the
    /// same identifier; empty for the kinds that have none.
    pub open spec fn description(self) -> Seq<char> {
        match self {
            ContentView::ExtendedText { description, .. } => description,
            ContentView::ExtendedLink { description, .. } => description,
            ContentView::Comment { description, .. } => description,
            ContentView::Lyrics { description, .. } => description,
            _ => Seq::empty(),
        }
    }

    /// The language of a comment or of lyrics; empty for the other kinds.
    pub open spec fn lang(self) -> Seq<char> {
        match self {
            ContentView::Comment { lang, .. } => lang,
            ContentView::Lyrics { lang, .. } => lang,
            _ => Seq::empty(),
        }
    }
}

/// The kind of content that the identifier `id` calls for.
pub open spec fn kind_of_id(id: Seq<char>) -> Kind {
    if id == "TXXX"@ {
        Kind::ExtendedText
    } else if id == "WXXX"@ {
        Kind::ExtendedLink
    } else if id == "COMM"@ {
        Kind::Comment
    } else if id == "USLT"@ {
        Kind::Lyrics
    } else if id.len() > 0 && id[0] == 'T' {
        Kind::Text
    } else if id.len() > 0 && id[0] == 'W' {
        Kind::Link
    } else {
        Kind::Binary
    }
}

/// Whether several frames of this kind may stand in one tag, told apart by
/// a description, and for comments and lyrics by a language too.
pub open spec fn is_structured(kind: Kind) -> bool {
    kind == Kind::ExtendedText || kind == Kind::ExtendedLink || kind == Kind::Comment || kind
        == Kind::Lyrics
}

/// Whether frames of this kind are told apart by a language.
pub open spec fn has_lang(kind: Kind) -> bool {
    kind == Kind::Comment || kind == Kind::Lyrics
}

/// Whether a frame under the identifier `id` can be written into a tag:
/// the identifiers that begin with `T` or `W`, and `COMM` and `USLT`.
pub open spec fn is_settable(id: Seq<char>) -> bool {
    ||| id.len() > 0 && id[0] == 'T'
    ||| id.len() > 0 && id[0] == 'W'
    ||| id == "COMM"@
    ||| id == "USLT"@
}

/// The identifiers that can be written are those that call for a kind of
/// content.
pub proof fn lemma_settable_has_kind(id: Seq<char>)
    ensures
        is_settable(id) <==> kind_of_id(id) != Kind::Binary,
{
    reveal_strlit("TXXX");
    reveal_strlit("WXXX");
}

/// What the identifiers of the structured kinds call for.
pub proof fn law_structured_identifiers()
    ensures
        kind_of_id("TXXX"@) == Kind::ExtendedText,
        kind_of_id("WXXX"@) == Kind::ExtendedLink,
        kind_of_id("COMM"@) == Kind::Comment,
        kind_of_id("USLT"@) == Kind::Lyrics,
{
    reveal_strlit("TXXX");
    reveal_strlit("WXXX");
    reveal_strlit("COMM");
    reveal_strlit("USLT");
    assert("WXXX"@[0] != "TXXX"@[0]);
    assert("COMM"@[0] != "TXXX"@[0]);
    assert("COMM"@[0] != "WXXX"@[0]);
    assert("USLT"@[0] != "TXXX"@[0]);
    assert("USLT"@[0] != "WXXX"@[0]);
    assert("USLT"@[0] != "COMM"@[0]);
}

impl Kind {
    /// Returns the kind of content that the identifier `id` calls for.
    pub fn of_id(id: &str) -> (k: Kind)
        ensures
            k == kind_of_id(id@),
    {
        if str_eq(id, "TXXX") {
            Kind::ExtendedText
        } else if str_eq(id, "WXXX") {
            Kind::ExtendedLink
        } else if str_eq(id, "COMM") {
            Kind::Comment
        } else if str_eq(id, "USLT") {
            Kind::Lyrics
        } else if starts_with_char(id, 'T') {
            Kind::Text
        } else if starts_with_char(id, 'W') {
            Kind::Link
        } else {
            Kind::Binary
        }
    }

    /// Returns whether a frame under the identifier `id` can be written
    /// into a tag.
    pub fn settable(id: &str) -> (b: bool)
        ensures
            b == is_settable(id@),
    {
        proof {
            lemma_settable_has_kind(id@);
        }
        Kind::of_id(id) != Kind::Binary
    }

    /// Returns whether frames of this kind are told apart by a description.
    pub fn structured(self) -> (b: bool)
        ensures
            b == is_structured(self),
    {
        match self {
            Kind::ExtendedText | Kind::ExtendedLink | Kind::Comment | Kind::Lyrics => true,
            _ => false,
        }
    }

    /// Returns whether frames of this kind are told apart by a language.
    pub fn has_lang(self) -> (b: bool)
        ensures
            b == has_lang(self),
    {
        match self {
            Kind::Comment | Kind::Lyrics => true,
            _ => false,
        }
    }

    /// The name of the kind, as it stands in messages.
    pub open spec fn name_spec(self) -> Seq<char> {
        match self {
            Kind::Text => "text"@,
            Kind::Link => "link"@,
            Kind::ExtendedText => "extended text"@,
            Kind::ExtendedLink => "extended link"@,
            Kind::Comment => "comment"@,
            Kind::Lyrics => "lyrics"@,
            Kind::Binary => "binary"@,
        }
    }

    /// Returns the name of the kind, as it stands in messages.
    pub fn name(self) -> (s: &'static str)
        ensures
            s@ == self.name_spec(),
    {
        match self {
            Kind::Text => "text",
            Kind::Link => "link",
            Kind::ExtendedText => "extended text",
            Kind::ExtendedLink => "extended link",
            Kind::Comment => "comment",
            Kind::Lyrics => "lyrics",
            Kind::Binary => "binary",
        }
    }
}

impl Content {
    /// Returns the kind of this content.
    pub fn kind(&self) -> (k: Kind)
        ensures
            k == self@.kind(),
    {
        match self {
            Content::Text(_) => Kind::Text,
            Content::Link(_) => Kind::Link,
            Content::ExtendedText(_) => Kind::ExtendedText,
            Content::ExtendedLink(_) => Kind::ExtendedLink,
            Content::Comment(_) => Kind::Comment,
            Content::Lyrics(_) => Kind::Lyrics,
            Content::Binary(_) => Kind::Binary,
        }
    }

    /// Returns the string that stands for this content when a single frame
    /// is printed.
    pub fn payload(&self) -> (s: &str)
        ensures
            s@ == self@.payload(),
    {
        match self {
            Content::Text(s) => s.as_str(),
            Content::Link(s) => s.as_str(),
            Content::ExtendedText(x) => x.value.as_str(),
            Content::ExtendedLink(x) => x.link.as_str(),
            Content::Comment(x) => x.text.as_str(),
            Content::Lyrics(x) => x.text.as_str(),
            Content::Binary(x) => x.summary.as_str(),
        }
    }
}

impl Content {
    /// Returns the description that tells this content apart; empty for the
    /// kinds that have none.
    pub fn description(&self) -> (s: &str)
        ensures
            s@ == self@.description(),
    {
        proof {
            reveal_strlit("");
        }
        match self {
            Content::ExtendedText(x) => x.description.as_str(),
            Content::ExtendedLink(x) => x.description.as_str(),
            Content::Comment(x) => x.description.as_str(),
            Content::Lyrics(x) => x.description.as_str(),
            _ => {
                ""
            },
        }
    }

    /// Returns the language of a comment or of lyrics; empty for the other
    /// kinds.
    pub fn lang(&self) -> (s: &str)
        ensures
            s@ == self@.lang(),
    {
        proof {
            reveal_strlit("");
        }
        match self {
            Content::Comment(x) => x.lang.as_str(),
            Content::Lyrics(x) => x.lang.as_str(),
            _ => {
                ""
            },
        }
    }
}

impl Clone for Content {
    fn clone(&self) -> (r: Self)
        ensures
            r@ == self@,
    {
        match self {
            Content::Text(s) => Content::Text(s.clone()),
            Content::Link(s) => Content::Link(s.clone()),
            Content::ExtendedText(x) => Content::ExtendedText(
                ExtendedText { description: x.description.clone(), value: x.value.clone() },
            ),
            Content::ExtendedLink(x) => Content::ExtendedLink(
                ExtendedLink { description: x.description.clone(), link: x.link.clone() },
            ),
            Content::Comment(x) => Content::Comment(
                Comment {
                    lang: x.lang.clone(),
                    description: x.description.clone(),
                    text: x.text.clone(),
                },
            ),
            Content::Lyrics(x) => Content::Lyrics(
                Lyrics {
                    lang: x.lang.clone(),
                    description: x.description.clone(),
                    text: x.text.clone(),
                },
            ),
            Content::Binary(x) => Content::Binary(
                Binary { summary: x.summary.clone(), data: x.data.clone() },
            ),
        }
    }
}

impl Clone for Frame {
    fn clone(&self) -> (r: Self)
        ensures
            r@ == self@,
    {
        Frame {
            id: self.id.clone(),
            content: self.content.clone(),
            tag_alter_preservation: self.tag_alter_preservation,
            file_alter_preservation: self.file_alter_preservation,
            encoding: self.encoding,
        }
    }
}

/// The frame under `id` that holds the kind of content which `id` calls
/// for, made of the given keys and payload; under an identifier that calls
/// for no kind the frame holds the payload as text. A key that the kind
/// does not have is left out.
pub open spec fn make_frame(
    id: Seq<char>,
    description: Seq<char>,
    lang: Seq<char>,
    payload: Seq<char>,
) -> FrameView {
    plain_frame(
        id,
        match kind_of_id(id) {
            Kind::ExtendedText => ContentView::ExtendedText { description, value: payload },
            Kind::ExtendedLink => ContentView::ExtendedLink { description, link: payload },
            Kind::Comment => ContentView::Comment { lang, description, text: payload },
            Kind::Lyrics => ContentView::Lyrics { lang, description, text: payload },
            Kind::Link => ContentView::Link(payload),
            Kind::Text | Kind::Binary => ContentView::Text(payload),
        },
    )
}

impl Frame {
    /// Returns the frame under `id` that holds the kind of content which
    /// `id` calls for, made of the given keys and payload.
    pub fn build(id: &str, description: &str, lang: &str, payload: &str) -> (f: Frame)
        ensures
            f@ == make_frame(id@, description@, lang@, payload@),
    {
        let content = match Kind::of_id(id) {
            Kind::ExtendedText => Content::ExtendedText(
                ExtendedText {
                    description: String::from_str(description),
                    value: String::from_str(payload),
                },
            ),
            Kind::ExtendedLink => Content::ExtendedLink(
                ExtendedLink {
                    description: String::from_str(description),
                    link: String::from_str(payload),
                },
            ),
            Kind::Comment => Content::Comment(
                Comment {
                    lang: String::from_str(lang),
                    description: String::from_str(description),
                    text: String::from_str(payload),
                },
            ),
            Kind::Lyrics => Content::Lyrics(
                Lyrics {
                    lang: String::from_str(lang),
                    description: String::from_str(description),
                    text: String::from_str(payload),
                },
            ),
            Kind::Link => Content::Link(String::from_str(payload)),
            Kind::Text | Kind::Binary => Content::Text(String::from_str(payload)),
        };
        Frame::with_content(id, content)
    }

    /// A frame with the given identifier and content, with neither flag set
    /// and no encoding of its own.
    pub fn with_content(id: &str, content: Content) -> (f: Frame)
        ensures
            f@ == plain_frame(id@, content@),
    {
        Frame {
            id: String::from_str(id),
            content,
            tag_alter_preservation: false,
            file_alter_preservation: false,
            encoding: None,
        }
    }

    /// A text frame.
    pub fn text(id: &str, text: &str) -> (f: Frame)
        ensures
            f@ == plain_frame(id@, ContentView::Text(text@)),
    {
        Frame::with_content(id, Content::Text(String::from_str(text)))
    }

    /// A link frame.
    pub fn link(id: &str, link: &str) -> (f: Frame)
        ensures
            f@ == plain_frame(id@, ContentView::Link(link@)),
    {
        Frame::with_content(id, Content::Link(String::from_str(link)))
    }
}

} // verus!
