//! Listing a whole tag: one line for each frame under a header.

use vstd::prelude::*;
use vstd::string::*;
use crate::access::{mismatch, mismatch_error};
use crate::error::{TagError, TagErrorView};
use crate::frame::{kind_of_id, Frame, FrameView, Kind};
use crate::query::{query_name, query_name_of};
use crate::seq_lemmas::{lemma_filter_none, lemma_filter_take_step};
use crate::tag::{Tag, TagView};
use crate::text::{append_decimal, decimal};

verus! {

/// Whether a frame is listed: frames under an identifier that calls for a
/// kind are listed only where they hold that kind.
pub open spec fn listable(frame: FrameView) -> bool {
    kind_of_id(frame.id) == Kind::Binary || frame.content.kind() == kind_of_id(frame.id)
}

/// The line that lists a frame: its full name, a colon and a blank, the
/// payload, and a line feed; as in `TXXX[desc]: value`.
pub open spec fn pretty_line(frame: FrameView) -> Seq<char> {
    query_name(frame) + ": "@ + frame.content.payload() + "\n"@
}

/// What listing one frame yields: its line, or the error that reports the
/// frame as holding the wrong kind.
pub open spec fn pretty(frame: FrameView) -> Result<Seq<char>, TagErrorView> {
    if listable(frame) {
        Ok(pretty_line(frame))
    } else {
        Err(mismatch(frame))
    }
}

/// Returns the line that lists `frame`, with the line feed that ends it.
///
/// Fails with `KindMismatch` where the frame holds another kind of content
/// than its identifier calls for.
pub fn print_frame_pretty(frame: &Frame) -> (r: Result<String, TagError>)
    ensures
        match r {
            Ok(s) => pretty(frame@) == Ok::<Seq<char>, TagErrorView>(s@),
            Err(e) => pretty(frame@) == Err::<Seq<char>, TagErrorView>(e@),
        },
{
    let kind = Kind::of_id(frame.id.as_str());
    if kind != Kind::Binary && frame.content.kind() != kind {
        return Err(mismatch_error(frame));
    }
    let mut line = query_name_of(frame);
    line.append(": ");
    line.append(frame.content.payload());
    line.append("\n");
    Ok(line)
}

/// The header of a listing: the file's path, the tag's version and the
/// number of its frames, as in `song.mp3: ID3v2.4, 1 frame:`.
pub open spec fn header(path: Seq<char>, tag: TagView) -> Seq<char> {
    path + ": "@ + tag.version.name_spec() + ", "@ + decimal(tag.frames.len()) + (
    if tag.frames.len() == 1 {
        " frame:\n"@
    } else {
        " frames:\n"@
    })
}

/// The lines of the frames that are listed, one after the other in the
/// order of the frames.
pub open spec fn pretty_lines(frames: Seq<FrameView>) -> Seq<char> {
    frames.filter(|frame: FrameView| listable(frame)).map_values(
        |frame: FrameView| pretty_line(frame),
    ).flatten()
}

/// The errors that report the frames that are not listed, in the order of
/// the frames.
pub open spec fn pretty_warnings(frames: Seq<FrameView>) -> Seq<TagErrorView> {
    frames.filter(|frame: FrameView| !listable(frame)).map_values(
        |frame: FrameView| mismatch(frame),
    )
}

/// A listing of a tag: the text to print, and what there is to warn of.
#[derive(Debug, PartialEq, Eq)]
pub struct Listing {
    pub text: String,
    pub warnings: Vec<TagError>,
}

/// The values of a sequence of errors.
pub open spec fn errors_view(errors: Seq<TagError>) -> Seq<TagErrorView> {
    Seq::new(errors.len(), |i: int| errors[i]@)
}

/// Lists the tag of the file at `path`: a header that counts all frames,
/// then the line of each frame in the tag's order. A frame that holds the
/// wrong kind of content gets no line; it is reported among the warnings
/// and the listing goes on.
pub fn print_all_file_frames_pretty(path: &str, tag: &Tag) -> (r: Listing)
    ensures
        r.text@ == header(path@, tag@) + pretty_lines(tag@.frames),
        errors_view(r.warnings@) == pretty_warnings(tag@.frames),
{
    let mut text = String::from_str(path);
    text.append(": ");
    text.append(tag.version.name());
    text.append(", ");
    append_decimal(&mut text, tag.frames.len());
    if tag.frames.len() == 1 {
        text.append(" frame:\n");
    } else {
        text.append(" frames:\n");
    }
    let mut warnings: Vec<TagError> = Vec::new();
    let mut i: usize = 0;
    let ghost shown = |frame: FrameView| listable(frame);
    let ghost hidden = |frame: FrameView| !listable(frame);
    let ghost line = |frame: FrameView| pretty_line(frame);
    let ghost warn = |frame: FrameView| mismatch(frame);
    proof {
        lemma_filter_none(tag@.frames.take(0), shown);
        lemma_filter_none(tag@.frames.take(0), hidden);
        assert(text@ =~= header(path@, tag@) + tag@.frames.take(0).filter(shown).map_values(
            line,
        ).flatten());
        assert(errors_view(warnings@) =~= tag@.frames.take(0).filter(hidden).map_values(warn));
    }
    while i < tag.frames.len()
        invariant
            0 <= i <= tag.frames.len(),
            shown == |frame: FrameView| listable(frame),
            hidden == |frame: FrameView| !listable(frame),
            line == |frame: FrameView| pretty_line(frame),
            warn == |frame: FrameView| mismatch(frame),
            text@ == header(path@, tag@) + tag@.frames.take(i as int).filter(shown).map_values(
                line,
            ).flatten(),
            errors_view(warnings@) == tag@.frames.take(i as int).filter(hidden).map_values(warn),
        decreases tag.frames.len() - i,
    {
        proof {
            assert(tag@.frames[i as int] == tag.frames[i as int]@);
            lemma_filter_take_step(tag@.frames, shown, i as int);
            lemma_filter_take_step(tag@.frames, hidden, i as int);
        }
        let ghost frame = tag@.frames[i as int];
        let ghost lines = tag@.frames.take(i as int).filter(shown).map_values(line);
        match print_frame_pretty(&tag.frames[i]) {
            Ok(s) => {
                text.append(s.as_str());
                proof {
                    tag@.frames.take(i as int).filter(shown).lemma_push_map_commute(line, frame);
                    lines.lemma_flatten_push(line(frame));
                    assert(text@ =~= header(path@, tag@) + lines.push(line(frame)).flatten());
                }
            },
            Err(e) => {
                let ghost before = warnings@;
                warnings.push(e);
                proof {
                    tag@.frames.take(i as int).filter(hidden).lemma_push_map_commute(warn, frame);
                    assert(errors_view(warnings@) =~= errors_view(before).push(e@));
                }
            },
        }
        i += 1;
    }
    proof {
        assert(tag@.frames.take(tag.frames.len() as int) =~= tag@.frames);
    }
    Listing { text, warnings }
}

/// The line that says that the file at `path` holds no tag.
pub open spec fn no_tag_notice(path: Seq<char>) -> Seq<char> {
    path + ": No tag found\n"@
}

/// Returns the line that says that the file at `path` holds no tag, with
/// the line feed that ends it.
pub fn no_tag_message(path: &str) -> (s: String)
    ensures
        s@ == no_tag_notice(path@),
{
    let mut s = String::from_str(path);
    s.append(": No tag found\n");
    s
}

/// What listing one file of a run puts out.
#[derive(Debug, PartialEq, Eq)]
pub struct FileListing {
    /// What is printed: the listing, after an empty line where the file is
    /// not the first of the run.
    pub out: String,
    /// The line that says that the file holds no tag; empty where it holds
    /// one. It is reported apart from what is printed, and is no error.
    pub notice: String,
    /// What there is to warn of.
    pub warnings: Vec<TagError>,
}

/// Lists one file of a run, of which `loaded` is the tag, or `None` where
/// the file holds no tag; `first` says whether the file is the first of the
/// run.
///
/// Every file but the first begins with an empty line, whether it holds a
/// tag or not. A file with a tag is listed as by
/// [`print_all_file_frames_pretty`]. For a file without a tag nothing else
/// is printed, and the notice says so; the run goes on.
pub fn list_file(path: &str, loaded: Option<&Tag>, first: bool) -> (r: FileListing)
    ensures
        r.out@ == (if first {
            Seq::empty()
        } else {
            "\n"@
        }) + (match loaded {
            Some(tag) => header(path@, tag@) + pretty_lines(tag@.frames),
            None => Seq::empty(),
        }),
        r.notice@ == (match loaded {
            Some(_) => Seq::empty(),
            None => no_tag_notice(path@),
        }),
        errors_view(r.warnings@) == (match loaded {
            Some(tag) => pretty_warnings(tag@.frames),
            None => Seq::empty(),
        }),
{
    let mut out = String::new();
    if !first {
        out.append("\n");
    }
    match loaded {
        Some(tag) => {
            let listing = print_all_file_frames_pretty(path, tag);
            out.append(listing.text.as_str());
            FileListing { out, notice: String::new(), warnings: listing.warnings }
        },
        None => {
            let warnings: Vec<TagError> = Vec::new();
            assert(errors_view(warnings@) =~= Seq::<TagErrorView>::empty());
            assert(out@ =~= out@ + Seq::<char>::empty());
            FileListing { out, notice: no_tag_message(path), warnings }
        },
    }
}

} // verus!
