//! Typed access to what a frame holds. Each accessor answers for one kind of
//! content and fails on a frame that holds another.

use vstd::prelude::*;
use vstd::string::*;
use crate::error::{TagError, TagErrorView};
use crate::frame::{
    Comment, Content, ContentView, ExtendedLink, ExtendedText, Frame, FrameView, Lyrics,
};

verus! {

/// The error that reports a frame whose content is not of the kind asked
/// for: it names the frame's identifier and the kind that was found.
pub open spec fn mismatch(frame: FrameView) -> TagErrorView {
    TagErrorView::KindMismatch { id: frame.id, found: frame.content.kind() }
}

/// Builds the error that reports `frame` as holding the wrong kind.
pub fn mismatch_error(frame: &Frame) -> (e: TagError)
    ensures
        e@ == mismatch(frame@),
{
    TagError::KindMismatch { id: frame.id.clone(), found: frame.content.kind() }
}

/// Returns the text of a text frame.
pub fn get_content_text(frame: &Frame) -> (r: Result<&str, TagError>)
    ensures
        match r {
            Ok(s) => frame@.content == ContentView::Text(s@),
            Err(e) => !(frame@.content is Text) && e@ == mismatch(frame@),
        },
{
    match &frame.content {
        Content::Text(s) => Ok(s.as_str()),
        _ => Err(mismatch_error(frame)),
    }
}

/// Returns the URL of a link frame.
pub fn get_content_link(frame: &Frame) -> (r: Result<&str, TagError>)
    ensures
        match r {
            Ok(s) => frame@.content == ContentView::Link(s@),
            Err(e) => !(frame@.content is Link) && e@ == mismatch(frame@),
        },
{
    match &frame.content {
        Content::Link(s) => Ok(s.as_str()),
        _ => Err(mismatch_error(frame)),
    }
}

/// Returns the content of a user-defined text frame.
pub fn get_content_txxx(frame: &Frame) -> (r: Result<&ExtendedText, TagError>)
    ensures
        match r {
            Ok(x) => frame@.content == (ContentView::ExtendedText {
                description: x.description@,
                value: x.value@,
            }),
            Err(e) => !(frame@.content is ExtendedText) && e@ == mismatch(frame@),
        },
{
    match &frame.content {
        Content::ExtendedText(x) => Ok(x),
        _ => Err(mismatch_error(frame)),
    }
}

/// Returns the content of a user-defined link frame.
pub fn get_content_wxxx(frame: &Frame) -> (r: Result<&ExtendedLink, TagError>)
    ensures
        match r {
            Ok(x) => frame@.content == (ContentView::ExtendedLink {
                description: x.description@,
                link: x.link@,
            }),
            Err(e) => !(frame@.content is ExtendedLink) && e@ == mismatch(frame@),
        },
{
    match &frame.content {
        Content::ExtendedLink(x) => Ok(x),
        _ => Err(mismatch_error(frame)),
    }
}

/// Returns the content of a comment frame.
pub fn get_content_comm(frame: &Frame) -> (r: Result<&Comment, TagError>)
    ensures
        match r {
            Ok(x) => frame@.content == (ContentView::Comment {
                lang: x.lang@,
                description: x.description@,
                text: x.text@,
            }),
            Err(e) => !(frame@.content is Comment) && e@ == mismatch(frame@),
        },
{
    match &frame.content {
        Content::Comment(x) => Ok(x),
        _ => Err(mismatch_error(frame)),
    }
}

/// Returns the content of a lyrics frame.
pub fn get_content_uslt(frame: &Frame) -> (r: Result<&Lyrics, TagError>)
    ensures
        match r {
            Ok(x) => frame@.content == (ContentView::Lyrics {
                lang: x.lang@,
                description: x.description@,
                text: x.text@,
            }),
            Err(e) => !(frame@.content is Lyrics) && e@ == mismatch(frame@),
        },
{
    match &frame.content {
        Content::Lyrics(x) => Ok(x),
        _ => Err(mismatch_error(frame)),
    }
}

} // verus!
