//! The work on one file: a tag held in memory, the actions applied to it
//! one by one, and what each of them prints, reports and asks for.

use vstd::prelude::*;
use vstd::string::*;
use crate::access::{mismatch, mismatch_error};
use crate::action::{Action, ActionView};
use crate::convert::{conversion, convert_tag, fit_mask};
use crate::edit::{delete_tag_frame, deletion, set_tag_frame, setting};
use crate::error::strings_view;
use crate::frame::{is_structured, kind_of_id, Frame, FrameView, Kind};
use crate::query::{
    find_frame, first_answer, lemma_first_answer, lookup, print_tag_frame_query, valid_query,
};
use crate::seq_lemmas::lemma_filter_take_step;
use crate::tag::{Tag, TagView};
use crate::text::str_eq;
use crate::version::default_version;

verus! {

/// What is printed between two values: `frame` between the prints of one
/// file, `file` between the prints of two files.
#[derive(Debug, PartialEq, Eq)]
pub struct Separators {
    pub frame: String,
    pub file: String,
}

/// The mathematical value of [`Separators`].
pub struct SeparatorsView {
    pub frame: Seq<char>,
    pub file: Seq<char>,
}

impl View for Separators {
    type V = SeparatorsView;

    open spec fn view(&self) -> SeparatorsView {
        SeparatorsView { frame: self.frame@, file: self.file@ }
    }
}

/// The state of the work on one file.
#[derive(Debug, PartialEq, Eq)]
pub struct Session {
    /// The tag as it stands in memory.
    pub tag: Tag,
    /// Whether the tag differs from what the file holds.
    pub modified: bool,
    /// Whether a conversion was asked for, so that the tag is written at
    /// its version even if nothing else changed.
    pub pinned: bool,
    /// Whether a print was run for this file.
    pub printed_in_file: bool,
    /// Whether a print was run for this or an earlier file of the run.
    pub printed_in_run: bool,
}

/// The mathematical value of a [`Session`].
pub struct SessionView {
    pub tag: TagView,
    pub modified: bool,
    pub pinned: bool,
    pub printed_in_file: bool,
    pub printed_in_run: bool,
}

impl View for Session {
    type V = SessionView;

    open spec fn view(&self) -> SessionView {
        SessionView {
            tag: self.tag@,
            modified: self.modified,
            pinned: self.pinned,
            printed_in_file: self.printed_in_file,
            printed_in_run: self.printed_in_run,
        }
    }
}

/// What is to happen after an action.
#[derive(Clone, Copy, Debug, PartialEq, Eq, Structural)]
pub enum Next {
    /// Go on with the next action.
    Continue,
    /// Remove the tag from the file, then report to the session how that
    /// went and go on with the next action.
    Purge,
    /// Stop the run: the action failed in a way that must not pass
    /// silently. Nothing is written for this file.
    Abort,
}

/// What one action brought about: what it prints, the lines that it
/// reports as errors, each without its line feed, and what is to happen
/// next.
#[derive(Debug, PartialEq, Eq)]
pub struct Step {
    pub out: String,
    pub err: Vec<String>,
    pub next: Next,
}

/// The mathematical value of a [`Step`].
pub struct StepView {
    pub out: Seq<char>,
    pub err: Seq<Seq<char>>,
    pub next: Next,
}

impl View for Step {
    type V = StepView;

    open spec fn view(&self) -> StepView {
        StepView { out: self.out@, err: strings_view(self.err@), next: self.next }
    }
}

/// The session that a file starts with: the tag read from it, or where it
/// holds none an empty tag at the default version; nothing modified, no
/// version pinned, nothing printed for this file.
pub open spec fn opened(loaded: Option<TagView>, printed_in_run: bool) -> SessionView {
    SessionView {
        tag: match loaded {
            Some(tag) => tag,
            None => TagView { version: default_version(), frames: Seq::empty() },
        },
        modified: false,
        pinned: false,
        printed_in_file: false,
        printed_in_run,
    }
}

/// What is printed before the next value: nothing before the first value of
/// the run, the file separator before the first value of any later file,
/// the frame separator before every other value.
pub open spec fn separator(session: SessionView, separators: SeparatorsView) -> Seq<char> {
    if session.printed_in_file {
        separators.frame
    } else if session.printed_in_run {
        separators.file
    } else {
        Seq::empty()
    }
}

/// Whether a stored frame stands under the identifier of the query, which
/// is of a structured kind, and holds another kind of content.
pub open spec fn is_malformed_for(query: FrameView, stored: FrameView) -> bool {
    &&& stored.id == query.id
    &&& is_structured(kind_of_id(query.id))
    &&& stored.content.kind() != kind_of_id(query.id)
}

/// The warnings that looking through `frames` for `query` gives: one line
/// for each frame that stands under the query's identifier and holds the
/// wrong kind of content, in the order of the frames. Such frames answer no
/// query.
pub open spec fn warnings(frames: Seq<FrameView>, query: FrameView) -> Seq<Seq<char>> {
    frames.filter(|stored: FrameView| is_malformed_for(query, stored)).map_values(
        |stored: FrameView| mismatch(stored).report(),
    )
}

/// The frames that a print of `query` looks at: those before the first
/// frame that the query identifies, or all where it identifies none.
pub open spec fn scanned(frames: Seq<FrameView>, query: FrameView) -> Seq<FrameView> {
    match first_answer(frames, query) {
        Some(k) => frames.take(k),
        None => frames,
    }
}

/// The warnings that a print of `query` gives: those of the frames that it
/// looks at, which end with the frame it prints. A query that cannot be
/// used as one is refused before any frame is looked at.
pub open spec fn print_warnings(frames: Seq<FrameView>, query: FrameView) -> Seq<Seq<char>> {
    if valid_query(query) {
        warnings(scanned(frames, query), query)
    } else {
        Seq::empty()
    }
}

/// The warnings that a delete of `query` gives: those of all frames, since
/// a delete looks at every frame under the identifier. A query that cannot
/// be used as one is refused before any frame is looked at.
pub open spec fn delete_warnings(frames: Seq<FrameView>, query: FrameView) -> Seq<Seq<char>> {
    if valid_query(query) {
        warnings(frames, query)
    } else {
        Seq::empty()
    }
}

/// What an action does to a session, and the step that it yields.
///
/// - A print puts out the separator that is due and then, where the query
///   finds a frame, its payload. Where it finds none that is reported, and
///   the run goes on.
/// - A set writes the frame and marks the tag as modified. A frame under an
///   identifier that cannot be written is reported, and the run stops.
/// - A delete removes the frames in the query's slot and marks the tag as
///   modified. Where there is none that is reported, the tag is not marked,
///   and the run goes on.
/// - A convert pins the version. It replaces the tag and marks it as
///   modified where the version differs. A strict conversion that would
///   lose a frame is reported, and the run stops.
/// - A purge asks for the removal of the tag from the file where the tag's
///   version is in its scope, and does nothing else.
pub open spec fn step(session: SessionView, separators: SeparatorsView, action: ActionView) -> (
    SessionView,
    StepView,
) {
    match action {
        ActionView::Print(query) => {
            let after = SessionView { printed_in_file: true, printed_in_run: true, ..session };
            let sep = separator(session, separators);
            let notes = print_warnings(session.tag.frames, query);
            match lookup(session.tag.frames, query) {
                Ok(payload) => (
                    after,
                    StepView { out: sep + payload, err: notes, next: Next::Continue },
                ),
                Err(e) => (
                    after,
                    StepView { out: sep, err: notes.push(e.report()), next: Next::Continue },
                ),
            }
        },
        ActionView::Write(frame) => match setting(session.tag.frames, frame) {
            Ok(frames) => (
                SessionView {
                    tag: TagView { version: session.tag.version, frames },
                    modified: true,
                    ..session
                },
                StepView { out: Seq::empty(), err: Seq::empty(), next: Next::Continue },
            ),
            Err(e) => (
                session,
                StepView { out: Seq::empty(), err: seq![e.report()], next: Next::Abort },
            ),
        },
        ActionView::Delete(query) => {
            let notes = delete_warnings(session.tag.frames, query);
            match deletion(session.tag.frames, query) {
                Ok(frames) => (
                    SessionView {
                        tag: TagView { version: session.tag.version, frames },
                        modified: true,
                        ..session
                    },
                    StepView { out: Seq::empty(), err: notes, next: Next::Continue },
                ),
                Err(e) => (
                    session,
                    StepView {
                        out: Seq::empty(),
                        err: notes.push(e.report()),
                        next: Next::Continue,
                    },
                ),
            }
        },
        ActionView::Convert(opt) => match conversion(
            session.tag,
            opt.target_spec(),
            opt.force_spec(),
            fit_mask(session.tag.frames, opt.target_spec()),
        ) {
            Ok(tag) => (
                SessionView {
                    tag,
                    modified: session.modified || session.tag.version != opt.target_spec(),
                    pinned: true,
                    ..session
                },
                StepView { out: Seq::empty(), err: Seq::empty(), next: Next::Continue },
            ),
            Err(e) => (
                session,
                StepView { out: Seq::empty(), err: seq![e.report()], next: Next::Abort },
            ),
        },
        ActionView::Purge(scope) => (
            session,
            StepView {
                out: Seq::empty(),
                err: Seq::empty(),
                next: if scope.covers_spec(session.tag.version) {
                    Next::Purge
                } else {
                    Next::Continue
                },
            },
        ),
    }
}

/// The session after the tag was removed from the file: an empty tag at the
/// default version, not modified, no version pinned.
pub open spec fn after_purge(session: SessionView) -> SessionView {
    SessionView {
        tag: TagView { version: default_version(), frames: Seq::empty() },
        modified: false,
        pinned: false,
        ..session
    }
}

/// Returns the warnings that looking through the first `upto` frames of the
/// tag for `query` gives.
fn scan_warnings(tag: &Tag, query: &Frame, upto: usize) -> (notes: Vec<String>)
    requires
        upto <= tag.frames.len(),
    ensures
        strings_view(notes@) == warnings(tag@.frames.take(upto as int), query@),
{
    let mut notes: Vec<String> = Vec::new();
    let kind = Kind::of_id(query.id.as_str());
    let ghost bad = |stored: FrameView| is_malformed_for(query@, stored);
    let ghost say = |stored: FrameView| mismatch(stored).report();
    let mut i: usize = 0;
    proof {
        assert(tag@.frames.take(0).filter(bad) =~= Seq::<FrameView>::empty()) by {
            reveal(Seq::filter);
        }
        assert(strings_view(notes@) =~= tag@.frames.take(0).filter(bad).map_values(say));
    }
    while i < upto
        invariant
            0 <= i <= upto <= tag.frames.len(),
            kind == kind_of_id(query@.id),
            bad == |stored: FrameView| is_malformed_for(query@, stored),
            say == |stored: FrameView| mismatch(stored).report(),
            strings_view(notes@) == tag@.frames.take(i as int).filter(bad).map_values(say),
        decreases upto - i,
    {
        let stored = &tag.frames[i];
        proof {
            assert(tag@.frames[i as int] == stored@);
            lemma_filter_take_step(tag@.frames, bad, i as int);
        }
        if kind.structured() && str_eq(stored.id.as_str(), query.id.as_str())
            && stored.content.kind() != kind {
            let ghost before = notes@;
            notes.push(mismatch_error(stored).report());
            proof {
                let sel = tag@.frames.take(i as int).filter(bad);
                assert(strings_view(notes@) =~= strings_view(before).push(say(stored@)));
                assert(sel.push(stored@).map_values(say) =~= sel.map_values(say).push(
                    say(stored@),
                ));
            }
        }
        i += 1;
    }
    notes
}

/// Returns whether `query` can be used as a query.
pub fn query_is_valid(query: &Frame) -> (b: bool)
    ensures
        b == valid_query(query@),
{
    let kind = Kind::of_id(query.id.as_str());
    !kind.structured() || query.content.kind() == kind
}

/// Returns the warnings that a print of `query` gives.
pub fn print_warnings_of(tag: &Tag, query: &Frame) -> (notes: Vec<String>)
    ensures
        strings_view(notes@) == print_warnings(tag@.frames, query@),
{
    if !query_is_valid(query) {
        let notes: Vec<String> = Vec::new();
        assert(strings_view(notes@) =~= Seq::<Seq<char>>::empty());
        return notes;
    }
    let upto = match find_frame(tag, query) {
        Some(k) => k,
        None => tag.frames.len(),
    };
    proof {
        lemma_first_answer(tag@.frames, query@);
        assert(tag@.frames.take(tag.frames.len() as int) =~= tag@.frames);
    }
    scan_warnings(tag, query, upto)
}

/// Returns the warnings that a delete of `query` gives.
pub fn delete_warnings_of(tag: &Tag, query: &Frame) -> (notes: Vec<String>)
    ensures
        strings_view(notes@) == delete_warnings(tag@.frames, query@),
{
    if !query_is_valid(query) {
        let notes: Vec<String> = Vec::new();
        assert(strings_view(notes@) =~= Seq::<Seq<char>>::empty());
        return notes;
    }
    proof {
        assert(tag@.frames.take(tag.frames.len() as int) =~= tag@.frames);
    }
    scan_warnings(tag, query, tag.frames.len())
}

impl Session {
    /// Starts the work on a file with the tag that was read from it, or
    /// with `None` where the file holds no tag. `printed_in_run` says
    /// whether a print was run for an earlier file.
    pub fn open(loaded: Option<Tag>, printed_in_run: bool) -> (session: Session)
        ensures
            session@ == opened(
                match loaded {
                    Some(tag) => Some(tag@),
                    None => None,
                },
                printed_in_run,
            ),
    {
        let tag = match loaded {
            Some(tag) => tag,
            None => Tag::new(),
        };
        Session { tag, modified: false, pinned: false, printed_in_file: false, printed_in_run }
    }

    /// Applies one action to the session and returns the step it yields.
    pub fn apply(&mut self, separators: &Separators, action: &Action) -> (r: Step)
        ensures
            (final(self)@, r@) == step(old(self)@, separators@, action@),
    {
        match action {
            Action::Print(query) => {
                let mut out = String::new();
                if self.printed_in_file {
                    out.append(separators.frame.as_str());
                } else if self.printed_in_run {
                    out.append(separators.file.as_str());
                }
                assert(out@ =~= separator(self@, separators@));
                self.printed_in_file = true;
                self.printed_in_run = true;
                let mut err = print_warnings_of(&self.tag, query);
                match print_tag_frame_query(&self.tag, query) {
                    Ok(payload) => {
                        out.append(payload.as_str());
                    },
                    Err(e) => {
                        let ghost before = err@;
                        err.push(e.report());
                        assert(strings_view(err@) =~= strings_view(before).push(e@.report()));
                    },
                }
                Step { out, err, next: Next::Continue }
            },
            Action::Write(frame) => {
                match set_tag_frame(&mut self.tag, frame.clone()) {
                    Ok(_) => {
                        self.modified = true;
                        let err: Vec<String> = Vec::new();
                        assert(strings_view(err@) =~= Seq::<Seq<char>>::empty());
                        Step { out: String::new(), err, next: Next::Continue }
                    },
                    Err(e) => {
                        let mut err: Vec<String> = Vec::new();
                        err.push(e.report());
                        assert(strings_view(err@) =~= seq![e@.report()]);
                        Step { out: String::new(), err, next: Next::Abort }
                    },
                }
            },
            Action::Delete(query) => {
                let mut err = delete_warnings_of(&self.tag, query);
                match delete_tag_frame(&mut self.tag, query) {
                    Ok(_) => {
                        self.modified = true;
                    },
                    Err(e) => {
                        let ghost before = err@;
                        err.push(e.report());
                        assert(strings_view(err@) =~= strings_view(before).push(e@.report()));
                    },
                }
                Step { out: String::new(), err, next: Next::Continue }
            },
            Action::Convert(opt) => {
                match convert_tag(&mut self.tag, *opt) {
                    Ok(changed) => {
                        self.modified = self.modified || changed;
                        self.pinned = true;
                        let err: Vec<String> = Vec::new();
                        assert(strings_view(err@) =~= Seq::<Seq<char>>::empty());
                        Step { out: String::new(), err, next: Next::Continue }
                    },
                    Err(e) => {
                        let mut err: Vec<String> = Vec::new();
                        err.push(e.report());
                        assert(strings_view(err@) =~= seq![e@.report()]);
                        Step { out: String::new(), err, next: Next::Abort }
                    },
                }
            },
            Action::Purge(scope) => {
                let err: Vec<String> = Vec::new();
                assert(strings_view(err@) =~= Seq::<Seq<char>>::empty());
                let next = if scope.covers(self.tag.version) {
                    Next::Purge
                } else {
                    Next::Continue
                };
                Step { out: String::new(), err, next }
            },
        }
    }

    /// Takes note that the tag was removed from the file: the session goes
    /// on with an empty tag at the default version, and has nothing left to
    /// write.
    pub fn purged(&mut self)
        ensures
            final(self)@ == after_purge(old(self)@),
    {
        self.tag = Tag::new();
        self.modified = false;
        self.pinned = false;
    }

    /// Returns whether the tag is to be written back when the actions are
    /// done: where it was modified, or a version was pinned.
    pub fn needs_write(&self) -> (b: bool)
        ensures
            b == (self@.modified || self@.pinned),
    {
        self.modified || self.pinned
    }
}

} // verus!
