//! The operations that a run applies to each file's tag, in the order given.

use vstd::prelude::*;
use crate::frame::{Frame, FrameView};
use crate::version::{ConvertOpt, PurgeOpt};

verus! {

/// One operation on a tag.
#[derive(Debug, PartialEq, Eq)]
pub enum Action {
    /// Print the payload of the frame that the query identifies.
    Print(Frame),
    /// Write the frame into the tag.
    Write(Frame),
    /// Delete the frames in the slot that the query names.
    Delete(Frame),
    /// Convert the tag to another version.
    Convert(ConvertOpt),
    /// Remove the tag from the file, if its version is in scope.
    Purge(PurgeOpt),
}

/// The mathematical value of an [`Action`].
pub enum ActionView {
    Print(FrameView),
    Write(FrameView),
    Delete(FrameView),
    Convert(ConvertOpt),
    Purge(PurgeOpt),
}

impl View for Action {
    type V = ActionView;

    open spec fn view(&self) -> ActionView {
        match self {
            Action::Print(f) => ActionView::Print(f@),
            Action::Write(f) => ActionView::Write(f@),
            Action::Delete(f) => ActionView::Delete(f@),
            Action::Convert(opt) => ActionView::Convert(*opt),
            Action::Purge(opt) => ActionView::Purge(*opt),
        }
    }
}

/// The values of a sequence of actions.
pub open spec fn actions_view(actions: Seq<Action>) -> Seq<ActionView> {
    Seq::new(actions.len(), |i: int| actions[i]@)
}

impl Clone for Action {
    fn clone(&self) -> (r: Self)
        ensures
            r@ == self@,
    {
        match self {
            Action::Print(f) => Action::Print(f.clone()),
            Action::Write(f) => Action::Write(f.clone()),
            Action::Delete(f) => Action::Delete(f.clone()),
            Action::Convert(opt) => Action::Convert(*opt),
            Action::Purge(opt) => Action::Purge(*opt),
        }
    }
}

} // verus!
