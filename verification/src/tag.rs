//! Tags: an ordered collection of frames under a declared version.

use vstd::prelude::*;
use crate::frame::{Frame, FrameView};
use crate::version::{default_version, Version};

verus! {

/// An ordered collection of frames and the version it is declared under.
#[derive(Debug, PartialEq, Eq)]
pub struct Tag {
    pub version: Version,
    pub frames: Vec<Frame>,
}

/// The mathematical value of a [`Tag`].
pub struct TagView {
    pub version: Version,
    pub frames: Seq<FrameView>,
}

/// The values of a sequence of frames.
pub open spec fn frames_view(frames: Seq<Frame>) -> Seq<FrameView> {
    Seq::new(frames.len(), |i: int| frames[i]@)
}

impl View for Tag {
    type V = TagView;

    open spec fn view(&self) -> TagView {
        TagView { version: self.version, frames: frames_view(self.frames@) }
    }
}

impl Tag {
    /// A tag without frames at the default version.
    pub fn new() -> (tag: Tag)
        ensures
            tag@ == (TagView { version: default_version(), frames: Seq::empty() }),
    {
        let tag = Tag { version: Version::initial(), frames: Vec::new() };
        assert(tag@.frames =~= Seq::empty());
        tag
    }

    /// A tag without frames at the given version.
    pub fn with_version(version: Version) -> (tag: Tag)
        ensures
            tag@ == (TagView { version, frames: Seq::empty() }),
    {
        let tag = Tag { version, frames: Vec::new() };
        assert(tag@.frames =~= Seq::empty());
        tag
    }

    /// Appends a frame at the end of the tag, whatever the tag holds already.
    pub fn push(&mut self, frame: Frame)
        ensures
            final(self)@.version == old(self)@.version,
            final(self)@.frames == old(self)@.frames.push(frame@),
    {
        self.frames.push(frame);
    }
}

impl Clone for Tag {
    fn clone(&self) -> (r: Self)
        ensures
            r@ == self@,
    {
        let mut frames: Vec<Frame> = Vec::new();
        let mut i: usize = 0;
        while i < self.frames.len()
            invariant
                0 <= i <= self.frames.len(),
                frames.len() == i,
                frames_view(frames@) == frames_view(self.frames@).take(i as int),
            decreases self.frames.len() - i,
        {
            let ghost before = frames@;
            frames.push(self.frames[i].clone());
            i += 1;
            assert forall|j: int| 0 <= j < i implies frames_view(frames@)[j] == frames_view(
                self.frames@,
            )[j] by {
                if j < i - 1 {
                    assert(frames_view(before)[j] == frames_view(self.frames@).take(i - 1)[j]);
                }
            }
            assert(frames_view(frames@) =~= frames_view(self.frames@).take(i as int));
        }
        assert(frames_view(self.frames@).take(self.frames.len() as int) =~= frames_view(
            self.frames@,
        ));
        Tag { version: self.version, frames }
    }
}

} // verus!
