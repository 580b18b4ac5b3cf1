//! Changing a tag: removing the frames of a slot, and writing a frame into
//! its slot.
//!
//! A slot is what a query names: an identifier and, for the structured
//! kinds, a description and a language. Every frame sits in one slot, and
//! a write leaves the frame written as the only frame of its slot, so that
//! writing twice is writing once. The rules for a slot are the editor's
//! own. They hold of every tag, also of one in which frames share a slot,
//! and they do not depend on how the tag codec adds or removes frames in
//! the tags that it reads and writes.

use vstd::prelude::*;
use vstd::string::*;
use crate::access::{mismatch, mismatch_error};
use crate::error::{TagError, TagErrorView};
use crate::frame::{is_settable, is_structured, kind_of_id, Frame, FrameView, Kind};
use crate::query::{
    answers, frames_same_slot, is_first_answer, is_wildcard, lemma_answer_after_filter,
    lemma_answer_after_insert, lemma_answers_is_same_slot, lemma_first_answer, lookup, query_name,
    query_name_of, same_slot, valid_query,
};
use crate::seq_lemmas::{
    lemma_filter_all, lemma_filter_items, lemma_filter_keeps_prefix, lemma_filter_none,
    lemma_filter_insert, lemma_filter_take_step, lemma_no_clash_filter, lemma_no_clash_insert,
    no_clash,
};
use crate::tag::{frames_view, Tag};

verus! {

/// Whether some frame of `frames` sits in the slot that `query` names.
pub open spec fn slot_taken(frames: Seq<FrameView>, query: FrameView) -> bool {
    exists|i: int| 0 <= i < frames.len() && same_slot(query, #[trigger] frames[i])
}

/// The frames of `frames` that do not sit in the slot that `query` names,
/// in their order.
pub open spec fn without_slot(frames: Seq<FrameView>, query: FrameView) -> Seq<FrameView> {
    frames.filter(|stored: FrameView| !same_slot(query, stored))
}

/// What deleting `query` from `frames` yields: the frames left, or the error
/// that says why nothing was deleted.
pub open spec fn deletion(frames: Seq<FrameView>, query: FrameView) -> Result<
    Seq<FrameView>,
    TagErrorView,
> {
    if !valid_query(query) {
        Err(mismatch(query))
    } else if !slot_taken(frames, query) {
        Err(TagErrorView::NotFound { query: query_name(query) })
    } else {
        Ok(without_slot(frames, query))
    }
}

/// Whether position `k` holds the first frame of `frames` that sits in the
/// slot that `frame` names.
pub open spec fn is_first_in_slot(frames: Seq<FrameView>, frame: FrameView, k: int) -> bool {
    &&& 0 <= k < frames.len()
    &&& same_slot(frame, frames[k])
    &&& forall|j: int| 0 <= j < k ==> !same_slot(frame, #[trigger] frames[j])
}

/// Where a frame written into `frames` comes to stand: at the first frame
/// that sits in its slot, or behind the last frame where the slot is free.
pub open spec fn slot_position(frames: Seq<FrameView>, frame: FrameView) -> int {
    if exists|k: int| is_first_in_slot(frames, frame, k) {
        choose|k: int| is_first_in_slot(frames, frame, k)
    } else {
        frames.len() as int
    }
}

/// Whether `frame` holds the kind of content that its identifier calls for.
pub open spec fn well_kinded(frame: FrameView) -> bool {
    frame.content.kind() == kind_of_id(frame.id)
}

/// What `frames` become when `frame` is written into them: the frame takes
/// the place of the first frame in its slot, every other frame of that slot
/// leaves, and all the rest stay in their order. Where the slot is free the
/// frame comes last.
pub open spec fn with_frame(frames: Seq<FrameView>, frame: FrameView) -> Seq<FrameView> {
    without_slot(frames, frame).insert(slot_position(frames, frame), frame)
}

/// What writing `frame` into `frames` yields: the new frames, or the error
/// that says that frames under this identifier cannot be written. The
/// identifier alone decides.
pub open spec fn setting(frames: Seq<FrameView>, frame: FrameView) -> Result<
    Seq<FrameView>,
    TagErrorView,
> {
    if !is_settable(frame.id) {
        Err(TagErrorView::UnsupportedWrite { id: frame.id })
    } else {
        Ok(with_frame(frames, frame))
    }
}

/// [`slot_position`] is the one position that meets [`is_first_in_slot`],
/// or the length where no frame sits in the slot; no frame before it sits
/// in the slot.
pub proof fn lemma_slot_position(frames: Seq<FrameView>, frame: FrameView)
    ensures
        0 <= slot_position(frames, frame) <= frames.len(),
        forall|j: int|
            0 <= j < slot_position(frames, frame) ==> !same_slot(frame, #[trigger] frames[j]),
        slot_taken(frames, frame) <==> slot_position(frames, frame) < frames.len(),
        slot_taken(frames, frame) ==> is_first_in_slot(
            frames,
            frame,
            slot_position(frames, frame),
        ),
        forall|k: int| is_first_in_slot(frames, frame, k) ==> slot_position(frames, frame) == k,
{
    if exists|k: int| is_first_in_slot(frames, frame, k) {
        let c = choose|k: int| is_first_in_slot(frames, frame, k);
        assert forall|k: int| is_first_in_slot(frames, frame, k) implies k == c by {
            if k < c {
                assert(!same_slot(frame, frames[k]));
            } else if c < k {
                assert(!same_slot(frame, frames[c]));
            }
        }
        assert(same_slot(frame, frames[c]));
    } else {
        lemma_slot_free(frames, frame, frames.len() as int);
    }
}

/// If no position is first in the slot, no frame before `n` sits in it.
proof fn lemma_slot_free(frames: Seq<FrameView>, frame: FrameView, n: int)
    requires
        0 <= n <= frames.len(),
        !exists|k: int| is_first_in_slot(frames, frame, k),
    ensures
        forall|j: int| 0 <= j < n ==> !same_slot(frame, #[trigger] frames[j]),
    decreases n,
{
    if n > 0 {
        lemma_slot_free(frames, frame, n - 1);
        if same_slot(frame, frames[n - 1]) {
            assert(is_first_in_slot(frames, frame, n - 1));
        }
    }
}

/// Returns where `frame` would come to stand in the tag.
pub fn find_slot(tag: &Tag, frame: &Frame) -> (k: usize)
    ensures
        k == slot_position(tag@.frames, frame@),
        k <= tag@.frames.len(),
{
    let mut i: usize = 0;
    while i < tag.frames.len()
        invariant
            0 <= i <= tag.frames.len(),
            forall|j: int| 0 <= j < i ==> !same_slot(frame@, #[trigger] tag@.frames[j]),
        decreases tag.frames.len() - i,
    {
        assert(tag@.frames[i as int] == tag.frames[i as int]@);
        if frames_same_slot(frame, &tag.frames[i]) {
            proof {
                assert(is_first_in_slot(tag@.frames, frame@, i as int));
                lemma_slot_position(tag@.frames, frame@);
            }
            return i;
        }
        i += 1;
    }
    proof {
        lemma_slot_position(tag@.frames, frame@);
        if slot_taken(tag@.frames, frame@) {
            let k = slot_position(tag@.frames, frame@);
            assert(!same_slot(frame@, tag@.frames[k]));
        }
    }
    i
}

/// Removes from the tag every frame that sits in the slot that `frame`
/// names, and leaves the others in their order.
fn clear_slot(tag: &mut Tag, frame: &Frame)
    ensures
        final(tag)@.version == old(tag)@.version,
        final(tag)@.frames == without_slot(old(tag)@.frames, frame@),
{
    let ghost orig = tag@.frames;
    let ghost keep = |stored: FrameView| !same_slot(frame@, stored);
    let ghost mut j: int = 0;
    let mut i: usize = 0;
    proof {
        lemma_filter_all(orig.take(0), keep);
        assert(orig.take(0).filter(keep) + orig.skip(0) =~= orig);
    }
    while i < tag.frames.len()
        invariant
            tag.version == old(tag).version,
            0 <= j <= orig.len(),
            keep == |stored: FrameView| !same_slot(frame@, stored),
            i == orig.take(j).filter(keep).len(),
            tag@.frames == orig.take(j).filter(keep) + orig.skip(j),
        decreases orig.len() - j,
    {
        proof {
            assert(tag@.frames.len() == tag.frames.len());
            assert(orig.skip(j).len() > 0);
            assert(tag@.frames[i as int] == orig.skip(j)[0]);
            assert(tag@.frames[i as int] == tag.frames[i as int]@);
            lemma_filter_take_step(orig, keep, j);
        }
        if frames_same_slot(frame, &tag.frames[i]) {
            let ghost before = tag.frames@;
            tag.frames.remove(i);
            proof {
                assert(tag.frames@ == before.remove(i as int));
                assert(tag@.frames =~= orig.take(j + 1).filter(keep) + orig.skip(j + 1)) by {
                    assert forall|n: int| 0 <= n < tag@.frames.len() implies tag@.frames[n] == (
                    orig.take(j).filter(keep) + orig.skip(j + 1))[n] by {
                        if n < i {
                            assert(tag.frames@[n] == before[n]);
                            assert(frames_view(before)[n] == (orig.take(j).filter(keep)
                                + orig.skip(j))[n]);
                        } else {
                            assert(tag.frames@[n] == before[n + 1]);
                            assert(frames_view(before)[n + 1] == (orig.take(j).filter(keep)
                                + orig.skip(j))[n + 1]);
                        }
                    }
                }
                j = j + 1;
            }
        } else {
            i += 1;
            proof {
                assert(tag@.frames =~= orig.take(j + 1).filter(keep) + orig.skip(j + 1));
                j = j + 1;
            }
        }
    }
    proof {
        assert(tag@.frames.len() == tag.frames.len());
        assert(orig.skip(j).len() == 0);
        assert(j == orig.len());
        assert(orig.take(j) =~= orig);
        assert(tag@.frames =~= orig.filter(keep));
    }
}

/// Returns whether some frame of the tag sits in the slot that `frame`
/// names.
pub fn has_slot(tag: &Tag, frame: &Frame) -> (b: bool)
    ensures
        b == slot_taken(tag@.frames, frame@),
{
    let k = find_slot(tag, frame);
    proof {
        lemma_slot_position(tag@.frames, frame@);
    }
    k < tag.frames.len()
}

/// Deletes from the tag every frame that sits in the slot that `frame`
/// names; all other frames stay, in their order. The language is compared
/// as it stands: the language that stands for any in a print query names,
/// in a delete query, only itself.
///
/// Fails, and leaves the tag as it was, with `KindMismatch` when the query
/// holds content of the wrong kind, and with `NotFound`, naming the query in
/// full, when no frame sits in the slot.
pub fn delete_tag_frame(tag: &mut Tag, frame: &Frame) -> (r: Result<(), TagError>)
    ensures
        final(tag)@.version == old(tag)@.version,
        match r {
            Ok(_) => deletion(old(tag)@.frames, frame@) == Ok::<Seq<FrameView>, TagErrorView>(
                final(tag)@.frames,
            ),
            Err(e) => deletion(old(tag)@.frames, frame@) == Err::<Seq<FrameView>, TagErrorView>(e@)
                && final(tag)@ == old(tag)@,
        },
        well_formed(old(tag)@.frames) ==> well_formed(final(tag)@.frames),
{
    proof {
        law_delete_keeps_well_formed(tag@.frames, frame@);
    }
    let kind = Kind::of_id(frame.id.as_str());
    if kind.structured() && frame.content.kind() != kind {
        return Err(mismatch_error(frame));
    }
    if !has_slot(tag, frame) {
        return Err(TagError::NotFound { query: query_name_of(frame) });
    }
    clear_slot(tag, frame);
    Ok(())
}

/// Writes `frame` into the tag: it takes the place of the first frame in
/// its slot, every other frame of that slot leaves, and where the slot is
/// free the frame comes last. All other frames stay, in their order.
///
/// Fails, and leaves the tag as it was, exactly when the identifier is none
/// that begins with `T` or `W` nor `COMM` nor `USLT`; the error is
/// `UnsupportedWrite`. What the frame holds does not decide. A frame under
/// a simple identifier takes the slot of that identifier whatever it holds.
/// A frame under `TXXX`, `WXXX`, `COMM` or `USLT` that holds another kind of
/// content has a slot too, that of the frames of its kind under its
/// identifier: it replaces such a frame, and no frame of the identifier's
/// own kind.
///
/// After a write the frame is the only frame in its slot, and a second
/// write of the same frame changes nothing.
pub fn set_tag_frame(tag: &mut Tag, frame: Frame) -> (r: Result<(), TagError>)
    ensures
        final(tag)@.version == old(tag)@.version,
        r is Err <==> !is_settable(frame@.id),
        r matches Err(e) ==> e@ == (TagErrorView::UnsupportedWrite { id: frame@.id })
            && final(tag)@ == old(tag)@,
        r is Ok ==> final(tag)@.frames == with_frame(old(tag)@.frames, frame@),
        r is Ok ==> alone_in_slot(final(tag)@.frames, frame@),
        r is Ok ==> with_frame(final(tag)@.frames, frame@) == final(tag)@.frames,
        match r {
            Ok(_) => setting(old(tag)@.frames, frame@) == Ok::<Seq<FrameView>, TagErrorView>(
                final(tag)@.frames,
            ),
            Err(e) => setting(old(tag)@.frames, frame@) == Err::<Seq<FrameView>, TagErrorView>(e@),
        },
        well_formed(old(tag)@.frames) ==> well_formed(final(tag)@.frames),
{
    proof {
        law_set_keeps_well_formed(tag@.frames, frame@);
        law_set_idempotent(tag@.frames, frame@);
    }
    if !Kind::settable(frame.id.as_str()) {
        return Err(TagError::UnsupportedWrite { id: frame.id });
    }
    let k = find_slot(tag, &frame);
    proof {
        lemma_slot_position(tag@.frames, frame@);
        lemma_filter_keeps_prefix(
            tag@.frames,
            |stored: FrameView| !same_slot(frame@, stored),
            k as int,
        );
    }
    clear_slot(tag, &frame);
    let ghost cleared = tag.frames@;
    tag.frames.insert(k, frame);
    proof {
        assert(tag.frames@ == cleared.insert(k as int, frame));
        assert(tag@.frames =~= frames_view(cleared).insert(k as int, frame@));
    }
    Ok(())
}

/// Whether a frame that stands before the place where `frame` is written
/// answers `frame` used as a query. That can only be where `frame` is in the
/// language that stands for any, and a frame with its description in another
/// language stands before it: a print then yields that frame.
pub open spec fn shadowed(frames: Seq<FrameView>, frame: FrameView) -> bool {
    exists|j: int|
        0 <= j < slot_position(frames, frame) && answers(frame, #[trigger] frames[j])
}

/// A frame whose language does not stand for any is shadowed by nothing.
pub proof fn law_only_wildcard_shadowed(frames: Seq<FrameView>, frame: FrameView)
    requires
        !is_wildcard(frame),
    ensures
        !shadowed(frames, frame),
{
    lemma_slot_position(frames, frame);
    if shadowed(frames, frame) {
        let j = choose|j: int|
            0 <= j < slot_position(frames, frame) && answers(frame, #[trigger] frames[j]);
        lemma_answers_is_same_slot(frame, frames[j]);
        assert(!same_slot(frame, frames[j]));
    }
}

/// Set, then print: writing a frame succeeds for every settable frame that
/// holds the kind its identifier calls for, and a print of the same frame
/// as a query then yields exactly the payload that was written. This holds
/// of every tag and frame but those of [`shadowed`].
pub proof fn law_set_then_print(frames: Seq<FrameView>, frame: FrameView)
    requires
        is_settable(frame.id),
        well_kinded(frame),
        !shadowed(frames, frame),
    ensures
        setting(frames, frame) == Ok::<Seq<FrameView>, TagErrorView>(with_frame(frames, frame)),
        lookup(with_frame(frames, frame), frame) == Ok::<Seq<char>, TagErrorView>(
            frame.content.payload(),
        ),
{
    let keep = |stored: FrameView| !same_slot(frame, stored);
    let k = slot_position(frames, frame);
    lemma_slot_position(frames, frame);
    lemma_filter_keeps_prefix(frames, keep, k);
    let after = with_frame(frames, frame);
    assert(after[k] == frame);
    assert forall|j: int| 0 <= j < k implies !answers(frame, #[trigger] after[j]) by {
        assert(after[j] == frames[j]);
    }
    assert(answers(frame, frame));
    assert(is_first_answer(after, frame, k));
    lemma_first_answer(after, frame);
}

/// Deleting a query that no frame answers to leaves the frames as they are
/// and reports `NotFound`.
pub proof fn law_delete_absent(frames: Seq<FrameView>, query: FrameView)
    requires
        valid_query(query),
        !slot_taken(frames, query),
    ensures
        deletion(frames, query) == Err::<Seq<FrameView>, TagErrorView>(
            TagErrorView::NotFound { query: query_name(query) },
        ),
        without_slot(frames, query) == frames,
        without_slot(frames, query).to_multiset() == frames.to_multiset(),
{
    lemma_filter_all(frames, |stored: FrameView| !same_slot(query, stored));
}

/// Deleting a query whose slot holds exactly one frame, at position `i`,
/// removes that frame and nothing else: all other frames, those under the
/// same identifier with other keys among them, stay in their order.
pub proof fn law_delete_single(frames: Seq<FrameView>, query: FrameView, i: int)
    requires
        valid_query(query),
        0 <= i < frames.len(),
        same_slot(query, frames[i]),
        forall|j: int| 0 <= j < frames.len() && j != i ==> !same_slot(query, #[trigger] frames[j]),
    ensures
        deletion(frames, query) == Ok::<Seq<FrameView>, TagErrorView>(frames.remove(i)),
{
    let keep = |stored: FrameView| !same_slot(query, stored);
    lemma_filter_keeps_prefix(frames, keep, i);
    let rest = frames.skip(i);
    assert(rest =~= seq![frames[i]] + frames.skip(i + 1));
    Seq::filter_distributes_over_add(seq![frames[i]], frames.skip(i + 1), keep);
    lemma_filter_none(seq![frames[i]], keep);
    assert forall|j: int| 0 <= j < frames.skip(i + 1).len() implies keep(
        #[trigger] frames.skip(i + 1)[j],
    ) by {
        assert(frames.skip(i + 1)[j] == frames[i + 1 + j]);
    }
    lemma_filter_all(frames.skip(i + 1), keep);
    assert(without_slot(frames, query) =~= frames.remove(i));
}

/// After a deletion that succeeded no frame sits in the slot, every frame
/// left stood in the tag before, and every frame that stood outside the
/// slot is left.
pub proof fn law_delete_clears_slot(frames: Seq<FrameView>, query: FrameView)
    ensures
        !slot_taken(without_slot(frames, query), query),
        forall|i: int|
            0 <= i < without_slot(frames, query).len() ==> frames.contains(
                #[trigger] without_slot(frames, query)[i],
            ),
        forall|i: int|
            0 <= i < frames.len() && !same_slot(query, #[trigger] frames[i]) ==> without_slot(
                frames,
                query,
            ).contains(frames[i]),
{
    let keep = |stored: FrameView| !same_slot(query, stored);
    lemma_filter_items(frames, keep);
    assert forall|i: int|
        0 <= i < frames.len() && !same_slot(query, #[trigger] frames[i]) implies without_slot(
        frames,
        query,
    ).contains(frames[i]) by {
        frames.lemma_filter_contains(keep, i);
    }
}

/// Whether no two frames of `frames` share a slot: what a tag holds by
/// convention. The operations on tags also work where this does not hold.
pub open spec fn distinct_slots(frames: Seq<FrameView>) -> bool {
    no_clash(frames, |a: FrameView, b: FrameView| same_slot(a, b))
}

/// Whether no two frames under an identifier of a structured kind share a
/// slot, so that under one such identifier their keys differ: what every
/// well-formed tag holds. Frames under the other identifiers may stand twice
/// under one of them.
pub open spec fn well_formed(frames: Seq<FrameView>) -> bool {
    no_clash(
        frames,
        |a: FrameView, b: FrameView| is_structured(kind_of_id(a.id)) && same_slot(a, b),
    )
}

/// Deleting keeps a tag well formed, and keeps its slots distinct.
pub proof fn law_delete_keeps_well_formed(frames: Seq<FrameView>, query: FrameView)
    ensures
        well_formed(frames) ==> well_formed(without_slot(frames, query)),
        distinct_slots(frames) ==> distinct_slots(without_slot(frames, query)),
{
    let keep = |stored: FrameView| !same_slot(query, stored);
    if well_formed(frames) {
        lemma_no_clash_filter(
            frames,
            |a: FrameView, b: FrameView| is_structured(kind_of_id(a.id)) && same_slot(a, b),
            keep,
        );
    }
    if distinct_slots(frames) {
        lemma_no_clash_filter(frames, |a: FrameView, b: FrameView| same_slot(a, b), keep);
    }
}

/// Whether `frame` is the one frame of `frames` that sits in its slot.
pub open spec fn alone_in_slot(frames: Seq<FrameView>, frame: FrameView) -> bool {
    exists|k: int|
        0 <= k < frames.len() && frames[k] == frame && forall|i: int|
            0 <= i < frames.len() && i != k ==> !same_slot(frame, #[trigger] frames[i])
}

/// Writing a frame keeps a tag well formed, and keeps its slots distinct.
/// Whatever the tag held and whatever the frame holds, the frame written is
/// afterwards the only frame in its slot.
pub proof fn law_set_keeps_well_formed(frames: Seq<FrameView>, frame: FrameView)
    ensures
        well_formed(frames) ==> well_formed(with_frame(frames, frame)),
        distinct_slots(frames) ==> distinct_slots(with_frame(frames, frame)),
        forall|i: int|
            0 <= i < with_frame(frames, frame).len() && i != slot_position(frames, frame)
                ==> !same_slot(frame, #[trigger] with_frame(frames, frame)[i]),
        with_frame(frames, frame)[slot_position(frames, frame)] == frame,
        same_slot(frame, frame),
        alone_in_slot(with_frame(frames, frame), frame),
{
    let keep = |stored: FrameView| !same_slot(frame, stored);
    let k = slot_position(frames, frame);
    let rest = without_slot(frames, frame);
    lemma_slot_position(frames, frame);
    lemma_filter_keeps_prefix(frames, keep, k);
    lemma_filter_items(frames, keep);
    law_delete_keeps_well_formed(frames, frame);
    if well_formed(frames) {
        lemma_no_clash_insert(
            rest,
            |a: FrameView, b: FrameView| is_structured(kind_of_id(a.id)) && same_slot(a, b),
            k,
            frame,
        );
    }
    if distinct_slots(frames) {
        lemma_no_clash_insert(rest, |a: FrameView, b: FrameView| same_slot(a, b), k, frame);
    }
    assert forall|i: int|
        0 <= i < with_frame(frames, frame).len() && i != k implies !same_slot(
        frame,
        #[trigger] with_frame(frames, frame)[i],
    ) by {
        if i < k {
            assert(with_frame(frames, frame)[i] == rest[i]);
        } else {
            assert(with_frame(frames, frame)[i] == rest[i - 1]);
        }
    }
    assert(with_frame(frames, frame)[k] == frame);
}

/// Writing a frame twice leaves what writing it once leaves, whatever the
/// tag held and whatever the frame holds.
pub proof fn law_set_idempotent(frames: Seq<FrameView>, frame: FrameView)
    ensures
        with_frame(with_frame(frames, frame), frame) == with_frame(frames, frame),
        setting(frames, frame) matches Ok(once) ==> setting(once, frame) == Ok::<
            Seq<FrameView>,
            TagErrorView,
        >(once),
{
    let keep = |stored: FrameView| !same_slot(frame, stored);
    let k = slot_position(frames, frame);
    let rest = without_slot(frames, frame);
    let once = rest.insert(k, frame);
    assert(0 <= k <= rest.len() && rest.take(k) == frames.take(k)) by {
        lemma_slot_position(frames, frame);
        lemma_filter_keeps_prefix(frames, keep, k);
        assert(rest.take(k) =~= frames.take(k));
    }
    assert(forall|i: int| 0 <= i < rest.len() ==> keep(#[trigger] rest[i])) by {
        lemma_filter_items(frames, keep);
    }
    assert(slot_position(once, frame) == k) by {
        assert(once[k] == frame);
        assert forall|j: int| 0 <= j < k implies !same_slot(frame, #[trigger] once[j]) by {
            assert(once[j] == rest[j]);
        }
        assert(is_first_in_slot(once, frame, k));
        lemma_slot_position(once, frame);
    }
    assert(without_slot(once, frame) == rest) by {
        lemma_filter_insert(rest, keep, k, frame);
    }
}

/// Whether `query` names another slot than the one that `frame` sits in:
/// another identifier, or under the same identifier of a structured kind
/// another description or, unless the query's language stands for any,
/// another language.
pub open spec fn names_other_slot(query: FrameView, frame: FrameView) -> bool {
    ||| query.id != frame.id
    ||| {
        &&& is_structured(kind_of_id(query.id))
        &&& {
            ||| query.content.description() != frame.content.description()
            ||| (query.content.lang() != frame.content.lang() && !is_wildcard(query))
        }
    }
}

/// Writing a frame changes nothing for the queries that name another slot:
/// a print of such a query yields after the write what it yielded before.
/// So frames written into different slots can each be printed again.
pub proof fn law_set_leaves_other_slots(
    frames: Seq<FrameView>,
    frame: FrameView,
    query: FrameView,
)
    requires
        names_other_slot(query, frame),
    ensures
        lookup(with_frame(frames, frame), query) == lookup(frames, query),
{
    let keep = |stored: FrameView| !same_slot(frame, stored);
    let k = slot_position(frames, frame);
    lemma_slot_position(frames, frame);
    lemma_filter_keeps_prefix(frames, keep, k);
    assert forall|x: FrameView| answers(query, x) implies keep(x) by {}
    lemma_answer_after_filter(frames, query, keep);
    lemma_answer_after_insert(without_slot(frames, frame), query, k, frame);
}

/// Deleting a query changes nothing for the queries that name another slot:
/// a print of such a query yields after the deletion what it yielded before.
pub proof fn law_delete_leaves_other_slots(
    frames: Seq<FrameView>,
    deleted: FrameView,
    query: FrameView,
)
    requires
        names_other_slot(query, deleted),
    ensures
        lookup(without_slot(frames, deleted), query) == lookup(frames, query),
{
    let keep = |stored: FrameView| !same_slot(deleted, stored);
    assert forall|x: FrameView| answers(query, x) implies keep(x) by {}
    lemma_answer_after_filter(frames, query, keep);
}

} // verus!
