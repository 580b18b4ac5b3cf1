//! Queries: which stored frame a query frame identifies, and what printing
//! it yields.

use vstd::prelude::*;
use vstd::string::*;
use crate::access::{mismatch, mismatch_error};
use crate::error::{TagError, TagErrorView};
use crate::frame::{has_lang, is_structured, kind_of_id, Frame, FrameView, Kind};
use crate::seq_lemmas::{lemma_filter_all, lemma_filter_items};
use crate::tag::Tag;
use crate::text::str_eq;

verus! {

/// The language that, in a print query, stands for any language.
pub const ANY_LANG: &'static str = "first";

/// The language that, in a print query, stands for any language.
pub open spec fn any_lang() -> Seq<char> {
    ANY_LANG@
}

/// Whether `query` can be used as a query: under an identifier of a
/// structured kind it holds content of that kind, from which its keys are
/// read. Under any other identifier the content of a query is not looked at.
pub open spec fn valid_query(query: FrameView) -> bool {
    is_structured(kind_of_id(query.id)) ==> query.content.kind() == kind_of_id(query.id)
}

/// Whether the language of `query` stands for any language.
pub open spec fn is_wildcard(query: FrameView) -> bool {
    has_lang(kind_of_id(query.id)) && query.content.lang() == any_lang()
}

/// Whether `stored` sits in the very slot that `query` names: the same
/// identifier and, under an identifier of a structured kind, content of the
/// same kind as the query's with the same description and the same
/// language. The language is compared as it stands: here no language stands
/// for any other.
///
/// Every frame sits in its own slot, also one that holds another kind of
/// content than its identifier calls for: such a frame has no keys, and
/// shares its slot with the frames of its kind under its identifier.
pub open spec fn same_slot(query: FrameView, stored: FrameView) -> bool {
    &&& query.id == stored.id
    &&& is_structured(kind_of_id(query.id)) ==> {
        &&& query.content.kind() == stored.content.kind()
        &&& query.content.description() == stored.content.description()
        &&& query.content.lang() == stored.content.lang()
    }
}

/// Whether `query` identifies `stored`: the same identifier and, for the
/// structured kinds, content of that kind with the same description and,
/// where the kind has a language, the same language or in the query the
/// language that stands for any.
pub open spec fn answers(query: FrameView, stored: FrameView) -> bool {
    &&& query.id == stored.id
    &&& is_structured(kind_of_id(query.id)) ==> {
        &&& query.content.kind() == kind_of_id(query.id)
        &&& stored.content.kind() == kind_of_id(query.id)
        &&& query.content.description() == stored.content.description()
        &&& (query.content.lang() == stored.content.lang() || is_wildcard(query))
    }
}

/// What comparing `query` with `candidate` yields: whether the query
/// identifies the candidate, or the error that reports the first of the two
/// that holds content of the wrong kind. Frames under different identifiers
/// are unequal whatever they hold.
pub open spec fn query_equal(query: FrameView, candidate: FrameView) -> Result<
    bool,
    TagErrorView,
> {
    let kind = kind_of_id(query.id);
    if query.id != candidate.id {
        Ok(false)
    } else if !is_structured(kind) {
        Ok(true)
    } else if query.content.kind() != kind {
        Err(mismatch(query))
    } else if candidate.content.kind() != kind {
        Err(mismatch(candidate))
    } else {
        Ok(answers(query, candidate))
    }
}

/// The full name of the slot that `query` names: the identifier, then the
/// description in square brackets and the language in round brackets where
/// the kind has them, as in `TXXX[desc]` and `COMM[desc](eng)`.
pub open spec fn query_name(query: FrameView) -> Seq<char> {
    let kind = kind_of_id(query.id);
    if has_lang(kind) {
        query.id + "["@ + query.content.description() + "]("@ + query.content.lang() + ")"@
    } else if is_structured(kind) {
        query.id + "["@ + query.content.description() + "]"@
    } else {
        query.id
    }
}

/// Whether position `k` holds the first frame of `frames` that `query`
/// identifies.
pub open spec fn is_first_answer(frames: Seq<FrameView>, query: FrameView, k: int) -> bool {
    &&& 0 <= k < frames.len()
    &&& answers(query, frames[k])
    &&& forall|j: int| 0 <= j < k ==> !answers(query, #[trigger] frames[j])
}

/// Whether no frame of `frames` is identified by `query`.
pub open spec fn no_answer(frames: Seq<FrameView>, query: FrameView) -> bool {
    forall|j: int| 0 <= j < frames.len() ==> !answers(query, #[trigger] frames[j])
}

/// The position of the first frame of `frames` that `query` identifies.
pub open spec fn first_answer(frames: Seq<FrameView>, query: FrameView) -> Option<int> {
    if exists|k: int| is_first_answer(frames, query, k) {
        Some(choose|k: int| is_first_answer(frames, query, k))
    } else {
        None
    }
}

/// The first frame of `frames` that `query` identifies.
pub open spec fn answer(frames: Seq<FrameView>, query: FrameView) -> Option<FrameView> {
    match first_answer(frames, query) {
        Some(k) => Some(frames[k]),
        None => None,
    }
}

/// What printing the frame `stored` under the query yields: its payload,
/// unless the query's identifier calls for plain text or a plain link and
/// the frame holds something else.
pub open spec fn printed(query: FrameView, stored: FrameView) -> Result<Seq<char>, TagErrorView> {
    let kind = kind_of_id(query.id);
    if (kind == Kind::Text || kind == Kind::Link) && stored.content.kind() != kind {
        Err(mismatch(stored))
    } else {
        Ok(stored.content.payload())
    }
}

/// What a print of `query` against `frames` yields: the payload of the first
/// frame that the query identifies, or the error that says why there is
/// none to print.
pub open spec fn lookup(frames: Seq<FrameView>, query: FrameView) -> Result<
    Seq<char>,
    TagErrorView,
> {
    if !valid_query(query) {
        Err(mismatch(query))
    } else {
        match answer(frames, query) {
            Some(stored) => printed(query, stored),
            None => Err(TagErrorView::NotFound { query: query_name(query) }),
        }
    }
}

/// The first frame that a query identifies is the only position that meets
/// [`is_first_answer`], and there is none exactly when [`no_answer`] holds.
pub proof fn lemma_first_answer(frames: Seq<FrameView>, query: FrameView)
    ensures
        match first_answer(frames, query) {
            Some(k) => is_first_answer(frames, query, k),
            None => no_answer(frames, query),
        },
        forall|k: int| is_first_answer(frames, query, k) ==> first_answer(frames, query) == Some(k),
{
    if exists|k: int| is_first_answer(frames, query, k) {
        let c = choose|k: int| is_first_answer(frames, query, k);
        assert forall|k: int| is_first_answer(frames, query, k) implies k == c by {
            if k < c {
                assert(!answers(query, frames[k]));
            } else if c < k {
                assert(!answers(query, frames[c]));
            }
        }
    } else {
        lemma_no_first_answer(frames, query, frames.len() as int);
    }
}

/// If no position is a first answer, no frame before `n` answers at all.
proof fn lemma_no_first_answer(frames: Seq<FrameView>, query: FrameView, n: int)
    requires
        0 <= n <= frames.len(),
        !exists|k: int| is_first_answer(frames, query, k),
    ensures
        forall|j: int| 0 <= j < n ==> !answers(query, #[trigger] frames[j]),
    decreases n,
{
    if n > 0 {
        lemma_no_first_answer(frames, query, n - 1);
        if answers(query, frames[n - 1]) {
            assert(is_first_answer(frames, query, n - 1));
        }
    }
}

/// Returns whether `query` identifies `candidate`.
///
/// Fails with `KindMismatch` when both stand under the same identifier of a
/// structured kind and one of them holds content of another kind; the query
/// is looked at first.
pub fn frames_query_equal(query: &Frame, candidate: &Frame) -> (r: Result<bool, TagError>)
    ensures
        match r {
            Ok(b) => query_equal(query@, candidate@) == Ok::<bool, TagErrorView>(b),
            Err(e) => query_equal(query@, candidate@) == Err::<bool, TagErrorView>(e@),
        },
{
    if !str_eq(query.id.as_str(), candidate.id.as_str()) {
        return Ok(false);
    }
    let kind = Kind::of_id(query.id.as_str());
    if !kind.structured() {
        return Ok(true);
    }
    if query.content.kind() != kind {
        return Err(mismatch_error(query));
    }
    if candidate.content.kind() != kind {
        return Err(mismatch_error(candidate));
    }
    if !str_eq(query.content.description(), candidate.content.description()) {
        return Ok(false);
    }
    Ok(
        str_eq(query.content.lang(), candidate.content.lang()) || (kind.has_lang() && str_eq(
            query.content.lang(),
            ANY_LANG,
        )),
    )
}

/// Returns whether `stored` sits in the very slot that `query` names.
pub fn frames_same_slot(query: &Frame, stored: &Frame) -> (b: bool)
    ensures
        b == same_slot(query@, stored@),
{
    if !str_eq(query.id.as_str(), stored.id.as_str()) {
        return false;
    }
    let kind = Kind::of_id(query.id.as_str());
    if !kind.structured() {
        return true;
    }
    query.content.kind() == stored.content.kind() && str_eq(
        query.content.description(),
        stored.content.description(),
    ) && str_eq(query.content.lang(), stored.content.lang())
}

/// Returns whether `query` identifies `stored`; a frame of the wrong kind is
/// identified by nothing and identifies nothing.
pub fn frame_answers(query: &Frame, stored: &Frame) -> (b: bool)
    ensures
        b == answers(query@, stored@),
{
    match frames_query_equal(query, stored) {
        Ok(b) => b,
        Err(_) => false,
    }
}

/// Returns the full name of the slot that `query` names, as in `TXXX[desc]`
/// and `COMM[desc](eng)`.
pub fn query_name_of(query: &Frame) -> (s: String)
    ensures
        s@ == query_name(query@),
{
    let kind = Kind::of_id(query.id.as_str());
    let mut s = query.id.clone();
    if kind.structured() {
        s.append("[");
        s.append(query.content.description());
        if kind.has_lang() {
            s.append("](");
            s.append(query.content.lang());
            s.append(")");
        } else {
            s.append("]");
        }
    }
    s
}

/// Returns the position of the first frame of the tag that `query`
/// identifies.
pub fn find_frame(tag: &Tag, query: &Frame) -> (r: Option<usize>)
    ensures
        match r {
            Some(k) => first_answer(tag@.frames, query@) == Some(k as int),
            None => first_answer(tag@.frames, query@) is None,
        },
{
    let mut i: usize = 0;
    while i < tag.frames.len()
        invariant
            0 <= i <= tag.frames.len(),
            forall|j: int| 0 <= j < i ==> !answers(query@, #[trigger] tag@.frames[j]),
        decreases tag.frames.len() - i,
    {
        if frame_answers(query, &tag.frames[i]) {
            proof {
                assert(tag@.frames[i as int] == tag.frames[i as int]@);
                assert(is_first_answer(tag@.frames, query@, i as int));
                lemma_first_answer(tag@.frames, query@);
            }
            return Some(i);
        }
        assert(tag@.frames[i as int] == tag.frames[i as int]@);
        i += 1;
    }
    proof {
        lemma_first_answer(tag@.frames, query@);
        if first_answer(tag@.frames, query@) is Some {
            let k = first_answer(tag@.frames, query@)->0;
            assert(!answers(query@, tag@.frames[k]));
        }
    }
    None
}

/// Finds the frame that `frame` identifies and returns what printing it
/// puts out: the frame's payload, without anything after it.
///
/// Fails with `NotFound`, naming the query in full, when the tag holds no
/// such frame, and with `KindMismatch` when the query itself, or the frame
/// found under an identifier for plain text or a plain link, holds content
/// of the wrong kind. Stored frames of a structured kind that hold the wrong
/// kind answer no query and are passed over.
pub fn print_tag_frame_query(tag: &Tag, frame: &Frame) -> (r: Result<String, TagError>)
    ensures
        match r {
            Ok(s) => lookup(tag@.frames, frame@) == Ok::<Seq<char>, TagErrorView>(s@),
            Err(e) => lookup(tag@.frames, frame@) == Err::<Seq<char>, TagErrorView>(e@),
        },
{
    let kind = Kind::of_id(frame.id.as_str());
    if kind.structured() && frame.content.kind() != kind {
        return Err(mismatch_error(frame));
    }
    match find_frame(tag, frame) {
        None => Err(TagError::NotFound { query: query_name_of(frame) }),
        Some(k) => {
            let stored = &tag.frames[k];
            if (kind == Kind::Text || kind == Kind::Link) && stored.content.kind() != kind {
                Err(mismatch_error(stored))
            } else {
                Ok(String::from_str(stored.content.payload()))
            }
        },
    }
}

/// Whether `a` and `b` name the same description under the same identifier
/// of a kind with a language, in different languages of which one stands
/// for any: the one case in which one of two frames identifies the other
/// and is not identified by it.
pub open spec fn one_sided_wildcard(a: FrameView, b: FrameView) -> bool {
    &&& a.id == b.id
    &&& has_lang(kind_of_id(a.id))
    &&& a.content.kind() == kind_of_id(a.id)
    &&& b.content.kind() == kind_of_id(a.id)
    &&& a.content.description() == b.content.description()
    &&& a.content.lang() != b.content.lang()
    &&& (a.content.lang() == any_lang() || b.content.lang() == any_lang())
}

/// Comparing two frames is symmetric: `a` identifies `b` exactly when `b`
/// identifies `a`, and the comparison fails one way round exactly when it
/// fails the other way round. This holds of all frames but those of
/// [`one_sided_wildcard`], and of none of those.
pub proof fn law_query_equal_symmetric(a: FrameView, b: FrameView)
    ensures
        query_equal(a, b) is Err <==> query_equal(b, a) is Err,
        !one_sided_wildcard(a, b) ==> answers(a, b) == answers(b, a),
        !one_sided_wildcard(a, b) && query_equal(a, b) is Ok ==> query_equal(a, b) == query_equal(
            b,
            a,
        ),
        one_sided_wildcard(a, b) ==> answers(a, b) != answers(b, a),
{
}

/// A comment or lyrics query in the language that stands for any identifies
/// every frame of its kind under its identifier that has its description,
/// whatever the frame's language.
pub proof fn law_wildcard_matches_any_language(query: FrameView, candidate: FrameView)
    requires
        has_lang(kind_of_id(query.id)),
        query.id == candidate.id,
        query.content.kind() == kind_of_id(query.id),
        candidate.content.kind() == kind_of_id(query.id),
        query.content.lang() == any_lang(),
        query.content.description() == candidate.content.description(),
    ensures
        query_equal(query, candidate) == Ok::<bool, TagErrorView>(true),
{
}

/// A query that is not in the language that stands for any identifies only
/// frames that sit in the slot it names, and where it can be used as a
/// query it identifies all of them.
pub proof fn lemma_answers_is_same_slot(query: FrameView, stored: FrameView)
    requires
        !is_wildcard(query),
    ensures
        answers(query, stored) ==> same_slot(query, stored),
        valid_query(query) ==> answers(query, stored) == same_slot(query, stored),
{
}

/// Sitting in one slot is an equivalence: every frame sits in its own slot,
/// and the relation holds both ways round and carries over.
pub proof fn law_same_slot_equivalence(a: FrameView, b: FrameView, c: FrameView)
    ensures
        same_slot(a, a),
        same_slot(a, b) == same_slot(b, a),
        same_slot(a, b) && same_slot(b, c) ==> same_slot(a, c),
{
}

/// Taking out frames that the query does not identify leaves the first
/// frame that it identifies the same.
pub proof fn lemma_answer_after_filter(
    frames: Seq<FrameView>,
    query: FrameView,
    pred: spec_fn(FrameView) -> bool,
)
    requires
        forall|x: FrameView| answers(query, x) ==> pred(x),
    ensures
        answer(frames.filter(pred), query) == answer(frames, query),
{
    let kept = frames.filter(pred);
    lemma_first_answer(frames, query);
    lemma_first_answer(kept, query);
    lemma_filter_items(frames, pred);
    match first_answer(frames, query) {
        Some(k) => {
            let head = frames.take(k);
            let tail = frames.skip(k + 1);
            assert(frames =~= head + seq![frames[k]] + tail);
            Seq::filter_distributes_over_add(head + seq![frames[k]], tail, pred);
            Seq::filter_distributes_over_add(head, seq![frames[k]], pred);
            lemma_filter_all(seq![frames[k]], pred);
            lemma_filter_items(head, pred);
            let m = head.filter(pred).len() as int;
            assert(kept =~= head.filter(pred) + seq![frames[k]] + tail.filter(pred));
            assert(kept[m] == frames[k]);
            assert forall|j: int| 0 <= j < m implies !answers(query, #[trigger] kept[j]) by {
                assert(kept[j] == head.filter(pred)[j]);
                assert(head.contains(head.filter(pred)[j]));
                let n = choose|n: int| 0 <= n < head.len() && head[n] == head.filter(pred)[j];
                assert(head[n] == frames[n]);
            }
            assert(is_first_answer(kept, query, m));
        },
        None => {
            assert forall|j: int| 0 <= j < kept.len() implies !answers(
                query,
                #[trigger] kept[j],
            ) by {
                assert(frames.contains(kept[j]));
                let n = choose|n: int| 0 <= n < frames.len() && frames[n] == kept[j];
                assert(!answers(query, frames[n]));
            }
            if first_answer(kept, query) is Some {
                let k = first_answer(kept, query)->0;
                assert(!answers(query, kept[k]));
            }
        },
    }
}

/// Putting in a frame that the query does not identify leaves the first
/// frame that it identifies the same.
pub proof fn lemma_answer_after_insert(
    frames: Seq<FrameView>,
    query: FrameView,
    at: int,
    frame: FrameView,
)
    requires
        0 <= at <= frames.len(),
        !answers(query, frame),
    ensures
        answer(frames.insert(at, frame), query) == answer(frames, query),
{
    let after = frames.insert(at, frame);
    lemma_first_answer(frames, query);
    lemma_first_answer(after, query);
    match first_answer(frames, query) {
        Some(k) => {
            let m = if at <= k {
                k + 1
            } else {
                k
            };
            assert(after[m] == frames[k]);
            assert forall|j: int| 0 <= j < m implies !answers(query, #[trigger] after[j]) by {
                if j < at {
                    assert(after[j] == frames[j]);
                } else if j == at {
                } else {
                    assert(after[j] == frames[j - 1]);
                }
            }
            assert(is_first_answer(after, query, m));
        },
        None => {
            if first_answer(after, query) is Some {
                let k = first_answer(after, query)->0;
                if k < at {
                    assert(after[k] == frames[k]);
                } else if k > at {
                    assert(after[k] == frames[k - 1]);
                }
                assert(!answers(query, after[k]));
            }
        },
    }
}

} // verus!
