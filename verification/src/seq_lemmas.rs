//! Facts about filtered sequences that the proofs on tags rest on.

use vstd::prelude::*;

verus! {

/// Filtering the first `j + 1` items keeps what filtering the first `j`
/// keeps, and after it the item at `j` where that one passes.
pub proof fn lemma_filter_take_step<A>(s: Seq<A>, pred: spec_fn(A) -> bool, j: int)
    requires
        0 <= j < s.len(),
    ensures
        s.take(j + 1).filter(pred) == if pred(s[j]) {
            s.take(j).filter(pred).push(s[j])
        } else {
            s.take(j).filter(pred)
        },
{
    assert(s.take(j + 1) =~= s.take(j).push(s[j]));
    s.take(j).lemma_filter_push(s[j], pred);
}

/// Filtering changes nothing where every item passes.
pub proof fn lemma_filter_all<A>(s: Seq<A>, pred: spec_fn(A) -> bool)
    requires
        forall|i: int| 0 <= i < s.len() ==> pred(#[trigger] s[i]),
    ensures
        s.filter(pred) == s,
    decreases s.len(),
{
    reveal(Seq::filter);
    if s.len() > 0 {
        lemma_filter_all(s.drop_last(), pred);
    }
}

/// Filtering leaves nothing where no item passes.
pub proof fn lemma_filter_none<A>(s: Seq<A>, pred: spec_fn(A) -> bool)
    requires
        forall|i: int| 0 <= i < s.len() ==> !pred(#[trigger] s[i]),
    ensures
        s.filter(pred) == Seq::<A>::empty(),
    decreases s.len(),
{
    reveal(Seq::filter);
    if s.len() > 0 {
        lemma_filter_none(s.drop_last(), pred);
    }
}

/// Where the first `k` items all pass, filtering keeps them as they stand,
/// followed by what passes of the rest.
pub proof fn lemma_filter_keeps_prefix<A>(s: Seq<A>, pred: spec_fn(A) -> bool, k: int)
    requires
        0 <= k <= s.len(),
        forall|i: int| 0 <= i < k ==> pred(#[trigger] s[i]),
    ensures
        s.filter(pred) == s.take(k) + s.skip(k).filter(pred),
        s.filter(pred).len() >= k,
{
    assert(s =~= s.take(k) + s.skip(k));
    Seq::filter_distributes_over_add(s.take(k), s.skip(k), pred);
    lemma_filter_all(s.take(k), pred);
}

/// Every item of a filtered sequence passes and stems from the sequence.
pub proof fn lemma_filter_items<A>(s: Seq<A>, pred: spec_fn(A) -> bool)
    ensures
        forall|i: int|
            0 <= i < s.filter(pred).len() ==> pred(#[trigger] s.filter(pred)[i]) && s.contains(
                s.filter(pred)[i],
            ),
    decreases s.len(),
{
    reveal(Seq::filter);
    if s.len() > 0 {
        lemma_filter_items(s.drop_last(), pred);
        let rest = s.drop_last().filter(pred);
        assert forall|i: int| 0 <= i < s.filter(pred).len() implies pred(
            #[trigger] s.filter(pred)[i],
        ) && s.contains(s.filter(pred)[i]) by {
            if i < rest.len() {
                assert(s.drop_last().contains(rest[i]));
                let j = choose|j: int| 0 <= j < s.drop_last().len() && s.drop_last()[j] == rest[i];
                assert(s[j] == rest[i]);
            } else {
                assert(s.filter(pred)[i] == s.last());
                assert(s[s.len() - 1] == s.last());
            }
        }
    }
}

/// Whether no item of `s` clashes with an item that stands behind it.
pub open spec fn no_clash<A>(s: Seq<A>, clash: spec_fn(A, A) -> bool) -> bool {
    forall|i: int, j: int| 0 <= i < j < s.len() ==> !clash(s[i], s[j])
}

/// Filtering brings about no clash.
pub proof fn lemma_no_clash_filter<A>(
    s: Seq<A>,
    clash: spec_fn(A, A) -> bool,
    pred: spec_fn(A) -> bool,
)
    requires
        no_clash(s, clash),
    ensures
        no_clash(s.filter(pred), clash),
    decreases s.len(),
{
    reveal(Seq::filter);
    if s.len() > 0 {
        let front = s.drop_last();
        assert forall|i: int, j: int| 0 <= i < j < front.len() implies !clash(
            front[i],
            front[j],
        ) by {
            assert(!clash(s[i], s[j]));
        }
        lemma_no_clash_filter(front, clash, pred);
        lemma_filter_items(front, pred);
        let kept = front.filter(pred);
        assert forall|i: int, j: int| 0 <= i < j < s.filter(pred).len() implies !clash(
            s.filter(pred)[i],
            s.filter(pred)[j],
        ) by {
            if j < kept.len() {
                assert(!clash(kept[i], kept[j]));
            } else {
                assert(front.contains(kept[i]));
                let n = choose|n: int| 0 <= n < front.len() && front[n] == kept[i];
                assert(!clash(s[n], s[s.len() - 1]));
            }
        }
    }
}

/// Putting in an item that clashes with none of the others, either way
/// round, brings about no clash.
pub proof fn lemma_no_clash_insert<A>(s: Seq<A>, clash: spec_fn(A, A) -> bool, k: int, item: A)
    requires
        no_clash(s, clash),
        0 <= k <= s.len(),
        forall|i: int| 0 <= i < s.len() ==> !clash(#[trigger] s[i], item) && !clash(item, s[i]),
    ensures
        no_clash(s.insert(k, item), clash),
{
    let t = s.insert(k, item);
    assert forall|i: int, j: int| 0 <= i < j < t.len() implies !clash(t[i], t[j]) by {
        if i == k {
            assert(t[j] == s[j - 1]);
        } else if j == k {
            assert(t[i] == s[i]);
        } else {
            let a = if i < k {
                i
            } else {
                i - 1
            };
            let b = if j < k {
                j
            } else {
                j - 1
            };
            assert(t[i] == s[a] && t[j] == s[b]);
            assert(!clash(s[a], s[b]));
        }
    }
}

/// Where every item passes, filtering takes out again an item that does
/// not pass and was put in among them.
pub proof fn lemma_filter_insert<A>(s: Seq<A>, pred: spec_fn(A) -> bool, k: int, item: A)
    requires
        0 <= k <= s.len(),
        !pred(item),
        forall|i: int| 0 <= i < s.len() ==> pred(#[trigger] s[i]),
    ensures
        s.insert(k, item).filter(pred) == s,
    decreases s.len() - k,
{
    if k == s.len() {
        assert(s.insert(k, item) =~= s.push(item));
        s.lemma_filter_push(item, pred);
        lemma_filter_all(s, pred);
    } else {
        let front = s.drop_last();
        assert(s.insert(k, item) =~= front.insert(k, item).push(s.last()));
        front.insert(k, item).lemma_filter_push(s.last(), pred);
        assert forall|i: int| 0 <= i < front.len() implies pred(#[trigger] front[i]) by {
            assert(front[i] == s[i]);
        }
        lemma_filter_insert(front, pred, k, item);
        assert(front.push(s.last()) =~= s);
    }
}

} // verus!
