//! Facts about filtering a sequence, stated by positions.

use vstd::prelude::*;

verus! {

/// Where no element passes the test, nothing is kept.
pub proof fn lemma_filter_none<A>(s: Seq<A>, pred: spec_fn(A) -> bool)
    requires
        forall|i: int| 0 <= i < s.len() ==> !pred(#[trigger] s[i]),
    ensures
        s.filter(pred) == Seq::<A>::empty(),
    decreases s.len(),
{
    reveal(Seq::filter);
    if s.len() > 0 {
        let front = s.drop_last();
        assert forall|i: int| 0 <= i < front.len() implies !pred(#[trigger] front[i]) by {
            assert(front[i] == s[i]);
        }
        lemma_filter_none(front, pred);
        assert(!pred(s[s.len() - 1]));
    }
}

/// Where exactly one position passes the test, exactly its element is kept.
pub proof fn lemma_filter_one<A>(s: Seq<A>, pred: spec_fn(A) -> bool, at: int)
    requires
        0 <= at < s.len(),
        pred(s[at]),
        forall|i: int| 0 <= i < s.len() && i != at ==> !pred(#[trigger] s[i]),
    ensures
        s.filter(pred) == seq![s[at]],
{
    let front = s.take(at);
    let back = s.skip(at + 1);
    let mid = Seq::<A>::empty().push(s[at]);
    assert(s =~= front + mid + back);
    assert forall|i: int| 0 <= i < front.len() implies !pred(#[trigger] front[i]) by {
        assert(front[i] == s[i]);
    }
    assert forall|i: int| 0 <= i < back.len() implies !pred(#[trigger] back[i]) by {
        assert(back[i] == s[i + at + 1]);
    }
    lemma_filter_none(front, pred);
    lemma_filter_none(back, pred);
    lemma_filter_none(Seq::<A>::empty(), pred);
    Seq::<A>::empty().lemma_filter_push(s[at], pred);
    Seq::filter_distributes_over_add(front, mid, pred);
    Seq::filter_distributes_over_add(front + mid, back, pred);
    assert(s.filter(pred) =~= seq![s[at]]);
}

/// Where two different positions pass the test, at least two elements are kept.
pub proof fn lemma_filter_two<A>(s: Seq<A>, pred: spec_fn(A) -> bool, a: int, b: int)
    requires
        0 <= a < b < s.len(),
        pred(s[a]),
        pred(s[b]),
    ensures
        s.filter(pred).len() >= 2,
{
    let front = s.take(b);
    let back = s.skip(b);
    assert(s =~= front + back);
    Seq::filter_distributes_over_add(front, back, pred);
    assert(front[a] == s[a]);
    assert(back[0] == s[b]);
    front.lemma_filter_contains(pred, a);
    back.lemma_filter_contains(pred, 0);
    assert(front.filter(pred).len() >= 1);
    assert(back.filter(pred).len() >= 1);
}

/// Whatever is kept passes the test and comes from the sequence.
pub proof fn lemma_filter_sound<A>(s: Seq<A>, pred: spec_fn(A) -> bool, k: int)
    requires
        0 <= k < s.filter(pred).len(),
    ensures
        pred(s.filter(pred)[k]),
        exists|i: int| 0 <= i < s.len() && s[i] == s.filter(pred)[k],
{
    s.lemma_filter_pred(pred, k);
    let kept = s.filter(pred);
    assert(kept.contains(kept[k]));
    s.lemma_filter_contains_rev(pred, kept[k]);
}

/// Where exactly one element is kept, exactly one position passes the test,
/// and the element kept is the one that stands there.
pub proof fn lemma_filter_single<A>(s: Seq<A>, pred: spec_fn(A) -> bool) -> (at: int)
    requires
        s.filter(pred).len() == 1,
    ensures
        0 <= at < s.len(),
        pred(s[at]),
        forall|i: int| 0 <= i < s.len() && i != at ==> !pred(#[trigger] s[i]),
        s.filter(pred)[0] == s[at],
{
    lemma_filter_sound(s, pred, 0);
    let at = choose|i: int| 0 <= i < s.len() && s[i] == s.filter(pred)[0];
    assert forall|i: int| 0 <= i < s.len() && i != at implies !pred(#[trigger] s[i]) by {
        if pred(s[i]) {
            if i < at {
                lemma_filter_two(s, pred, i, at);
            } else {
                lemma_filter_two(s, pred, at, i);
            }
        }
    }
    at
}

} // verus!
