use vstd::prelude::*;

verus! {

/// The sum of `f` over the items of `s`.
pub open spec fn sum_of<T>(s: Seq<T>, f: spec_fn(T) -> int) -> int
    decreases s.len(),
{
    if s.len() == 0 {
        0
    } else {
        sum_of(s.drop_last(), f) + f(s.last())
    }
}

pub proof fn lemma_sum_push<T>(s: Seq<T>, x: T, f: spec_fn(T) -> int)
    ensures
        sum_of(s.push(x), f) == sum_of(s, f) + f(x),
{
    assert(s.push(x).drop_last() =~= s);
}

pub proof fn lemma_sum_update<T>(s: Seq<T>, i: int, x: T, f: spec_fn(T) -> int)
    requires
        0 <= i < s.len(),
    ensures
        sum_of(s.update(i, x), f) == sum_of(s, f) - f(s[i]) + f(x),
    decreases s.len(),
{
    if i == s.len() - 1 {
        assert(s.update(i, x).drop_last() =~= s.drop_last());
    } else {
        assert(s.update(i, x).drop_last() =~= s.drop_last().update(i, x));
        lemma_sum_update(s.drop_last(), i, x, f);
    }
}

/// With no negative terms, the sum is at least each term, and at least zero.
pub proof fn lemma_sum_bounds<T>(s: Seq<T>, f: spec_fn(T) -> int)
    requires
        forall|k: int| 0 <= k < s.len() ==> f(#[trigger] s[k]) >= 0,
    ensures
        sum_of(s, f) >= 0,
        forall|k: int| 0 <= k < s.len() ==> sum_of(s, f) >= f(#[trigger] s[k]),
    decreases s.len(),
{
    if s.len() > 0 {
        let t = s.drop_last();
        assert forall|k: int| 0 <= k < t.len() implies f(#[trigger] t[k]) >= 0 by {
            assert(t[k] == s[k]);
        }
        lemma_sum_bounds(t, f);
        assert forall|k: int| 0 <= k < s.len() implies sum_of(s, f) >= f(#[trigger] s[k]) by {
            if k < s.len() - 1 {
                assert(t[k] == s[k]);
            }
        }
    }
}

} // verus!
