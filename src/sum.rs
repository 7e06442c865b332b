use vstd::prelude::*;

verus! {

/// The sum of `f` over the elements of `s`.
pub open spec fn sum_by<T>(s: Seq<T>, f: spec_fn(T) -> nat) -> nat
    decreases s.len(),
{
    if s.len() == 0 {
        0
    } else {
        sum_by(s.drop_last(), f) + f(s.last())
    }
}

pub proof fn lemma_sum_push<T>(s: Seq<T>, f: spec_fn(T) -> nat, v: T)
    ensures
        sum_by(s.push(v), f) == sum_by(s, f) + f(v),
{
    assert(s.push(v).drop_last() =~= s);
}

pub proof fn lemma_sum_update<T>(s: Seq<T>, f: spec_fn(T) -> nat, i: int, v: T)
    requires
        0 <= i < s.len(),
    ensures
        sum_by(s.update(i, v), f) == sum_by(s, f) - f(s[i]) + f(v),
    decreases s.len(),
{
    if i == s.len() - 1 {
        assert(s.update(i, v).drop_last() =~= s.drop_last());
    } else {
        lemma_sum_update(s.drop_last(), f, i, v);
        assert(s.update(i, v).drop_last() =~= s.drop_last().update(i, v));
    }
}

pub proof fn lemma_element_le_sum<T>(s: Seq<T>, f: spec_fn(T) -> nat, i: int)
    requires
        0 <= i < s.len(),
    ensures
        f(s[i]) <= sum_by(s, f),
    decreases s.len(),
{
    if i < s.len() - 1 {
        lemma_element_le_sum(s.drop_last(), f, i);
    }
}

pub proof fn lemma_two_elements_le_sum<T>(s: Seq<T>, f: spec_fn(T) -> nat, i: int, j: int)
    requires
        0 <= i < s.len(),
        0 <= j < s.len(),
        i != j,
    ensures
        f(s[i]) + f(s[j]) <= sum_by(s, f),
    decreases s.len(),
{
    let last = s.len() - 1;
    if i == last {
        lemma_element_le_sum(s.drop_last(), f, j);
    } else if j == last {
        lemma_element_le_sum(s.drop_last(), f, i);
    } else {
        lemma_two_elements_le_sum(s.drop_last(), f, i, j);
    }
}

} // verus!
