//! Sums over sequences of integers, and how they move when one entry is
//! appended, replaced or taken out.

use vstd::prelude::*;

verus! {

/// The sum of all entries.
pub open spec fn total(s: Seq<int>) -> int
    decreases s.len(),
{
    if s.len() == 0 {
        0
    } else {
        total(s.drop_last()) + s.last()
    }
}

/// Appending an entry adds it to the sum.
pub proof fn lemma_total_push(s: Seq<int>, x: int)
    ensures
        total(s.push(x)) == total(s) + x,
{
    assert(s.push(x).drop_last() =~= s);
}

/// Replacing an entry moves the sum by the difference.
pub proof fn lemma_total_update(s: Seq<int>, i: int, x: int)
    requires
        0 <= i < s.len(),
    ensures
        total(s.update(i, x)) == total(s) - s[i] + x,
    decreases s.len(),
{
    if i == s.len() - 1 {
        assert(s.update(i, x).drop_last() =~= s.drop_last());
    } else {
        assert(s.update(i, x).drop_last() =~= s.drop_last().update(i, x));
        lemma_total_update(s.drop_last(), i, x);
    }
}

/// Taking an entry out lowers the sum by it.
pub proof fn lemma_total_remove(s: Seq<int>, i: int)
    requires
        0 <= i < s.len(),
    ensures
        total(s.remove(i)) == total(s) - s[i],
    decreases s.len(),
{
    if i == s.len() - 1 {
        assert(s.remove(i) =~= s.drop_last());
    } else {
        assert(s.remove(i).drop_last() =~= s.drop_last().remove(i));
        assert(s.remove(i).last() == s.last());
        lemma_total_remove(s.drop_last(), i);
    }
}

/// Where no entry is negative, no entry exceeds the sum.
pub proof fn lemma_total_bounds(s: Seq<int>, i: int)
    requires
        0 <= i < s.len(),
        forall|j: int| 0 <= j < s.len() ==> s[j] >= 0,
    ensures
        0 <= s[i] <= total(s),
    decreases s.len(),
{
    lemma_total_nonnegative(s.drop_last());
    if i < s.len() - 1 {
        lemma_total_bounds(s.drop_last(), i);
    }
}

/// Where no entry is negative, neither is the sum.
pub proof fn lemma_total_nonnegative(s: Seq<int>)
    requires
        forall|j: int| 0 <= j < s.len() ==> s[j] >= 0,
    ensures
        total(s) >= 0,
    decreases s.len(),
{
    if s.len() > 0 {
        lemma_total_nonnegative(s.drop_last());
    }
}

/// Where every entry is zero, so is the sum.
pub proof fn lemma_total_zero(s: Seq<int>)
    requires
        forall|j: int| 0 <= j < s.len() ==> s[j] == 0,
    ensures
        total(s) == 0,
    decreases s.len(),
{
    if s.len() > 0 {
        lemma_total_zero(s.drop_last());
    }
}

} // verus!
