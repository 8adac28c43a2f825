//! The mathematical model of the Levenshtein edit distance.
//!
//! The distance is defined as a recursive spec function over `Seq`, by
//! recursion on the last element of each sequence.  The executable code and
//! all the metric laws are stated and proved against this one definition.

use vstd::prelude::*;

verus! {

/// The minimum of three natural numbers.
pub open spec fn min3(x: nat, y: nat, z: nat) -> nat {
    if x <= y && x <= z {
        x
    } else if y <= z {
        y
    } else {
        z
    }
}

/// The cost of substituting `x` by `y`: zero when they are equal, one
/// otherwise.
pub open spec fn sub_cost<T>(x: T, y: T) -> nat {
    if x == y {
        0
    } else {
        1
    }
}

/// The Levenshtein edit distance between `a` and `b`: the least number of
/// single-element insertions, deletions and substitutions that transform
/// `a` into `b`.
///
/// Transforming the empty sequence into `b` takes `b.len()` insertions, and
/// `a` into the empty sequence takes `a.len()` deletions.  Otherwise the
/// last element of `a` is either deleted, or matched against an inserted
/// last element of `b`, or substituted by it, whichever is cheapest.
pub open spec fn edit_dist<T>(a: Seq<T>, b: Seq<T>) -> nat
    decreases a.len() + b.len(),
{
    if a.len() == 0 {
        b.len()
    } else if b.len() == 0 {
        a.len()
    } else {
        min3(
            edit_dist(a.drop_last(), b) + 1,
            edit_dist(a, b.drop_last()) + 1,
            edit_dist(a.drop_last(), b.drop_last()) + sub_cost(a.last(), b.last()),
        )
    }
}

/// The distance between prefixes obeys the Wagner-Fischer recurrence: the
/// cell for the prefixes of lengths `i + 1` and `j + 1` is the minimum of
/// the deletion, insertion and substitution alternatives over the three
/// neighbouring cells.
pub proof fn lemma_edit_dist_step<T>(a: Seq<T>, b: Seq<T>, i: int, j: int)
    requires
        0 <= i < a.len(),
        0 <= j < b.len(),
    ensures
        edit_dist(a.take(i + 1), b.take(j + 1)) == min3(
            edit_dist(a.take(i), b.take(j + 1)) + 1,
            edit_dist(a.take(i + 1), b.take(j)) + 1,
            edit_dist(a.take(i), b.take(j)) + sub_cost(a[i], b[j]),
        ),
{
    assert(a.take(i + 1).drop_last() =~= a.take(i));
    assert(b.take(j + 1).drop_last() =~= b.take(j));
    assert(a.take(i + 1).last() == a[i]);
    assert(b.take(j + 1).last() == b[j]);
}

} // verus!
