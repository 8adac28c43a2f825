//! The metric laws of the edit distance.
//!
//! [`edit_dist`] is a metric on sequences: it is zero exactly on equal
//! sequences, symmetric, and obeys the triangle inequality.  It is also
//! bounded below by the difference of the lengths and above by the larger
//! length.  Each law is proved here by induction over the recursive
//! definition in [`crate::model`].

use vstd::prelude::*;

use crate::model::{edit_dist, sub_cost};

verus! {

/// A sequence has distance zero from itself: no edit is needed.
pub proof fn lemma_edit_dist_self<T>(a: Seq<T>)
    ensures
        edit_dist(a, a) == 0,
    decreases a.len(),
{
    if a.len() > 0 {
        lemma_edit_dist_self(a.drop_last());
    }
}

/// The distance is zero exactly when the two sequences are equal; any two
/// sequences that differ in a position or in length have a positive
/// distance.
pub proof fn lemma_edit_dist_zero_iff_eq<T>(a: Seq<T>, b: Seq<T>)
    ensures
        edit_dist(a, b) == 0 <==> a == b,
    decreases a.len() + b.len(),
{
    if a == b {
        lemma_edit_dist_self(a);
    }
    if edit_dist(a, b) == 0 {
        if a.len() > 0 && b.len() > 0 {
            assert(edit_dist(a.drop_last(), b.drop_last()) + sub_cost(a.last(), b.last())
                == 0);
            lemma_edit_dist_zero_iff_eq(a.drop_last(), b.drop_last());
            assert(a =~= a.drop_last().push(a.last()));
            assert(b =~= b.drop_last().push(b.last()));
            assert(a =~= b);
        } else {
            assert(a =~= b);
        }
    }
}

/// The distance is symmetric: deletions from `a` become insertions into
/// `b` and the other way round.
pub proof fn lemma_edit_dist_symmetric<T>(a: Seq<T>, b: Seq<T>)
    ensures
        edit_dist(a, b) == edit_dist(b, a),
    decreases a.len() + b.len(),
{
    if a.len() > 0 && b.len() > 0 {
        lemma_edit_dist_symmetric(a.drop_last(), b);
        lemma_edit_dist_symmetric(a, b.drop_last());
        lemma_edit_dist_symmetric(a.drop_last(), b.drop_last());
    }
}

/// The distance is at least the difference of the lengths: every edit
/// changes the length by at most one.
pub proof fn lemma_edit_dist_lower_bound<T>(a: Seq<T>, b: Seq<T>)
    ensures
        edit_dist(a, b) >= vstd::math::abs(a.len() - b.len()),
    decreases a.len() + b.len(),
{
    if a.len() > 0 && b.len() > 0 {
        lemma_edit_dist_lower_bound(a.drop_last(), b);
        lemma_edit_dist_lower_bound(a, b.drop_last());
        lemma_edit_dist_lower_bound(a.drop_last(), b.drop_last());
    }
}

/// The distance is at most the length of the longer sequence: substituting
/// position by position and deleting or inserting the rest always works.
pub proof fn lemma_edit_dist_upper_bound<T>(a: Seq<T>, b: Seq<T>)
    ensures
        edit_dist(a, b) <= vstd::math::max(a.len() as int, b.len() as int),
    decreases a.len() + b.len(),
{
    if a.len() > 0 && b.len() > 0 {
        lemma_edit_dist_upper_bound(a.drop_last(), b.drop_last());
    }
}

/// Dropping the last element of `a` changes the distance by at most one
/// edit: the deletion alternative of the recurrence.
proof fn lemma_edit_dist_drop_a<T>(a: Seq<T>, b: Seq<T>)
    requires
        a.len() > 0,
    ensures
        edit_dist(a, b) <= edit_dist(a.drop_last(), b) + 1,
{
}

/// Dropping the last element of `b` changes the distance by at most one
/// edit: the insertion alternative of the recurrence.
proof fn lemma_edit_dist_drop_b<T>(a: Seq<T>, b: Seq<T>)
    requires
        b.len() > 0,
    ensures
        edit_dist(a, b) <= edit_dist(a, b.drop_last()) + 1,
{
}

/// Dropping the last element of both sequences changes the distance by at
/// most the substitution cost of those elements.
proof fn lemma_edit_dist_drop_both<T>(a: Seq<T>, b: Seq<T>)
    requires
        a.len() > 0,
        b.len() > 0,
    ensures
        edit_dist(a, b) <= edit_dist(a.drop_last(), b.drop_last()) + sub_cost(
            a.last(),
            b.last(),
        ),
{
}

/// The triangle inequality: editing `a` into `c` and then `c` into `b`
/// is one way of editing `a` into `b`, so the direct distance can be no
/// larger than the sum over any way point `c`.
pub proof fn lemma_edit_dist_triangle<T>(a: Seq<T>, b: Seq<T>, c: Seq<T>)
    ensures
        edit_dist(a, b) <= edit_dist(a, c) + edit_dist(c, b),
    decreases a.len() + b.len() + c.len(),
{
    if c.len() == 0 {
        lemma_edit_dist_upper_bound(a, b);
    } else if a.len() == 0 {
        lemma_edit_dist_lower_bound(c, b);
    } else if b.len() == 0 {
        lemma_edit_dist_lower_bound(a, c);
    } else {
        let dac = edit_dist(a, c);
        let dcb = edit_dist(c, b);
        if dac == edit_dist(a.drop_last(), c) + 1 {
            lemma_edit_dist_triangle(a.drop_last(), b, c);
            lemma_edit_dist_drop_a(a, b);
        } else if dcb == edit_dist(c, b.drop_last()) + 1 {
            lemma_edit_dist_triangle(a, b.drop_last(), c);
            lemma_edit_dist_drop_b(a, b);
        } else if dac == edit_dist(a, c.drop_last()) + 1 && dcb == edit_dist(
            c.drop_last(),
            b,
        ) + 1 {
            lemma_edit_dist_triangle(a, b, c.drop_last());
        } else if dac == edit_dist(a, c.drop_last()) + 1 {
            lemma_edit_dist_triangle(a, b.drop_last(), c.drop_last());
            lemma_edit_dist_drop_b(a, b);
        } else if dcb == edit_dist(c.drop_last(), b) + 1 {
            lemma_edit_dist_triangle(a.drop_last(), b, c.drop_last());
            lemma_edit_dist_drop_a(a, b);
        } else {
            lemma_edit_dist_triangle(a.drop_last(), b.drop_last(), c.drop_last());
            lemma_edit_dist_drop_both(a, b);
        }
    }
}

} // verus!
