//! # Edit distance
//!
//! The Levenshtein edit distance between two sequences is the number of
//! individual single-element changes (insert, delete, substitute) necessary
//! to change sequence `a` into `b`.
//!
//! This can be used to order search results, for fuzzy auto-completion, and
//! to find candidates for spelling correction.
//!
//! The distance itself is defined as the spec function
//! [`model::edit_dist`]; the executable entry points are proved to return
//! exactly that value, and the metric laws (identity of indiscernibles,
//! symmetry, the length bounds and the triangle inequality) are proved of
//! it in [`laws`].

use vstd::laws_eq::obeys_concrete_eq;
use vstd::prelude::*;
use vstd::string::StrSliceExecFns;

pub mod laws;
pub mod model;

use crate::laws::lemma_edit_dist_symmetric;
use crate::model::{edit_dist, lemma_edit_dist_step, sub_cost};

verus! {

/// The Unicode code point of `c`.
pub open spec fn code_point(c: char) -> u32 {
    c as u32
}

/// The code points of the characters of `s`, in order.
pub open spec fn code_points(s: Seq<char>) -> Seq<u32> {
    s.map_values(|c: char| code_point(c))
}

/// Distinct characters have distinct code points: a character is its code
/// point.
proof fn lemma_code_point_injective(x: char, y: char)
    ensures
        code_point(x) == code_point(y) <==> x == y,
{
}

/// Replacing each character by its code point changes neither the lengths
/// nor which elements are equal, and therefore leaves the distance as it
/// is.
proof fn lemma_edit_dist_code_points(a: Seq<char>, b: Seq<char>)
    ensures
        edit_dist(code_points(a), code_points(b)) == edit_dist(a, b),
    decreases a.len() + b.len(),
{
    if a.len() > 0 && b.len() > 0 {
        assert(code_points(a).drop_last() =~= code_points(a.drop_last()));
        assert(code_points(b).drop_last() =~= code_points(b.drop_last()));
        lemma_code_point_injective(a.last(), b.last());
        assert(sub_cost(code_point(a.last()), code_point(b.last())) == sub_cost(
            a.last(),
            b.last(),
        ));
        lemma_edit_dist_code_points(a.drop_last(), b);
        lemma_edit_dist_code_points(a, b.drop_last());
        lemma_edit_dist_code_points(a.drop_last(), b.drop_last());
    }
}

/// Decodes `s` into the sequence of its characters' code points.
fn chars_to_points(s: &str) -> (v: Vec<u32>)
    ensures
        v@ == code_points(s@),
{
    let n = s.unicode_len();
    let mut v: Vec<u32> = Vec::new();
    let mut i: usize = 0;
    while i < n
        invariant
            n == s@.len(),
            i <= n,
            v@ == code_points(s@.take(i as int)),
        decreases n - i,
    {
        let c = s.get_char(i);
        v.push(c as u32);
        assert(v@ =~= code_points(s@.take(i + 1)));
        i = i + 1;
    }
    assert(s@.take(n as int) =~= s@);
    v
}

/// The single-row Wagner-Fischer loop, for `b` no longer than `a`.
///
/// The working row `cur` has one entry per non-empty prefix of `b`: after
/// `i` rounds of the outer loop, `cur[t]` is the distance between the
/// first `i` elements of `a` and the first `t + 1` elements of `b`.  The
/// column for the empty prefix of `b` is not stored, since its value in
/// the current row is just `i + 1`; keeping it out also lets the row be
/// allocated even when `b` fills the whole address space.  The scalar
/// `pre` carries the diagonal cell across the inner loop, since updating
/// `cur[j]` overwrites the row-above value that the next step's
/// substitution alternative needs.
fn wagner_fischer<T: PartialEq>(a: &[T], b: &[T]) -> (r: usize)
    requires
        obeys_concrete_eq::<T>(),
        b@.len() <= a@.len(),
    ensures
        r == edit_dist(a@, b@),
{
    let m = a.len();
    let n = b.len();
    if n == 0 {
        return m;
    }
    let mut cur: Vec<usize> = Vec::new();
    let mut k: usize = 0;
    while k < n
        invariant
            k <= n,
            cur@.len() == k,
            forall|t: int| 0 <= t < k ==> cur@[t] == t + 1,
        decreases n - k,
    {
        cur.push(k + 1);
        k = k + 1;
    }
    proof {
        assert forall|t: int| 0 <= t < n implies cur@[t] == edit_dist(
            a@.take(0),
            b@.take(t + 1),
        ) by {
            assert(a@.take(0) =~= Seq::<T>::empty());
            assert(edit_dist(a@.take(0), b@.take(t + 1)) == b@.take(t + 1).len());
        }
    }
    let mut i: usize = 0;
    while i < m
        invariant
            obeys_concrete_eq::<T>(),
            m == a@.len(),
            n == b@.len(),
            1 <= n <= m,
            i <= m,
            cur@.len() == n,
            forall|t: int|
                0 <= t < n ==> cur@[t] == edit_dist(a@.take(i as int), b@.take(t + 1)),
        decreases m - i,
    {
        let mut pre = i;
        proof {
            assert(b@.take(0) =~= Seq::<T>::empty());
            assert(edit_dist(a@.take(i as int), b@.take(0)) == i);
            assert(edit_dist(a@.take(i + 1), b@.take(0)) == i + 1);
        }
        let mut j: usize = 0;
        while j < n
            invariant
                obeys_concrete_eq::<T>(),
                m == a@.len(),
                n == b@.len(),
                1 <= n <= m,
                i < m,
                j <= n,
                cur@.len() == n,
                pre == edit_dist(a@.take(i as int), b@.take(j as int)),
                forall|t: int|
                    0 <= t < j ==> cur@[t] == edit_dist(a@.take(i + 1), b@.take(t + 1)),
                forall|t: int|
                    j <= t < n ==> cur@[t] == edit_dist(a@.take(i as int), b@.take(t + 1)),
            decreases n - j,
        {
            let tmp = cur[j];
            proof {
                reveal(vstd::laws_eq::obeys_concrete_eq);
                lemma_edit_dist_step(a@, b@, i as int, j as int);
                crate::laws::lemma_edit_dist_upper_bound(
                    a@.take(i as int),
                    b@.take(j as int),
                );
                assert(b@.take(0) =~= Seq::<T>::empty());
                assert(edit_dist(a@.take(i + 1), b@.take(0)) == i + 1);
            }
            let left = if j == 0 {
                i + 1
            } else {
                cur[j - 1]
            };
            let same = a[i] == b[j];
            let mut best = if same {
                pre
            } else {
                pre + 1
            };
            if tmp < best {
                best = tmp + 1;
            }
            if left < best {
                best = left + 1;
            }
            cur[j] = best;
            pre = tmp;
            j = j + 1;
        }
        i = i + 1;
    }
    proof {
        assert(a@.take(m as int) =~= a@);
        assert(b@.take(n as int) =~= b@);
    }
    cur[n - 1]
}

/// Returns the edit distance between sequences `a` and `b`.
///
/// The runtime complexity is `O(m*n)`, where `m` and `n` are the
/// sequences' lengths.
///
/// The precondition says that `==` on `T` agrees with logical equality of
/// the values, which is what the distance counts; it holds for the
/// integer primitives, for `bool` and for tuples and `Option`s of such,
/// by the broadcast group `vstd::laws_eq::group_laws_eq`.
pub fn edit_distance_sequences<T: PartialEq>(a: &[T], b: &[T]) -> (r: usize)
    requires
        obeys_concrete_eq::<T>(),
    ensures
        r == edit_dist(a@, b@),
{
    if a.len() < b.len() {
        proof {
            lemma_edit_dist_symmetric(a@, b@);
        }
        wagner_fischer(b, a)
    } else {
        wagner_fischer(a, b)
    }
}

/// Returns the edit distance between strings `a` and `b`.
///
/// The strings are compared character by character (by Unicode scalar
/// values, not by their encoded bytes), so a multi-byte character counts
/// as a single element.  The runtime complexity is `O(m*n)`, where `m` and
/// `n` are the strings' lengths in characters.
pub fn edit_distance(a: &str, b: &str) -> (r: usize)
    ensures
        r == edit_dist(a@, b@),
{
    broadcast use vstd::laws_eq::group_laws_eq;

    let va = chars_to_points(a);
    let vb = chars_to_points(b);
    proof {
        lemma_edit_dist_code_points(a@, b@);
    }
    edit_distance_sequences(va.as_slice(), vb.as_slice())
}

} // verus!
