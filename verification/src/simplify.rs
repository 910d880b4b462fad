//! Ramer-Douglas-Peucker line simplification.
//!
//! The simplifier works on point indices. How far a point lies from a
//! chord is measured by the caller, who supplies a deviation function
//! returning an order-preserving integer key: larger keys mean larger
//! deviations, and the tolerance is given as a key on the same scale.
//! (A caller measuring in floating point can use the IEEE bit pattern
//! of the non-negative distance, whose unsigned order is the numeric
//! order.) Everything else — the scan for the farthest point with its
//! first-wins tie-break, the threshold test, the recursive split and
//! the junction de-duplication — is verified here.

use vstd::prelude::*;

verus! {

/// The entries of the sequence grow from left to right.
pub open spec fn strictly_increasing(s: Seq<usize>) -> bool {
    forall|a: int, b: int| 0 <= a < b < s.len() ==> s[a] < s[b]
}

/// Index and value of the greatest deviation key, scanning left to
/// right: a strictly greater key replaces the current maximum, so ties
/// keep the first maximum found.
pub fn max_deviation(keys: &Vec<u64>) -> (r: (usize, u64))
    requires
        keys.len() >= 1,
    ensures
        r.0 < keys.len(),
        r.1 == keys[r.0 as int],
        forall|j: int| 0 <= j < keys.len() ==> #[trigger] keys[j] <= r.1,
        forall|j: int| 0 <= j < r.0 ==> #[trigger] keys[j] < r.1,
{
    let mut best: usize = 0;
    let mut j: usize = 1;
    while j < keys.len()
        invariant
            best < j <= keys.len(),
            forall|k: int| 0 <= k < j ==> #[trigger] keys[k] <= keys[best as int],
            forall|k: int| 0 <= k < best ==> #[trigger] keys[k] < keys[best as int],
        decreases keys.len() - j,
    {
        if keys[j] > keys[best] {
            best = j;
        }
        j = j + 1;
    }
    (best, keys[best])
}

/// The deviation function measured every interior point of the chord
/// `(s, e)` and returned the keys `ks`, none above the tolerance.
pub open spec fn measured_within<F: Fn(usize, usize, usize) -> u64>(
    deviation: F,
    tolerance_key: u64,
    s: usize,
    e: usize,
    ks: Seq<u64>,
) -> bool {
    &&& ks.len() == e - s - 1
    &&& forall|p: int|
        0 <= p < ks.len() ==> call_ensures(
            deviation,
            (((s + 1) as int + p) as usize, s, e),
            #[trigger] ks[p],
        )
    &&& forall|p: int| 0 <= p < ks.len() ==> #[trigger] ks[p] <= tolerance_key
}

/// Some run of the deviation function over the interior points of the
/// chord `(s, e)` came back entirely within the tolerance.
pub open spec fn chord_within<F: Fn(usize, usize, usize) -> u64>(
    deviation: F,
    tolerance_key: u64,
    s: usize,
    e: usize,
) -> bool {
    exists|ks: Seq<u64>| #[trigger] measured_within(deviation, tolerance_key, s, e, ks)
}

/// Simplify the index range `[s, e]`: keep its endpoints and, where
/// some interior point deviates from the chord by more than the
/// tolerance, split at the farthest such point (first wins on ties)
/// and recurse, sharing the junction index once.
///
/// Two kept indices are only ever left adjacent in the result when the
/// points dropped between them all measured within the tolerance of
/// the chord that joins them.
fn rdp_range<F: Fn(usize, usize, usize) -> u64>(
    s: usize,
    e: usize,
    tolerance_key: u64,
    deviation: &F,
) -> (r: Vec<usize>)
    requires
        s < e,
        forall|i: usize, a: usize, b: usize| call_requires(*deviation, (i, a, b)),
    ensures
        r.len() >= 2,
        e - s < 2 ==> r.len() == 2,
        r[0] == s,
        r[r.len() - 1] == e,
        strictly_increasing(r@),
        forall|j: int|
            0 <= j < r.len() - 1 && r[j + 1] != r[j] + 1 ==> chord_within(
                *deviation,
                tolerance_key,
                #[trigger] r[j],
                r[j + 1],
            ),
    decreases e - s,
{
    if e - s < 2 {
        let mut v: Vec<usize> = Vec::new();
        v.push(s);
        v.push(e);
        return v;
    }

    // Measure every interior point's deviation from the chord, then
    // find the farthest one, ties going to the first.
    let mut keys: Vec<u64> = Vec::new();
    let mut i: usize = s + 1;
    while i < e
        invariant
            s + 1 <= i <= e,
            keys.len() == i - s - 1,
            forall|p: usize, a: usize, b: usize| call_requires(*deviation, (p, a, b)),
            forall|p: int|
                0 <= p < keys.len() ==> call_ensures(
                    *deviation,
                    (((s + 1) as int + p) as usize, s, e),
                    #[trigger] keys[p],
                ),
        decreases e - i,
    {
        keys.push(deviation(i, s, e));
        i = i + 1;
    }
    let (off, max_key) = max_deviation(&keys);
    let max_idx = s + 1 + off;

    if max_key > tolerance_key {
        let mut left = rdp_range(s, max_idx, tolerance_key, deviation);
        let mut right = rdp_range(max_idx, e, tolerance_key, deviation);
        let ghost left_full = left@;
        let ghost right_full = right@;
        left.pop();
        left.append(&mut right);
        proof {
            assert(left@ =~= left_full.drop_last() + right_full);
            assert forall|a: int, b: int| 0 <= a < b < left@.len() implies left@[a] < left@[b] by {
                let cut = left_full.len() - 1;
                if b < cut {
                    assert(left_full[a] < left_full[b]);
                } else if a >= cut {
                    assert(right_full[a - cut] < right_full[b - cut]);
                } else {
                    assert(left_full[a] < left_full[cut]);
                    if b > cut {
                        assert(right_full[0] < right_full[b - cut]);
                    }
                }
            }
            assert forall|j: int|
                0 <= j < left@.len() - 1 && left@[j + 1] != (#[trigger] left@[j]) + 1 implies chord_within(
                *deviation,
                tolerance_key,
                left@[j],
                left@[j + 1],
            ) by {
                let cut = left_full.len() - 1;
                if j + 1 < cut {
                    assert(left@[j] == left_full[j]);
                    assert(left@[j + 1] == left_full[j + 1]);
                    assert(chord_within(*deviation, tolerance_key, left_full[j], left_full[j + 1]));
                } else if j + 1 == cut {
                    assert(left@[j] == left_full[j]);
                    assert(left@[j + 1] == right_full[0]);
                    assert(left_full[cut] == right_full[0]);
                    assert(chord_within(*deviation, tolerance_key, left_full[j], left_full[j + 1]));
                } else {
                    assert(left@[j] == right_full[j - cut]);
                    assert(left@[j + 1] == right_full[j - cut + 1]);
                    assert(chord_within(
                        *deviation,
                        tolerance_key,
                        right_full[j - cut],
                        right_full[j - cut + 1],
                    ));
                }
            }
        }
        left
    } else {
        proof {
            assert(measured_within(*deviation, tolerance_key, s, e, keys@));
            assert(chord_within(*deviation, tolerance_key, s, e));
        }
        let mut v: Vec<usize> = Vec::new();
        v.push(s);
        v.push(e);
        v
    }
}

/// Simplify a path of `n` points, returning the indices of the kept
/// points in order. A path of at most two points is kept as it is;
/// otherwise the endpoints always survive and the kept indices form a
/// strictly increasing subsequence of `0..n`.
///
/// Points are only ever dropped between two kept indices when every
/// one of them, as measured by the deviation function against the
/// chord joining the two kept points, came back within the tolerance.
pub fn rdp_simplify<F: Fn(usize, usize, usize) -> u64>(
    n: usize,
    tolerance_key: u64,
    deviation: &F,
) -> (r: Vec<usize>)
    requires
        forall|i: usize, a: usize, b: usize| call_requires(*deviation, (i, a, b)),
    ensures
        strictly_increasing(r@),
        forall|j: int| 0 <= j < r.len() ==> r[j] < n,
        n <= 2 ==> r.len() == n,
        n >= 1 ==> r.len() >= 2 || n == 1,
        n >= 1 ==> r[0] == 0,
        n >= 1 ==> r[r.len() - 1] == n - 1,
        forall|j: int|
            0 <= j < r.len() - 1 && r[j + 1] != r[j] + 1 ==> chord_within(
                *deviation,
                tolerance_key,
                #[trigger] r[j],
                r[j + 1],
            ),
{
    if n == 0 {
        Vec::new()
    } else if n == 1 {
        let mut v: Vec<usize> = Vec::new();
        v.push(0);
        v
    } else {
        let r = rdp_range(0, n - 1, tolerance_key, deviation);
        proof {
            assert forall|j: int| 0 <= j < r.len() implies r[j] < n by {
                if j < r.len() - 1 {
                    assert(r@[j] < r@[r.len() - 1]);
                }
            }
        }
        r
    }
}

// A pure model of the same recursion, for stating laws that relate
// whole runs of the simplifier. A deviation assignment maps a point
// index and a chord to the point's deviation key.

/// First index of maximum deviation among the interior points of the
/// chord `(s, e)` not yet scanned, continuing a left-to-right scan that
/// so far found `best_k` at `best_i`.
pub open spec fn scan_max(
    dev: spec_fn(int, int, int) -> nat,
    s: int,
    e: int,
    i: int,
    best_i: int,
    best_k: nat,
) -> (int, nat)
    decreases e - i,
{
    if i >= e {
        (best_i, best_k)
    } else if dev(i, s, e) > best_k {
        scan_max(dev, s, e, i + 1, i, dev(i, s, e))
    } else {
        scan_max(dev, s, e, i + 1, best_i, best_k)
    }
}

/// The kept indices of the range `[s, e]` under a deviation assignment
/// and a tolerance: the recursion of the simplifier as a function.
pub open spec fn rdp_model(dev: spec_fn(int, int, int) -> nat, tol: nat, s: int, e: int) -> Seq<
    int,
>
    decreases e - s,
{
    if e - s < 2 {
        seq![s, e]
    } else {
        let (m, k) = scan_max(dev, s, e, s + 1, s, 0);
        if k > tol && s < m < e {
            rdp_model(dev, tol, s, m).drop_last() + rdp_model(dev, tol, m, e)
        } else {
            seq![s, e]
        }
    }
}

/// Endpoint preservation: whatever the deviations and the tolerance,
/// the simplification of a range keeps at least its two endpoints, the
/// first index first and the last index last.
pub proof fn lemma_rdp_shape(dev: spec_fn(int, int, int) -> nat, tol: nat, s: int, e: int)
    requires
        s < e,
    ensures
        rdp_model(dev, tol, s, e).len() >= 2,
        rdp_model(dev, tol, s, e)[0] == s,
        rdp_model(dev, tol, s, e).last() == e,
    decreases e - s,
{
    if e - s >= 2 {
        let (m, k) = scan_max(dev, s, e, s + 1, s, 0);
        if k > tol && s < m < e {
            lemma_rdp_shape(dev, tol, s, m);
            lemma_rdp_shape(dev, tol, m, e);
        }
    }
}

/// The scan never reports a maximum above the tolerance when every
/// deviation still to be scanned, and the running maximum, are within
/// it.
proof fn lemma_scan_max_within(
    dev: spec_fn(int, int, int) -> nat,
    tol: nat,
    s: int,
    e: int,
    i: int,
    best_i: int,
    best_k: nat,
)
    requires
        best_k <= tol,
        forall|j: int| i <= j < e ==> #[trigger] dev(j, s, e) <= tol,
    ensures
        scan_max(dev, s, e, i, best_i, best_k).1 <= tol,
    decreases e - i,
{
    if i < e {
        if dev(i, s, e) > best_k {
            lemma_scan_max_within(dev, tol, s, e, i + 1, i, dev(i, s, e));
        } else {
            lemma_scan_max_within(dev, tol, s, e, i + 1, best_i, best_k);
        }
    }
}

/// Collinear collapse: a range whose interior points all deviate from
/// its chord by at most the tolerance simplifies to exactly its two
/// endpoints — in particular, a run of three or more exactly collinear
/// points, whose deviations are all zero, collapses for any tolerance.
pub proof fn lemma_rdp_collapse(dev: spec_fn(int, int, int) -> nat, tol: nat, s: int, e: int)
    requires
        s < e,
        forall|i: int| s < i < e ==> #[trigger] dev(i, s, e) <= tol,
    ensures
        rdp_model(dev, tol, s, e) == seq![s, e],
{
    if e - s >= 2 {
        lemma_scan_max_within(dev, tol, s, e, s + 1, s, 0);
    }
}

/// Monotonic tolerance: for one path and one deviation assignment, a
/// larger tolerance never keeps more points than a smaller one.
pub proof fn lemma_rdp_monotone(
    dev: spec_fn(int, int, int) -> nat,
    tol1: nat,
    tol2: nat,
    s: int,
    e: int,
)
    requires
        s < e,
        tol1 <= tol2,
    ensures
        rdp_model(dev, tol2, s, e).len() <= rdp_model(dev, tol1, s, e).len(),
    decreases e - s,
{
    if e - s >= 2 {
        let (m, k) = scan_max(dev, s, e, s + 1, s, 0);
        if k > tol2 && s < m < e {
            lemma_rdp_monotone(dev, tol1, tol2, s, m);
            lemma_rdp_monotone(dev, tol1, tol2, m, e);
            lemma_rdp_shape(dev, tol1, s, m);
            lemma_rdp_shape(dev, tol1, m, e);
            lemma_rdp_shape(dev, tol2, s, m);
            lemma_rdp_shape(dev, tol2, m, e);
        } else if k > tol1 && s < m < e {
            lemma_rdp_shape(dev, tol1, s, m);
            lemma_rdp_shape(dev, tol1, m, e);
        }
    }
}

} // verus!
