//! Nearest-segment selection for projecting a position onto a path.
//!
//! The caller projects the position onto every segment of the path and
//! measures the straight-line distance to each projected point as an
//! order-preserving integer key (larger keys mean larger distances).
//! The verified part picks the winning segment: the smallest distance,
//! and on ties the earliest segment.

use vstd::prelude::*;

verus! {

/// Index of the segment with the smallest distance key, ties going to
/// the earliest segment; `None` exactly when there is no segment.
pub fn nearest_segment(dist_keys: &Vec<u64>) -> (r: Option<usize>)
    ensures
        match r {
            Some(i) => {
                &&& 0 < dist_keys.len()
                &&& i < dist_keys.len()
                &&& forall|j: int|
                    0 <= j < dist_keys.len() ==> dist_keys[i as int] <= #[trigger] dist_keys[j]
                &&& forall|j: int| 0 <= j < i ==> dist_keys[i as int] < #[trigger] dist_keys[j]
            },
            None => dist_keys.len() == 0,
        },
{
    if dist_keys.len() == 0 {
        return None;
    }
    let mut best: usize = 0;
    let mut j: usize = 1;
    while j < dist_keys.len()
        invariant
            best < j <= dist_keys.len(),
            forall|k: int| 0 <= k < j ==> dist_keys[best as int] <= #[trigger] dist_keys[k],
            forall|k: int| 0 <= k < best ==> dist_keys[best as int] < #[trigger] dist_keys[k],
        decreases dist_keys.len() - j,
    {
        if dist_keys[j] < dist_keys[best] {
            best = j;
        }
        j = j + 1;
    }
    Some(best)
}

} // verus!
