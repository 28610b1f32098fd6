//! Support for enumerating the tiles that intersect a polygon: the
//! identifiers in the candidate range spanned by the polygon's bounding
//! box are scanned linearly, and those whose geometry truly intersects the
//! polygon are kept. The geometric test itself is the caller's: this
//! module turns its per-candidate answers into the tile list.

use vstd::prelude::*;

verus! {

/// Collects, in ascending order, the tile identifiers of the candidate
/// range `[min_tile, max_tile]` whose intersection test came back true:
/// exactly those `min_tile + i` with `intersects[i]` set, no candidate
/// missed and nothing from outside the range.
pub fn select_intersecting_tiles(min_tile: i64, max_tile: i64, intersects: &Vec<bool>) -> (r: Vec<
    i64,
>)
    requires
        0 <= min_tile <= max_tile,
        intersects@.len() == max_tile - min_tile + 1,
    ensures
        forall|i: int|
            0 <= i < r@.len() ==> min_tile <= #[trigger] r@[i] <= max_tile && intersects@[r@[i]
                - min_tile],
        forall|t: i64|
            min_tile <= t <= max_tile && intersects@[t - min_tile] ==> r@.contains(t),
        forall|i: int, j: int| 0 <= i < j < r@.len() ==> r@[i] < r@[j],
{
    let mut checked_tiles: Vec<i64> = Vec::new();
    let mut k: usize = 0;
    let n: usize = intersects.len();
    while k < n
        invariant
            n == intersects@.len(),
            0 <= min_tile <= max_tile,
            intersects@.len() == max_tile - min_tile + 1,
            k <= n,
            forall|i: int|
                0 <= i < checked_tiles@.len() ==> min_tile <= #[trigger] checked_tiles@[i]
                    < min_tile + k && intersects@[checked_tiles@[i] - min_tile],
            forall|t: i64|
                min_tile <= t < min_tile + k && intersects@[t - min_tile]
                    ==> checked_tiles@.contains(t),
            forall|i: int, j: int|
                0 <= i < j < checked_tiles@.len() ==> checked_tiles@[i] < checked_tiles@[j],
        decreases n - k,
    {
        if intersects[k] {
            let tileid: i64 = min_tile + (k as i64);
            let ghost prev = checked_tiles@;
            checked_tiles.push(tileid);
            proof {
                assert forall|t: i64|
                    min_tile <= t < min_tile + (k + 1) && intersects@[t - min_tile] implies
                    checked_tiles@.contains(t) by {
                    if t < min_tile + k {
                        assert(prev.contains(t));
                        let w = choose|w: int| 0 <= w < prev.len() && prev[w] == t;
                        assert(checked_tiles@[w] == t);
                    } else {
                        assert(checked_tiles@[checked_tiles@.len() - 1] == t);
                    }
                }
            }
        }
        k = k + 1;
    }
    checked_tiles
}

} // verus!
