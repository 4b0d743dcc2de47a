//! The two-sided clamp-and-redistribute rule for the boundary between two
//! adjacent panes of a split group.
//!
//! Dragging the boundary by `delta` grows the left/upper pane by `delta` and
//! shrinks its right/lower sibling by the same amount, except that neither
//! pane may drop below its orientation's per-pane floor, and a pair whose
//! combined extent is already at or below the orientation's combined floor is
//! not touched at all. Any remainder a clamped sibling could not absorb is
//! pushed back onto the left pane, so the pair's total extent is conserved
//! whenever the combined floor allows a change.

use vstd::prelude::*;

use crate::geometry::{combined_min, combined_min_spec, pane_min, pane_min_spec, Orientation,
    MAX_EXTENT};

verus! {

/// `v`, raised to `lo` if it fell below it.
pub open spec fn clamp_low(v: int, lo: int) -> int {
    if v < lo {
        lo
    } else {
        v
    }
}

/// The new extents of an adjacent pair `(a, b)` after dragging the boundary
/// between them by `delta` (positive toward the right/lower sibling).
pub open spec fn resize_adjacent_spec(a: int, b: int, delta: int, o: Orientation) -> (int, int) {
    if a + b <= combined_min_spec(o) {
        (a, b)
    } else {
        let a_clamped = clamp_low(a + delta, pane_min_spec(o));
        let b_raw = b + (a - a_clamped);
        let b_clamped = clamp_low(b_raw, pane_min_spec(o));
        (a_clamped + (b_raw - b_clamped), b_clamped)
    }
}

/// Conservation: whenever the combined floor permits a resize at all, the
/// pair's total extent is exactly preserved, clamping included.
pub proof fn lemma_resize_conserves(a: int, b: int, delta: int, o: Orientation)
    requires
        a + b > combined_min_spec(o),
    ensures
        resize_adjacent_spec(a, b, delta, o).0 + resize_adjacent_spec(a, b, delta, o).1 == a + b,
{
}

/// A drag that hits neither pane's floor moves exactly `delta` from one pane
/// to the other.
pub proof fn lemma_resize_unclamped(a: int, b: int, delta: int, o: Orientation)
    requires
        a + b > combined_min_spec(o),
        a + delta >= pane_min_spec(o),
        b - delta >= pane_min_spec(o),
    ensures
        resize_adjacent_spec(a, b, delta, o) == (a + delta, b - delta),
{
}

/// Floor enforcement: a resize never leaves a pane below its per-pane floor;
/// a pane that ends below the floor was already there and was left untouched.
pub proof fn lemma_resize_floors(a: int, b: int, delta: int, o: Orientation)
    ensures
        resize_adjacent_spec(a, b, delta, o).0 >= pane_min_spec(o)
            || resize_adjacent_spec(a, b, delta, o).0 == a,
        resize_adjacent_spec(a, b, delta, o).1 >= pane_min_spec(o)
            || resize_adjacent_spec(a, b, delta, o).1 == b,
{
}

/// Combined-floor veto: a pair at or below the combined floor is never
/// mutated, whatever the delta.
pub proof fn lemma_combined_floor_veto(a: int, b: int, delta: int, o: Orientation)
    requires
        a + b <= combined_min_spec(o),
    ensures
        resize_adjacent_spec(a, b, delta, o) == (a, b),
{
}

/// A zero delta changes nothing, provided both panes respect their floor.
pub proof fn lemma_zero_delta_noop(a: int, b: int, o: Orientation)
    requires
        a >= pane_min_spec(o),
        b >= pane_min_spec(o),
    ensures
        resize_adjacent_spec(a, b, 0, o) == (a, b),
{
}

/// Both results of a permitted resize stay within `[pane_min, a + b]`, so
/// they fit back into the extent type whenever the inputs were in range.
pub proof fn lemma_resize_in_range(a: int, b: int, delta: int, o: Orientation)
    requires
        0 <= a,
        0 <= b,
        a + b <= MAX_EXTENT,
    ensures
        0 <= resize_adjacent_spec(a, b, delta, o).0 <= MAX_EXTENT,
        0 <= resize_adjacent_spec(a, b, delta, o).1 <= MAX_EXTENT,
        resize_adjacent_spec(a, b, delta, o).0 + resize_adjacent_spec(a, b, delta, o).1 <= MAX_EXTENT,
{
}

/// Rewrites `sizes[idx]` and `sizes[idx + 1]` with the redistributed pair;
/// every other entry is left alone.
pub fn apply_resize(sizes: &mut Vec<i32>, idx: usize, delta: i32, o: Orientation)
    requires
        idx + 1 < old(sizes).len(),
        0 <= old(sizes)[idx as int],
        0 <= old(sizes)[idx as int + 1],
        old(sizes)[idx as int] + old(sizes)[idx as int + 1] <= MAX_EXTENT,
    ensures
        final(sizes)@ == (
        {
            let r = resize_adjacent_spec(
                old(sizes)[idx as int] as int,
                old(sizes)[idx as int + 1] as int,
                delta as int,
                o,
            );
            old(sizes)@.update(idx as int, r.0 as i32).update(idx as int + 1, r.1 as i32)
        }),
{
    let a: i32 = sizes[idx];
    let b: i32 = sizes[idx + 1];
    if a + b <= combined_min(o) {
        proof {
            assert(old(sizes)@ =~= old(sizes)@.update(idx as int, a).update(idx as int + 1, b));
        }
        return ;
    }
    let m: i32 = pane_min(o);
    let a_plus: i64 = a as i64 + delta as i64;
    let a_clamped: i64 = if a_plus < m as i64 {
        m as i64
    } else {
        a_plus
    };
    let b_raw: i64 = b as i64 + (a as i64 - a_clamped);
    let b_clamped: i64 = if b_raw < m as i64 {
        m as i64
    } else {
        b_raw
    };
    let a_new: i64 = a_clamped + (b_raw - b_clamped);
    proof {
        lemma_resize_conserves(a as int, b as int, delta as int, o);
        lemma_resize_floors(a as int, b as int, delta as int, o);
    }
    sizes.set(idx, a_new as i32);
    sizes.set(idx + 1, b_clamped as i32);
}

} // verus!
