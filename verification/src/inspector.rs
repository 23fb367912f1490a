//! Orbit-inspector geometry: which part of an orbit the overlay draws.

use vstd::prelude::*;

verus! {

/// Number of most recent orbit points the overlay keeps.
pub const ORBIT_TAIL_POINTS: usize = 9;

/// One past the selected point, clamped to the orbit.
pub open spec fn tail_end(point_count: usize, selected: usize) -> nat {
    if selected < point_count { selected as nat + 1 } else { point_count as nat }
}

/// The tail length actually used: a zero request counts as one.
pub open spec fn tail_length(tail_points: usize) -> nat {
    if tail_points == 0 { 1 } else { tail_points as nat }
}

/// The points `[start, end)` the overlay draws: up to `tail_points` points
/// ending at the selected one (or at the orbit's last point when the
/// selection lies beyond it).
pub fn orbit_tail_range(point_count: usize, selected: usize, tail_points: usize) -> (range: std::ops::Range<usize>)
    ensures
        range.end as nat == tail_end(point_count, selected),
        range.start as nat == if tail_end(point_count, selected) >= tail_length(tail_points) {
            (tail_end(point_count, selected) - tail_length(tail_points)) as nat
        } else {
            0
        },
{
    let end = if selected < point_count { selected + 1 } else { point_count };
    let tail = if tail_points == 0 { 1 } else { tail_points };
    let start = if end >= tail { end - tail } else { 0 };
    start..end
}

/// The drawn range lies inside the orbit, is never empty for a non-empty
/// orbit, holds at most the requested tail, and contains the selected point
/// whenever it exists.
pub proof fn orbit_tail_stays_inside_the_orbit(point_count: usize, selected: usize, tail_points: usize)
    ensures
        ({
            let end = tail_end(point_count, selected);
            let start = if end >= tail_length(tail_points) { (end - tail_length(tail_points)) as nat } else { 0nat };
            &&& start <= end <= point_count
            &&& point_count > 0 ==> start < end
            &&& end - start <= tail_length(tail_points)
            &&& selected < point_count ==> start <= selected < end
        }),
{
}

} // verus!
