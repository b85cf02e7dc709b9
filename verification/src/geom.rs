//! Room positions and range checks.
//!
//! A room is a 50x50 grid; the distance used by range checks is the
//! Chebyshev distance (the larger of the coordinate differences), which is
//! what "within range r" means for every action in the engine.

use vstd::prelude::*;

verus! {

/// A position inside one room.
#[derive(Clone, Copy, Debug, PartialEq, Eq, Structural)]
pub struct Position {
    pub x: u8,
    pub y: u8,
}

/// Chebyshev distance between two positions.
pub open spec fn spec_range_between(a: Position, b: Position) -> int {
    let dx = if a.x >= b.x { a.x - b.x } else { b.x - a.x };
    let dy = if a.y >= b.y { a.y - b.y } else { b.y - a.y };
    if dx >= dy { dx } else { dy }
}

/// Chebyshev distance between two positions.
pub fn range_between(a: Position, b: Position) -> (r: u8)
    ensures
        r == spec_range_between(a, b),
{
    let dx = if a.x >= b.x { a.x - b.x } else { b.x - a.x };
    let dy = if a.y >= b.y { a.y - b.y } else { b.y - a.y };
    if dx >= dy { dx } else { dy }
}

/// Whether `b` is within `range` of `a`.
pub fn in_range_to(a: Position, b: Position, range: u8) -> (r: bool)
    ensures
        r == (spec_range_between(a, b) <= range),
{
    range_between(a, b) <= range
}

/// Whether `b` is adjacent to (or equal to) `a`: the contact check.
pub fn is_near_to(a: Position, b: Position) -> (r: bool)
    ensures
        r == (spec_range_between(a, b) <= 1),
{
    in_range_to(a, b, 1)
}

} // verus!
