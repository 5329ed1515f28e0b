//! Integer world-space geometry: coordinates, the admissible world range,
//! and clamped coordinate arithmetic.

use vstd::prelude::*;

verus! {

/// Furthest admissible world coordinate in either axis. The bound is small
/// enough that the sum or difference of any two in-range coordinates still
/// fits in `i64`.
pub const COORD_LIMIT: i64 = 0x2000_0000_0000_0000;

/// An in-range world coordinate.
pub open spec fn in_world(x: int) -> bool {
    -COORD_LIMIT <= x <= COORD_LIMIT
}

/// A point or extent in world space.
#[derive(Clone, Copy, Debug, PartialEq, Eq, Structural)]
pub struct WorldVec {
    pub x: i64,
    pub y: i64,
}

impl WorldVec {
    /// Both components lie within the world range.
    pub open spec fn wf(self) -> bool {
        in_world(self.x as int) && in_world(self.y as int)
    }
}

/// `x` brought back into the world range.
pub open spec fn clamped(x: int) -> int {
    if x < -COORD_LIMIT {
        -COORD_LIMIT as int
    } else if x > COORD_LIMIT {
        COORD_LIMIT as int
    } else {
        x
    }
}

/// Moves an in-range coordinate by an in-range offset, clamping the result
/// to the world range so that board state never leaves it.
pub fn move_coord(x: i64, dx: i64) -> (r: i64)
    requires
        in_world(x as int),
        in_world(dx as int),
    ensures
        r as int == clamped(x + dx),
        in_world(r as int),
{
    let moved: i64 = x + dx;
    if moved < -COORD_LIMIT {
        -COORD_LIMIT
    } else if moved > COORD_LIMIT {
        COORD_LIMIT
    } else {
        moved
    }
}

} // verus!
