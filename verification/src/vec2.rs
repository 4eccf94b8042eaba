//! Exact integer 2D vectors.
//!
//! Positions, velocities and half-extents are all `Vec2` values: pairs of
//! `i64` coordinates in a caller-chosen fixed-point unit.  Arithmetic on
//! them is exact, so every contract in this crate can state results with
//! `==` rather than with tolerances.

use vstd::prelude::*;

verus! {

/// A 2D vector with exact integer coordinates.
#[derive(Clone, Copy, Debug, PartialEq, Eq, Structural)]
pub struct Vec2 {
    pub x: i64,
    pub y: i64,
}

/// The absolute value of a mathematical integer.
pub open spec fn abs_val(v: int) -> int {
    if v < 0 {
        -v
    } else {
        v
    }
}

impl Vec2 {
    /// Whether both coordinates are zero, so the vector has zero magnitude.
    pub fn is_zero(&self) -> (r: bool)
        ensures
            r <==> (self.x == 0 && self.y == 0),
    {
        self.x == 0 && self.y == 0
    }
}

} // verus!
