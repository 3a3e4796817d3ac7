//! A 2-D point on the canvas, in whole canvas units.
//!
//! The canvas coordinate system has `x` growing to the right and `y` growing
//! downward; bullets move toward smaller `y`, enemies toward larger `y`.

use vstd::prelude::*;

verus! {

/// A 2-D point value; copied freely, no ownership concerns.
#[derive(Clone, Copy, PartialEq, Eq, Structural, Debug)]
pub struct Position {
    pub x: i32,
    pub y: i32,
}

impl Position {
    pub fn new(x: i32, y: i32) -> (p: Position)
        ensures
            p == (Position { x, y }),
    {
        Position { x, y }
    }
}

/// Squared Euclidean distance between two points, as an unbounded integer.
///
/// Collision rules compare this against a squared threshold, which is
/// equivalent to comparing the real distance against the threshold and is
/// exact on integer coordinates.
pub open spec fn dist_sq(p: Position, q: Position) -> int {
    (p.x - q.x) * (p.x - q.x) + (p.y - q.y) * (p.y - q.y)
}

/// Computes [`dist_sq`] exactly; `i128` cannot overflow on `i32` inputs.
pub fn distance_squared(p: Position, q: Position) -> (d: i128)
    ensures
        d == dist_sq(p, q),
{
    let dx: i128 = p.x as i128 - q.x as i128;
    let dy: i128 = p.y as i128 - q.y as i128;
    proof {
        assert(dx * dx + dy * dy == dist_sq(p, q)) by (nonlinear_arith)
            requires
                dx == p.x - q.x,
                dy == p.y - q.y,
        ;
        assert(0 <= dx * dx <= 0x10000000000000000 && 0 <= dy * dy <= 0x10000000000000000)
            by (nonlinear_arith)
            requires
                -0x100000000 <= dx <= 0x100000000,
                -0x100000000 <= dy <= 0x100000000,
        ;
    }
    dx * dx + dy * dy
}

} // verus!
