//! Two-dimensional fixed-point vectors, used by value for positions,
//! velocities and bounding-box half-extents.

use vstd::prelude::*;

use crate::fixed::Fx;
use crate::fixed::fx_add;
use crate::fixed::fx_sub;
use crate::fixed::fx_mul;

verus! {

/// A 2D vector (or point) with fixed-point components.
#[derive(Clone, Copy, Debug, PartialEq, Eq, Structural)]
pub struct Vec2 {
    pub x: Fx,
    pub y: Fx,
}

/// Build the vector with the given raw components.
pub open spec fn v2(x: int, y: int) -> Vec2 {
    Vec2 { x: Fx { raw: x as i64 }, y: Fx { raw: y as i64 } }
}

impl Vec2 {
    /// The zero vector.
    pub fn zero() -> (r: Vec2)
        ensures
            r.x.raw == 0,
            r.y.raw == 0,
    {
        Vec2 { x: Fx::zero(), y: Fx::zero() }
    }

    /// Componentwise saturating addition.
    pub fn add(self, o: Vec2) -> (r: Vec2)
        ensures
            r.x.raw == fx_add(self.x.raw as int, o.x.raw as int),
            r.y.raw == fx_add(self.y.raw as int, o.y.raw as int),
    {
        Vec2 { x: self.x.add(o.x), y: self.y.add(o.y) }
    }

    /// Componentwise saturating subtraction.
    pub fn sub(self, o: Vec2) -> (r: Vec2)
        ensures
            r.x.raw == fx_sub(self.x.raw as int, o.x.raw as int),
            r.y.raw == fx_sub(self.y.raw as int, o.y.raw as int),
    {
        Vec2 { x: self.x.sub(o.x), y: self.y.sub(o.y) }
    }

    /// Componentwise saturating multiplication by a scalar.
    pub fn scale(self, k: Fx) -> (r: Vec2)
        ensures
            r.x.raw == fx_mul(self.x.raw as int, k.raw as int),
            r.y.raw == fx_mul(self.y.raw as int, k.raw as int),
    {
        Vec2 { x: self.x.mul(k), y: self.y.mul(k) }
    }
}

} // verus!
