//! 2D vectors over fixed-point scalars.
//!
//! Only the operations with an exact fixed-point meaning live here: sums,
//! differences, scaling, dot products, squared lengths and distances,
//! clamped linear interpolation and reflection. Length, normalization and
//! rotation need square roots or trigonometry and belong to the host layer.

use vstd::prelude::*;
use crate::fixed::{fx_mul_value, in_i64, Fx, FX_SCALE};

verus! {

/// The interpolation parameter clamped to the unit interval.
pub open spec fn clamp01(t: int) -> int {
    if t < 0 {
        0
    } else if t > FX_SCALE {
        FX_SCALE as int
    } else {
        t
    }
}

/// A 2D vector of fixed-point components.
#[derive(Clone, Copy, Debug, PartialEq, Eq, Structural)]
pub struct Vec2 {
    pub x: Fx,
    pub y: Fx,
}

impl Vec2 {
    pub fn new(x: Fx, y: Fx) -> (r: Vec2)
        ensures
            r.x == x,
            r.y == y,
    {
        Vec2 { x, y }
    }

    pub fn zero() -> (r: Vec2)
        ensures
            r.x@ == 0,
            r.y@ == 0,
    {
        Vec2 { x: Fx::zero(), y: Fx::zero() }
    }

    pub fn one() -> (r: Vec2)
        ensures
            r.x@ == FX_SCALE,
            r.y@ == FX_SCALE,
    {
        Vec2 { x: Fx::one(), y: Fx::one() }
    }

    pub fn up() -> (r: Vec2)
        ensures
            r.x@ == 0,
            r.y@ == FX_SCALE,
    {
        Vec2 { x: Fx::zero(), y: Fx::one() }
    }

    pub fn down() -> (r: Vec2)
        ensures
            r.x@ == 0,
            r.y@ == -FX_SCALE as int,
    {
        Vec2 { x: Fx::zero(), y: Fx::from_int(-1) }
    }

    pub fn left() -> (r: Vec2)
        ensures
            r.x@ == -FX_SCALE as int,
            r.y@ == 0,
    {
        Vec2 { x: Fx::from_int(-1), y: Fx::zero() }
    }

    pub fn right() -> (r: Vec2)
        ensures
            r.x@ == FX_SCALE,
            r.y@ == 0,
    {
        Vec2 { x: Fx::one(), y: Fx::zero() }
    }

    /// Exact componentwise sum.
    pub fn add(self, o: Vec2) -> (r: Vec2)
        requires
            in_i64(self.x@ + o.x@),
            in_i64(self.y@ + o.y@),
        ensures
            r.x@ == self.x@ + o.x@,
            r.y@ == self.y@ + o.y@,
    {
        Vec2 { x: self.x.add(o.x), y: self.y.add(o.y) }
    }

    /// Exact componentwise difference.
    pub fn sub(self, o: Vec2) -> (r: Vec2)
        requires
            in_i64(self.x@ - o.x@),
            in_i64(self.y@ - o.y@),
        ensures
            r.x@ == self.x@ - o.x@,
            r.y@ == self.y@ - o.y@,
    {
        Vec2 { x: self.x.sub(o.x), y: self.y.sub(o.y) }
    }

    /// Componentwise scaling by a fixed-point factor.
    pub fn scale(self, s: Fx) -> (r: Vec2)
        requires
            in_i64(fx_mul_value(self.x@, s@)),
            in_i64(fx_mul_value(self.y@, s@)),
        ensures
            r.x@ == fx_mul_value(self.x@, s@),
            r.y@ == fx_mul_value(self.y@, s@),
    {
        Vec2 { x: self.x.mul(s), y: self.y.mul(s) }
    }

    /// The dot product, each term floor-rounded as a fixed-point product.
    pub fn dot(&self, other: Vec2) -> (r: Fx)
        requires
            in_i64(fx_mul_value(self.x@, other.x@)),
            in_i64(fx_mul_value(self.y@, other.y@)),
            in_i64(fx_mul_value(self.x@, other.x@) + fx_mul_value(self.y@, other.y@)),
        ensures
            r@ == fx_mul_value(self.x@, other.x@) + fx_mul_value(self.y@, other.y@),
    {
        self.x.mul(other.x).add(self.y.mul(other.y))
    }

    /// The squared length: the dot product of the vector with itself.
    pub fn length_squared(&self) -> (r: Fx)
        requires
            in_i64(fx_mul_value(self.x@, self.x@)),
            in_i64(fx_mul_value(self.y@, self.y@)),
            in_i64(fx_mul_value(self.x@, self.x@) + fx_mul_value(self.y@, self.y@)),
        ensures
            r@ == fx_mul_value(self.x@, self.x@) + fx_mul_value(self.y@, self.y@),
    {
        self.dot(*self)
    }

    /// The squared distance between the two points.
    pub fn distance_squared(&self, other: Vec2) -> (r: Fx)
        requires
            in_i64(self.x@ - other.x@),
            in_i64(self.y@ - other.y@),
            in_i64(fx_mul_value(self.x@ - other.x@, self.x@ - other.x@)),
            in_i64(fx_mul_value(self.y@ - other.y@, self.y@ - other.y@)),
            in_i64(
                fx_mul_value(self.x@ - other.x@, self.x@ - other.x@) + fx_mul_value(
                    self.y@ - other.y@,
                    self.y@ - other.y@,
                ),
            ),
        ensures
            r@ == fx_mul_value(self.x@ - other.x@, self.x@ - other.x@) + fx_mul_value(
                self.y@ - other.y@,
                self.y@ - other.y@,
            ),
    {
        let d = self.sub(other);
        d.length_squared()
    }

    /// Linear interpolation from `a` to `b`, the parameter clamped to the
    /// unit interval first.
    pub fn lerp(a: Vec2, b: Vec2, t: Fx) -> (r: Vec2)
        requires
            in_i64(b.x@ - a.x@),
            in_i64(b.y@ - a.y@),
            in_i64(fx_mul_value(b.x@ - a.x@, clamp01(t@))),
            in_i64(fx_mul_value(b.y@ - a.y@, clamp01(t@))),
            in_i64(a.x@ + fx_mul_value(b.x@ - a.x@, clamp01(t@))),
            in_i64(a.y@ + fx_mul_value(b.y@ - a.y@, clamp01(t@))),
        ensures
            r.x@ == a.x@ + fx_mul_value(b.x@ - a.x@, clamp01(t@)),
            r.y@ == a.y@ + fx_mul_value(b.y@ - a.y@, clamp01(t@)),
    {
        let tc = t.max(Fx::zero()).min(Fx::one());
        Vec2 { x: a.x.add(b.x.sub(a.x).mul(tc)), y: a.y.add(b.y.sub(a.y).mul(tc)) }
    }

    /// Reflection about a normal: `v - n * (2 * (v . n))`.
    pub fn reflect(&self, normal: Vec2) -> (r: Vec2)
        requires
            in_i64(fx_mul_value(self.x@, normal.x@)),
            in_i64(fx_mul_value(self.y@, normal.y@)),
            in_i64(fx_mul_value(self.x@, normal.x@) + fx_mul_value(self.y@, normal.y@)),
            in_i64(
                2 * (fx_mul_value(self.x@, normal.x@) + fx_mul_value(self.y@, normal.y@)),
            ),
            in_i64(
                fx_mul_value(
                    normal.x@,
                    2 * (fx_mul_value(self.x@, normal.x@) + fx_mul_value(self.y@, normal.y@)),
                ),
            ),
            in_i64(
                fx_mul_value(
                    normal.y@,
                    2 * (fx_mul_value(self.x@, normal.x@) + fx_mul_value(self.y@, normal.y@)),
                ),
            ),
            in_i64(
                self.x@ - fx_mul_value(
                    normal.x@,
                    2 * (fx_mul_value(self.x@, normal.x@) + fx_mul_value(self.y@, normal.y@)),
                ),
            ),
            in_i64(
                self.y@ - fx_mul_value(
                    normal.y@,
                    2 * (fx_mul_value(self.x@, normal.x@) + fx_mul_value(self.y@, normal.y@)),
                ),
            ),
        ensures
            r.x@ == self.x@ - fx_mul_value(
                normal.x@,
                2 * (fx_mul_value(self.x@, normal.x@) + fx_mul_value(self.y@, normal.y@)),
            ),
            r.y@ == self.y@ - fx_mul_value(
                normal.y@,
                2 * (fx_mul_value(self.x@, normal.x@) + fx_mul_value(self.y@, normal.y@)),
            ),
    {
        let d = self.dot(normal);
        let two_d = d.add(d);
        Vec2 { x: self.x.sub(normal.x.mul(two_d)), y: self.y.sub(normal.y.mul(two_d)) }
    }
}

} // verus!
