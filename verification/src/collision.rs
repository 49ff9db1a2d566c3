//! Collision geometry and pairwise detection.
//!
//! All queries are pure functions over fixed-point value types. Boxes are
//! axis-aligned, stored as an origin and an extent; zero or negative extents
//! are accepted and degrade to empty overlaps. The pair resolver separates
//! along the axis of least penetration, with an axis-aligned unit normal.

use vstd::prelude::*;
use crate::fixed::{Fx, FX_SCALE};

verus! {

/// Largest raw magnitude a well-formed coordinate (or a coordinate plus an
/// extent) may have. Keeping coordinates within this bound keeps every sum,
/// difference and doubling of coordinates representable.
pub const COORD_LIMIT: i64 = 1_000_000_000_000_000_000;

/// An axis-aligned bounding box: origin and extent. Derived quantities
/// (per-axis minimum and maximum, center) are computed, not stored.
#[derive(Clone, Copy, Debug, PartialEq, Eq, Structural)]
pub struct AABB {
    pub x: Fx,
    pub y: Fx,
    pub width: Fx,
    pub height: Fx,
}

impl AABB {
    /// Both corners of the box lie within the coordinate bound.
    pub open spec fn wf(self) -> bool {
        &&& -COORD_LIMIT <= self.x@ <= COORD_LIMIT
        &&& -COORD_LIMIT <= self.x@ + self.width@ <= COORD_LIMIT
        &&& -COORD_LIMIT <= self.y@ <= COORD_LIMIT
        &&& -COORD_LIMIT <= self.y@ + self.height@ <= COORD_LIMIT
    }

    pub open spec fn spec_min_x(self) -> int {
        self.x@
    }

    pub open spec fn spec_max_x(self) -> int {
        self.x@ + self.width@
    }

    pub open spec fn spec_min_y(self) -> int {
        self.y@
    }

    pub open spec fn spec_max_y(self) -> int {
        self.y@ + self.height@
    }

    /// Twice the center abscissa; doubling keeps it exact.
    pub open spec fn spec_center2_x(self) -> int {
        2 * self.x@ + self.width@
    }

    /// Twice the center ordinate.
    pub open spec fn spec_center2_y(self) -> int {
        2 * self.y@ + self.height@
    }

    /// The center abscissa, floor-rounded to a representable value.
    pub open spec fn spec_center_x(self) -> int {
        self.x@ + self.width@ / 2
    }

    /// The center ordinate, floor-rounded to a representable value.
    pub open spec fn spec_center_y(self) -> int {
        self.y@ + self.height@ / 2
    }

    /// The point lies in the box, boundary included.
    pub open spec fn spec_contains(self, px: int, py: int) -> bool {
        &&& self.spec_min_x() <= px <= self.spec_max_x()
        &&& self.spec_min_y() <= py <= self.spec_max_y()
    }

    pub fn new(x: Fx, y: Fx, width: Fx, height: Fx) -> (r: AABB)
        ensures
            r == (AABB { x, y, width, height }),
    {
        AABB { x, y, width, height }
    }

    pub fn min_x(&self) -> (r: Fx)
        ensures
            r@ == self.spec_min_x(),
    {
        self.x
    }

    pub fn min_y(&self) -> (r: Fx)
        ensures
            r@ == self.spec_min_y(),
    {
        self.y
    }

    pub fn max_x(&self) -> (r: Fx)
        requires
            self.wf(),
        ensures
            r@ == self.spec_max_x(),
    {
        self.x.add(self.width)
    }

    pub fn max_y(&self) -> (r: Fx)
        requires
            self.wf(),
        ensures
            r@ == self.spec_max_y(),
    {
        self.y.add(self.height)
    }

    pub fn center_x(&self) -> (r: Fx)
        requires
            self.wf(),
        ensures
            r@ == self.spec_center_x(),
    {
        proof {
            crate::fixed::lemma_half_within(self.width@, 2 * COORD_LIMIT);
        }
        self.x.add(self.width.half())
    }

    pub fn center_y(&self) -> (r: Fx)
        requires
            self.wf(),
        ensures
            r@ == self.spec_center_y(),
    {
        proof {
            crate::fixed::lemma_half_within(self.height@, 2 * COORD_LIMIT);
        }
        self.y.add(self.height.half())
    }

    pub fn contains_point(&self, px: Fx, py: Fx) -> (r: bool)
        requires
            self.wf(),
        ensures
            r == self.spec_contains(px@, py@),
    {
        self.min_x().le(px) && px.le(self.max_x()) && self.min_y().le(py) && py.le(self.max_y())
    }

    pub fn intersects(&self, other: &AABB) -> (r: bool)
        requires
            self.wf(),
            other.wf(),
        ensures
            r == spec_intersects(*self, *other),
    {
        !(self.max_x().lt(other.min_x()) || self.min_x().gt(other.max_x())
            || self.max_y().lt(other.min_y()) || self.min_y().gt(other.max_y()))
    }
}

/// Boxes intersect exactly when their extents overlap on both axes; touching
/// edges count as intersecting.
pub open spec fn spec_intersects(a: AABB, b: AABB) -> bool {
    !(a.spec_max_x() < b.spec_min_x() || a.spec_min_x() > b.spec_max_x()
        || a.spec_max_y() < b.spec_min_y() || a.spec_min_y() > b.spec_max_y())
}

/// Overlap of the two boxes along the horizontal axis.
pub open spec fn spec_x_overlap(a: AABB, b: AABB) -> int {
    if a.spec_max_x() - b.spec_min_x() <= b.spec_max_x() - a.spec_min_x() {
        a.spec_max_x() - b.spec_min_x()
    } else {
        b.spec_max_x() - a.spec_min_x()
    }
}

/// Overlap of the two boxes along the vertical axis.
pub open spec fn spec_y_overlap(a: AABB, b: AABB) -> int {
    if a.spec_max_y() - b.spec_min_y() <= b.spec_max_y() - a.spec_min_y() {
        a.spec_max_y() - b.spec_min_y()
    } else {
        b.spec_max_y() - a.spec_min_y()
    }
}

/// Stateless pairwise collision queries. The struct itself carries no data;
/// it is the seam where spatial partitioning structures would live.
pub struct CollisionDetection {}

impl CollisionDetection {
    pub fn new() -> (r: CollisionDetection)
        ensures
            r == (CollisionDetection {}),
    {
        CollisionDetection {}
    }

    pub fn aabb_vs_aabb(&self, a: &AABB, b: &AABB) -> (r: bool)
        requires
            a.wf(),
            b.wf(),
        ensures
            r == spec_intersects(*a, *b),
    {
        a.intersects(b)
    }

    pub fn point_in_aabb(&self, px: Fx, py: Fx, aabb: &AABB) -> (r: bool)
        requires
            aabb.wf(),
        ensures
            r == aabb.spec_contains(px@, py@),
    {
        aabb.contains_point(px, py)
    }

    /// Circles intersect exactly when the squared center distance is at most
    /// the squared sum of the radii.
    pub fn circle_vs_circle(&self, x1: Fx, y1: Fx, r1: Fx, x2: Fx, y2: Fx, r2: Fx) -> (r: bool)
        requires
            -COORD_LIMIT <= x1@ <= COORD_LIMIT,
            -COORD_LIMIT <= y1@ <= COORD_LIMIT,
            -COORD_LIMIT <= x2@ <= COORD_LIMIT,
            -COORD_LIMIT <= y2@ <= COORD_LIMIT,
            -COORD_LIMIT <= r1@ <= COORD_LIMIT,
            -COORD_LIMIT <= r2@ <= COORD_LIMIT,
        ensures
            r == ((x2@ - x1@) * (x2@ - x1@) + (y2@ - y1@) * (y2@ - y1@)
                <= (r1@ + r2@) * (r1@ + r2@)),
    {
        let dx: i128 = x2.to_raw() as i128 - x1.to_raw() as i128;
        let dy: i128 = y2.to_raw() as i128 - y1.to_raw() as i128;
        let rsum: i128 = r1.to_raw() as i128 + r2.to_raw() as i128;
        proof {
            lemma_square_bound(dx as int, 2 * COORD_LIMIT);
            lemma_square_bound(dy as int, 2 * COORD_LIMIT);
            lemma_square_bound(rsum as int, 2 * COORD_LIMIT);
        }
        dx * dx + dy * dy <= rsum * rsum
    }

    /// Clamps the circle center to the box extents to find the nearest box
    /// point, then compares squared distance to squared radius.
    pub fn circle_vs_aabb(&self, cx: Fx, cy: Fx, radius: Fx, aabb: &AABB) -> (r: bool)
        requires
            aabb.wf(),
            -COORD_LIMIT <= cx@ <= COORD_LIMIT,
            -COORD_LIMIT <= cy@ <= COORD_LIMIT,
            -COORD_LIMIT <= radius@ <= COORD_LIMIT,
        ensures
            r == ((cx@ - spec_clamp(cx@, aabb.spec_min_x(), aabb.spec_max_x()))
                    * (cx@ - spec_clamp(cx@, aabb.spec_min_x(), aabb.spec_max_x()))
                + (cy@ - spec_clamp(cy@, aabb.spec_min_y(), aabb.spec_max_y()))
                    * (cy@ - spec_clamp(cy@, aabb.spec_min_y(), aabb.spec_max_y()))
                <= radius@ * radius@),
    {
        let closest_x = cx.max(aabb.min_x()).min(aabb.max_x());
        let closest_y = cy.max(aabb.min_y()).min(aabb.max_y());
        let dx: i128 = cx.to_raw() as i128 - closest_x.to_raw() as i128;
        let dy: i128 = cy.to_raw() as i128 - closest_y.to_raw() as i128;
        proof {
            lemma_square_bound(dx as int, 2 * COORD_LIMIT);
            lemma_square_bound(dy as int, 2 * COORD_LIMIT);
            lemma_square_bound(radius@, COORD_LIMIT as int);
        }
        let rr: i128 = radius.to_raw() as i128;
        dx * dx + dy * dy <= rr * rr
    }

    /// Slab-method raycast: the nearest nonnegative hit distance along the
    /// ray, as an exact rational, or `None` when the ray misses the box or
    /// the box lies behind the origin. A zero direction component is not an
    /// error: that axis constrains the query only through the origin lying
    /// strictly inside its slab. A direction of zero on both axes is
    /// degenerate and left out.
    pub fn ray_vs_aabb(&self, ray_x: Fx, ray_y: Fx, ray_dx: Fx, ray_dy: Fx, aabb: &AABB) -> (r:
        Option<Ratio>)
        requires
            aabb.wf(),
            -COORD_LIMIT <= ray_x@ <= COORD_LIMIT,
            -COORD_LIMIT <= ray_y@ <= COORD_LIMIT,
            -COORD_LIMIT <= ray_dx@ <= COORD_LIMIT,
            -COORD_LIMIT <= ray_dy@ <= COORD_LIMIT,
            !(ray_dx@ == 0 && ray_dy@ == 0),
        ensures
            match r {
                None => spec_ray_hit(ray_x@, ray_y@, ray_dx@, ray_dy@, *aabb) is None,
                Some(t) => t.den > 0 && t.num >= 0 && spec_ray_hit(
                    ray_x@,
                    ray_y@,
                    ray_dx@,
                    ray_dy@,
                    *aabb,
                ) == Some((t.num as int, t.den as int)),
            },
    {
        let min_x = aabb.min_x();
        let max_x = aabb.max_x();
        let min_y = aabb.min_y();
        let max_y = aabb.max_y();
        if ray_dx.to_raw() == 0 {
            let oxr = ray_x.to_raw();
            let inside = (min_x.to_raw() < oxr && oxr < max_x.to_raw()) || (max_x.to_raw() < oxr
                && oxr < min_x.to_raw());
            if !inside {
                return None;
            }
            let (lo_n, hi_n, den) = slab_axis(ray_y, ray_dy, min_y, max_y);
            interval_result(lo_n, den, hi_n, den)
        } else if ray_dy.to_raw() == 0 {
            let oyr = ray_y.to_raw();
            let inside = (min_y.to_raw() < oyr && oyr < max_y.to_raw()) || (max_y.to_raw() < oyr
                && oyr < min_y.to_raw());
            if !inside {
                return None;
            }
            let (lo_n, hi_n, den) = slab_axis(ray_x, ray_dx, min_x, max_x);
            interval_result(lo_n, den, hi_n, den)
        } else {
            let (lox, hix, dxa) = slab_axis(ray_x, ray_dx, min_x, max_x);
            let (loy, hiy, dya) = slab_axis(ray_y, ray_dy, min_y, max_y);
            let lo_x_later = prod_le(loy, dxa, lox, dya);
            let (tmin_n, tmin_d) = if lo_x_later {
                (lox, dxa)
            } else {
                (loy, dya)
            };
            let (tmax_n, tmax_d) = if prod_le(hix, dya, hiy, dxa) {
                (hix, dxa)
            } else {
                (hiy, dya)
            };
            interval_result(tmin_n, tmin_d, tmax_n, tmax_d)
        }
    }
}

/// An exact rational parametric distance along a ray, with a positive
/// denominator. The hit point is `origin + (num/den) * direction`.
#[derive(Clone, Copy, Debug, PartialEq, Eq, Structural)]
pub struct Ratio {
    pub num: i64,
    pub den: i64,
}

/// `v` lies strictly between `a` and `b`, in either order.
pub open spec fn strictly_between(v: int, a: int, b: int) -> bool {
    (a < v && v < b) || (b < v && v < a)
}

/// Common positive denominator of the two slab distances along one axis.
pub open spec fn spec_axis_den(d: int) -> int {
    if d >= 0 {
        d
    } else {
        -d
    }
}

/// Numerator of the smaller slab distance along one axis: the distances to
/// the two slab planes are `(v1 - o) / d` and `(v2 - o) / d`, rewritten over
/// the positive denominator `|d|`.
pub open spec fn spec_axis_lo_num(o: int, d: int, v1: int, v2: int) -> int {
    let n1 = if d > 0 {
        v1 - o
    } else {
        o - v1
    };
    let n2 = if d > 0 {
        v2 - o
    } else {
        o - v2
    };
    if n1 <= n2 {
        n1
    } else {
        n2
    }
}

/// Numerator of the larger slab distance along one axis.
pub open spec fn spec_axis_hi_num(o: int, d: int, v1: int, v2: int) -> int {
    let n1 = if d > 0 {
        v1 - o
    } else {
        o - v1
    };
    let n2 = if d > 0 {
        v2 - o
    } else {
        o - v2
    };
    if n1 >= n2 {
        n1
    } else {
        n2
    }
}

/// Outcome of a slab interval `[lo_n/lo_d, hi_n/hi_d]` (denominators
/// positive): no hit when the exit lies behind the origin or the entry lies
/// past the exit; otherwise the entry distance, or the exit distance when the
/// origin is inside the box.
pub open spec fn spec_interval_result(lo_n: int, lo_d: int, hi_n: int, hi_d: int) -> Option<
    (int, int),
> {
    if hi_n < 0 {
        None
    } else if lo_n * hi_d > hi_n * lo_d {
        None
    } else if lo_n < 0 {
        Some((hi_n, hi_d))
    } else {
        Some((lo_n, lo_d))
    }
}

/// The slab-method ray query against a box, on exact rationals. An axis with
/// a zero direction component contributes no distances: the ray can hit only
/// if its origin lies strictly inside that axis's slab.
pub open spec fn spec_ray_hit(ox: int, oy: int, dx: int, dy: int, b: AABB) -> Option<(int, int)> {
    if dx == 0 && dy == 0 {
        None
    } else if dx == 0 {
        if strictly_between(ox, b.spec_min_x(), b.spec_max_x()) {
            spec_interval_result(
                spec_axis_lo_num(oy, dy, b.spec_min_y(), b.spec_max_y()),
                spec_axis_den(dy),
                spec_axis_hi_num(oy, dy, b.spec_min_y(), b.spec_max_y()),
                spec_axis_den(dy),
            )
        } else {
            None
        }
    } else if dy == 0 {
        if strictly_between(oy, b.spec_min_y(), b.spec_max_y()) {
            spec_interval_result(
                spec_axis_lo_num(ox, dx, b.spec_min_x(), b.spec_max_x()),
                spec_axis_den(dx),
                spec_axis_hi_num(ox, dx, b.spec_min_x(), b.spec_max_x()),
                spec_axis_den(dx),
            )
        } else {
            None
        }
    } else {
        let lox = spec_axis_lo_num(ox, dx, b.spec_min_x(), b.spec_max_x());
        let hix = spec_axis_hi_num(ox, dx, b.spec_min_x(), b.spec_max_x());
        let dxa = spec_axis_den(dx);
        let loy = spec_axis_lo_num(oy, dy, b.spec_min_y(), b.spec_max_y());
        let hiy = spec_axis_hi_num(oy, dy, b.spec_min_y(), b.spec_max_y());
        let dya = spec_axis_den(dy);
        let tmin_n = if lox * dya >= loy * dxa {
            lox
        } else {
            loy
        };
        let tmin_d = if lox * dya >= loy * dxa {
            dxa
        } else {
            dya
        };
        let tmax_n = if hix * dya <= hiy * dxa {
            hix
        } else {
            hiy
        };
        let tmax_d = if hix * dya <= hiy * dxa {
            dxa
        } else {
            dya
        };
        spec_interval_result(tmin_n, tmin_d, tmax_n, tmax_d)
    }
}

/// Compares the products `a * b` and `c * d` without overflow.
fn prod_le(a: i64, b: i64, c: i64, d: i64) -> (r: bool)
    ensures
        r == (a * b <= c * d),
{
    proof {
        crate::fixed::lemma_raw_product_fits(a as int, b as int);
        crate::fixed::lemma_raw_product_fits(c as int, d as int);
    }
    (a as i128) * (b as i128) <= (c as i128) * (d as i128)
}

/// Turns an exact slab interval into the query result.
fn interval_result(lo_n: i64, lo_d: i64, hi_n: i64, hi_d: i64) -> (r: Option<Ratio>)
    requires
        lo_d > 0,
        hi_d > 0,
    ensures
        match r {
            None => spec_interval_result(lo_n as int, lo_d as int, hi_n as int, hi_d as int)
                is None,
            Some(t) => t.den > 0 && t.num >= 0 && spec_interval_result(
                lo_n as int,
                lo_d as int,
                hi_n as int,
                hi_d as int,
            ) == Some((t.num as int, t.den as int)),
        },
{
    if hi_n < 0 {
        None
    } else if !prod_le(lo_n, hi_d, hi_n, lo_d) {
        None
    } else if lo_n < 0 {
        Some(Ratio { num: hi_n, den: hi_d })
    } else {
        Some(Ratio { num: lo_n, den: lo_d })
    }
}

/// Entry and exit numerators and the positive common denominator of the slab
/// distances along one axis with a nonzero direction component.
fn slab_axis(o: Fx, d: Fx, v1: Fx, v2: Fx) -> (r: (i64, i64, i64))
    requires
        d@ != 0,
        -COORD_LIMIT <= o@ <= COORD_LIMIT,
        -COORD_LIMIT <= d@ <= COORD_LIMIT,
        -COORD_LIMIT <= v1@ <= COORD_LIMIT,
        -COORD_LIMIT <= v2@ <= COORD_LIMIT,
    ensures
        r.0 == spec_axis_lo_num(o@, d@, v1@, v2@),
        r.1 == spec_axis_hi_num(o@, d@, v1@, v2@),
        r.2 == spec_axis_den(d@),
        r.2 > 0,
{
    let orr = o.to_raw();
    let drr = d.to_raw();
    let n1: i64 = if drr > 0 {
        v1.to_raw() - orr
    } else {
        orr - v1.to_raw()
    };
    let n2: i64 = if drr > 0 {
        v2.to_raw() - orr
    } else {
        orr - v2.to_raw()
    };
    let den: i64 = if drr > 0 {
        drr
    } else {
        -drr
    };
    if n1 <= n2 {
        (n1, n2, den)
    } else {
        (n2, n1, den)
    }
}

/// The nearest point of the closed interval `[lo, hi]` to `v`, computed as
/// raising to `lo` first and then lowering to `hi` (so for an inverted
/// interval the result is `hi`).
pub open spec fn spec_clamp(v: int, lo: int, hi: int) -> int {
    let raised = if v >= lo {
        v
    } else {
        lo
    };
    if raised <= hi {
        raised
    } else {
        hi
    }
}

/// A square of a bounded value is bounded by the square of the bound.
proof fn lemma_square_bound(a: int, bound: int)
    requires
        0 <= bound,
        -bound <= a <= bound,
    ensures
        0 <= a * a <= bound * bound,
{
    assert(0 <= a * a <= bound * bound) by (nonlinear_arith)
        requires
            0 <= bound,
            -bound <= a <= bound,
    ;
}

/// Resolution output for one intersecting box pair: penetration vector, unit
/// separation normal (axis-aligned, one component `1` or `-1`, the other
/// zero), and a contact point.
#[derive(Clone, Copy, Debug, PartialEq, Eq, Structural)]
pub struct CollisionInfo {
    pub penetration_x: Fx,
    pub penetration_y: Fx,
    pub normal_x: Fx,
    pub normal_y: Fx,
    pub contact_x: Fx,
    pub contact_y: Fx,
}

impl CollisionInfo {
    /// Separates two intersecting boxes along the axis of least penetration
    /// (ties favor the vertical axis, matching a strict horizontal-first
    /// comparison), pointing the normal from `a` toward `b` by comparing the
    /// box centers (a tie resolves to the positive direction).
    pub fn resolve_aabb_collision(a: &AABB, b: &AABB) -> (r: Option<CollisionInfo>)
        requires
            a.wf(),
            b.wf(),
        ensures
            match r {
                None => !spec_intersects(*a, *b),
                Some(ci) => {
                    &&& spec_intersects(*a, *b)
                    &&& if spec_x_overlap(*a, *b) < spec_y_overlap(*a, *b) {
                        &&& ci.normal_x@ == (if a.spec_center2_x() < b.spec_center2_x() {
                            -FX_SCALE as int
                        } else {
                            FX_SCALE as int
                        })
                        &&& ci.normal_y@ == 0
                        &&& ci.penetration_x@ == (if a.spec_center2_x() < b.spec_center2_x() {
                            -spec_x_overlap(*a, *b)
                        } else {
                            spec_x_overlap(*a, *b)
                        })
                        &&& ci.penetration_y@ == 0
                        &&& ci.contact_x@ == (if a.spec_center2_x() < b.spec_center2_x() {
                            a.spec_min_x()
                        } else {
                            a.spec_max_x()
                        })
                        &&& ci.contact_y@ == a.spec_center_y()
                    } else {
                        &&& ci.normal_x@ == 0
                        &&& ci.normal_y@ == (if a.spec_center2_y() < b.spec_center2_y() {
                            -FX_SCALE as int
                        } else {
                            FX_SCALE as int
                        })
                        &&& ci.penetration_x@ == 0
                        &&& ci.penetration_y@ == (if a.spec_center2_y() < b.spec_center2_y() {
                            -spec_y_overlap(*a, *b)
                        } else {
                            spec_y_overlap(*a, *b)
                        })
                        &&& ci.contact_x@ == a.spec_center_x()
                        &&& ci.contact_y@ == (if a.spec_center2_y() < b.spec_center2_y() {
                            a.spec_min_y()
                        } else {
                            a.spec_max_y()
                        })
                    }
                },
            },
    {
        if !a.intersects(b) {
            return None;
        }
        let x_overlap = a.max_x().sub(b.min_x()).min(b.max_x().sub(a.min_x()));
        let y_overlap = a.max_y().sub(b.min_y()).min(b.max_y().sub(a.min_y()));
        if x_overlap.lt(y_overlap) {
            // Separate along the horizontal axis.
            let a_before_b = center2_lt(a.x, a.width, b.x, b.width);
            let normal_x = if a_before_b {
                Fx::one().neg()
            } else {
                Fx::one()
            };
            Some(
                CollisionInfo {
                    penetration_x: if a_before_b {
                        x_overlap.neg()
                    } else {
                        x_overlap
                    },
                    penetration_y: Fx::zero(),
                    normal_x,
                    normal_y: Fx::zero(),
                    contact_x: if a_before_b {
                        a.min_x()
                    } else {
                        a.max_x()
                    },
                    contact_y: a.center_y(),
                },
            )
        } else {
            // Separate along the vertical axis.
            let a_below_b = center2_lt(a.y, a.height, b.y, b.height);
            let normal_y = if a_below_b {
                Fx::one().neg()
            } else {
                Fx::one()
            };
            Some(
                CollisionInfo {
                    penetration_x: Fx::zero(),
                    penetration_y: if a_below_b {
                        y_overlap.neg()
                    } else {
                        y_overlap
                    },
                    normal_x: Fx::zero(),
                    normal_y,
                    contact_x: a.center_x(),
                    contact_y: if a_below_b {
                        a.min_y()
                    } else {
                        a.max_y()
                    },
                },
            )
        }
    }
}

/// The resolver's penetration is exact: translating the first box by the
/// penetration vector (the overlap, signed by the normal) brings the two
/// boxes precisely into contact on the separation axis — the translated
/// box's far edge meets the other box's near edge, with nothing left over.
/// The branch conditions are the ones `resolve_aabb_collision` resolves by.
pub proof fn lemma_penetration_brings_exact_contact(a: AABB, b: AABB)
    requires
        a.wf(),
        b.wf(),
        spec_intersects(a, b),
    ensures
        spec_x_overlap(a, b) < spec_y_overlap(a, b) && a.spec_center2_x() < b.spec_center2_x()
            ==> a.spec_max_x() - spec_x_overlap(a, b) == b.spec_min_x(),
        spec_x_overlap(a, b) < spec_y_overlap(a, b) && a.spec_center2_x() >= b.spec_center2_x()
            ==> a.spec_min_x() + spec_x_overlap(a, b) == b.spec_max_x(),
        spec_x_overlap(a, b) >= spec_y_overlap(a, b) && a.spec_center2_y() < b.spec_center2_y()
            ==> a.spec_max_y() - spec_y_overlap(a, b) == b.spec_min_y(),
        spec_x_overlap(a, b) >= spec_y_overlap(a, b) && a.spec_center2_y() >= b.spec_center2_y()
            ==> a.spec_min_y() + spec_y_overlap(a, b) == b.spec_max_y(),
{
}

/// Compares doubled interval centers, `2*ao + aw` against `2*bo + bw`,
/// which is the exact comparison of the centers themselves.
fn center2_lt(ao: Fx, aw: Fx, bo: Fx, bw: Fx) -> (r: bool)
    requires
        -COORD_LIMIT <= ao@ <= COORD_LIMIT,
        -COORD_LIMIT <= ao@ + aw@ <= COORD_LIMIT,
        -COORD_LIMIT <= bo@ <= COORD_LIMIT,
        -COORD_LIMIT <= bo@ + bw@ <= COORD_LIMIT,
    ensures
        r == (2 * ao@ + aw@ < 2 * bo@ + bw@),
{
    let ca: i128 = 2 * (ao.to_raw() as i128) + aw.to_raw() as i128;
    let cb: i128 = 2 * (bo.to_raw() as i128) + bw.to_raw() as i128;
    ca < cb
}

} // verus!
