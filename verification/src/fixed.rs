//! Fixed-point scalars.
//!
//! An [`Fx`] stores a signed count of millionths, so one unit is
//! `FX_SCALE` raw steps. Sums and differences are exact; products and
//! quotients are floor-rounded to the nearest representable value below,
//! and the contracts state that rounding exactly.

use vstd::prelude::*;
use vstd::arithmetic::div_mod::{
    lemma_div_is_ordered,
    lemma_fundamental_div_mod,
    lemma_mod_division_less_than_divisor,
};

verus! {

/// Raw steps per unit: an `Fx` counts millionths.
pub const FX_SCALE: i64 = 1_000_000;

/// The exact value of a fixed-point product of raw values `a` and `b`:
/// the integer product scaled back down, rounded toward negative infinity.
pub open spec fn fx_mul_value(a: int, b: int) -> int {
    (a * b) / (FX_SCALE as int)
}

/// The exact value of a fixed-point quotient of raw values `a` and `b`
/// for a positive divisor: `a` scaled up, floor-divided by `b`.
pub open spec fn fx_div_value(a: int, b: int) -> int {
    (a * FX_SCALE) / b
}

/// Whether a mathematical integer is representable as a raw value.
pub open spec fn in_i64(x: int) -> bool {
    i64::MIN <= x <= i64::MAX
}

/// A fixed-point number; `raw` counts millionths of a unit.
#[derive(Clone, Copy, Debug, PartialEq, Eq, Structural)]
pub struct Fx {
    raw: i64,
}

impl View for Fx {
    type V = int;

    closed spec fn view(&self) -> int {
        self.raw as int
    }
}

/// Floor division by a positive divisor never grows the magnitude.
proof fn lemma_floor_div_bounds(p: int, d: int)
    requires
        d > 0,
    ensures
        p >= 0 ==> 0 <= p / d <= p,
        p < 0 ==> p <= p / d <= 0,
{
    let q = p / d;
    let r = p % d;
    lemma_fundamental_div_mod(p, d);
    lemma_mod_division_less_than_divisor(p, d);
    assert(p >= 0 ==> 0 <= q <= p) by (nonlinear_arith)
        requires
            p == d * q + r,
            0 <= r < d,
            d > 0,
    ;
    assert(p < 0 ==> p <= q <= 0) by (nonlinear_arith)
        requires
            p == d * q + r,
            0 <= r < d,
            d > 0,
    ;
}

/// Halving keeps a value within half of an even bound.
pub proof fn lemma_half_within(w: int, bound: int)
    requires
        0 <= bound,
        bound % 2 == 0,
        -bound <= w <= bound,
    ensures
        -bound / 2 <= w / 2 <= bound / 2,
{
    lemma_div_is_ordered(-bound, w, 2);
    lemma_div_is_ordered(w, bound, 2);
    lemma_fundamental_div_mod(bound, 2);
    lemma_fundamental_div_mod(-bound, 2);
    lemma_mod_division_less_than_divisor(bound, 2);
    lemma_mod_division_less_than_divisor(-bound, 2);
}

/// A product of two raw values always fits in 128 bits.
pub proof fn lemma_raw_product_fits(a: int, b: int)
    requires
        i64::MIN <= a <= i64::MAX,
        i64::MIN <= b <= i64::MAX,
    ensures
        i128::MIN <= a * b <= i128::MAX,
{
    assert(i128::MIN <= a * b <= i128::MAX) by (nonlinear_arith)
        requires
            -0x8000_0000_0000_0000 <= a <= 0x7fff_ffff_ffff_ffff,
            -0x8000_0000_0000_0000 <= b <= 0x7fff_ffff_ffff_ffff,
    ;
}

impl Fx {
    /// The number whose raw count of millionths is `raw`.
    pub fn from_raw(raw: i64) -> (r: Fx)
        ensures
            r@ == raw,
    {
        Fx { raw }
    }

    /// The raw count of millionths.
    pub fn to_raw(self) -> (r: i64)
        ensures
            r == self@,
    {
        self.raw
    }

    /// The fixed-point number equal to the integer `v`.
    pub fn from_int(v: i32) -> (r: Fx)
        ensures
            r@ == v * (FX_SCALE as int),
    {
        Fx { raw: (v as i64) * FX_SCALE }
    }

    pub fn zero() -> (r: Fx)
        ensures
            r@ == 0,
    {
        Fx { raw: 0 }
    }

    pub fn one() -> (r: Fx)
        ensures
            r@ == FX_SCALE,
    {
        Fx { raw: FX_SCALE }
    }

    /// Exact sum.
    pub fn add(self, o: Fx) -> (r: Fx)
        requires
            in_i64(self@ + o@),
        ensures
            r@ == self@ + o@,
    {
        Fx { raw: self.raw + o.raw }
    }

    /// Exact difference.
    pub fn sub(self, o: Fx) -> (r: Fx)
        requires
            in_i64(self@ - o@),
        ensures
            r@ == self@ - o@,
    {
        Fx { raw: self.raw - o.raw }
    }

    /// Exact negation.
    pub fn neg(self) -> (r: Fx)
        requires
            in_i64(-self@),
        ensures
            r@ == -self@,
    {
        Fx { raw: -self.raw }
    }

    /// Product, floor-rounded to a representable value.
    pub fn mul(self, o: Fx) -> (r: Fx)
        requires
            in_i64(fx_mul_value(self@, o@)),
        ensures
            r@ == fx_mul_value(self@, o@),
    {
        proof {
            lemma_raw_product_fits(self@, o@);
        }
        let p: i128 = (self.raw as i128) * (o.raw as i128);
        proof {
            lemma_floor_div_bounds(p as int, FX_SCALE as int);
        }
        let q: i128 = p.checked_div_euclid(1_000_000i128).unwrap();
        Fx { raw: q as i64 }
    }

    /// Quotient by a positive divisor, floor-rounded to a representable value.
    pub fn div(self, o: Fx) -> (r: Fx)
        requires
            o@ > 0,
            in_i64(fx_div_value(self@, o@)),
        ensures
            r@ == fx_div_value(self@, o@),
    {
        proof {
            lemma_raw_product_fits(self@, FX_SCALE as int);
        }
        let n: i128 = (self.raw as i128) * 1_000_000i128;
        proof {
            lemma_floor_div_bounds(n as int, o@);
        }
        let q: i128 = n.checked_div_euclid(o.raw as i128).unwrap();
        Fx { raw: q as i64 }
    }

    /// Half of the value, floor-rounded to a representable value.
    pub fn half(self) -> (r: Fx)
        ensures
            r@ == self@ / 2,
    {
        proof {
            lemma_floor_div_bounds(self@, 2);
        }
        Fx { raw: self.raw.checked_div_euclid(2).unwrap() }
    }

    pub fn le(self, o: Fx) -> (r: bool)
        ensures
            r == (self@ <= o@),
    {
        self.raw <= o.raw
    }

    pub fn lt(self, o: Fx) -> (r: bool)
        ensures
            r == (self@ < o@),
    {
        self.raw < o.raw
    }

    pub fn ge(self, o: Fx) -> (r: bool)
        ensures
            r == (self@ >= o@),
    {
        self.raw >= o.raw
    }

    pub fn gt(self, o: Fx) -> (r: bool)
        ensures
            r == (self@ > o@),
    {
        self.raw > o.raw
    }

    /// The smaller of the two values.
    pub fn min(self, o: Fx) -> (r: Fx)
        ensures
            r@ == if self@ <= o@ { self@ } else { o@ },
    {
        if self.raw <= o.raw {
            self
        } else {
            o
        }
    }

    /// The larger of the two values.
    pub fn max(self, o: Fx) -> (r: Fx)
        ensures
            r@ == if self@ >= o@ { self@ } else { o@ },
    {
        if self.raw >= o.raw {
            self
        } else {
            o
        }
    }
}

} // verus!
