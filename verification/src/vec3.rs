//! Three-component vectors of fixed-point scalars.

use vstd::prelude::*;

use crate::fx::{
    abs_int, div_fx, fx_add, fx_div, fx_mul, fx_neg, fx_sub, isqrt_u128, mul_fx, sat64, sat_add,
    sat_neg, sat_sub, sqrt_floor, lemma_sqrt_floor_bounds, SAT_MAX,
};

verus! {

/// A world- or body-space vector; each component is a fixed-point scalar.
#[derive(Clone, Copy, PartialEq, Eq, Structural, Debug)]
pub struct Vec3x {
    pub x: i64,
    pub y: i64,
    pub z: i64,
}

/// The zero vector.
pub open spec fn vzero() -> Vec3x {
    Vec3x { x: 0, y: 0, z: 0 }
}

/// Componentwise saturating sum.
pub open spec fn vadd_s(a: Vec3x, b: Vec3x) -> Vec3x {
    Vec3x {
        x: sat_add(a.x as int, b.x as int) as i64,
        y: sat_add(a.y as int, b.y as int) as i64,
        z: sat_add(a.z as int, b.z as int) as i64,
    }
}

/// Componentwise saturating difference.
pub open spec fn vsub_s(a: Vec3x, b: Vec3x) -> Vec3x {
    Vec3x {
        x: sat_sub(a.x as int, b.x as int) as i64,
        y: sat_sub(a.y as int, b.y as int) as i64,
        z: sat_sub(a.z as int, b.z as int) as i64,
    }
}

/// Componentwise saturating negation.
pub open spec fn vneg_s(a: Vec3x) -> Vec3x {
    Vec3x {
        x: sat_neg(a.x as int) as i64,
        y: sat_neg(a.y as int) as i64,
        z: sat_neg(a.z as int) as i64,
    }
}

/// The vector scaled by a fixed-point factor.
pub open spec fn vscale_s(a: Vec3x, s: int) -> Vec3x {
    Vec3x {
        x: mul_fx(a.x as int, s) as i64,
        y: mul_fx(a.y as int, s) as i64,
        z: mul_fx(a.z as int, s) as i64,
    }
}

/// The vector divided componentwise by a fixed-point scalar.
pub open spec fn vdiv_s(a: Vec3x, s: int) -> Vec3x {
    Vec3x {
        x: div_fx(a.x as int, s) as i64,
        y: div_fx(a.y as int, s) as i64,
        z: div_fx(a.z as int, s) as i64,
    }
}

/// Fixed-point dot product, summed left to right.
pub open spec fn vdot_s(a: Vec3x, b: Vec3x) -> int {
    sat_add(
        sat_add(mul_fx(a.x as int, b.x as int), mul_fx(a.y as int, b.y as int)),
        mul_fx(a.z as int, b.z as int),
    )
}

/// Fixed-point cross product.
pub open spec fn vcross_s(a: Vec3x, b: Vec3x) -> Vec3x {
    Vec3x {
        x: sat_sub(mul_fx(a.y as int, b.z as int), mul_fx(a.z as int, b.y as int)) as i64,
        y: sat_sub(mul_fx(a.z as int, b.x as int), mul_fx(a.x as int, b.z as int)) as i64,
        z: sat_sub(mul_fx(a.x as int, b.y as int), mul_fx(a.y as int, b.x as int)) as i64,
    }
}

/// Exact sum of the squared components, in raw (unscaled) units.
pub open spec fn vnorm_sq_raw(a: Vec3x) -> int {
    (a.x as int) * (a.x as int) + (a.y as int) * (a.y as int) + (a.z as int) * (a.z as int)
}

/// Euclidean length: the floor of the square root of the exact sum of
/// squares, saturated.  Because each component carries the value times
/// `SCALE`, the root is again a fixed-point scalar.
pub open spec fn vlen_s(a: Vec3x) -> int {
    sat64(sqrt_floor(vnorm_sq_raw(a)))
}

impl Vec3x {
    /// Builds the vector with the given fixed-point components.
    pub fn new(x: i64, y: i64, z: i64) -> (r: Vec3x)
        ensures
            r == (Vec3x { x, y, z }),
    {
        Vec3x { x, y, z }
    }

    /// The zero vector.
    pub fn zero() -> (r: Vec3x)
        ensures
            r == vzero(),
    {
        Vec3x { x: 0, y: 0, z: 0 }
    }

    /// Componentwise saturating sum.
    pub fn add(&self, other: &Vec3x) -> (r: Vec3x)
        ensures
            r == vadd_s(*self, *other),
    {
        Vec3x { x: fx_add(self.x, other.x), y: fx_add(self.y, other.y), z: fx_add(
            self.z,
            other.z,
        ) }
    }

    /// Componentwise saturating difference.
    pub fn sub(&self, other: &Vec3x) -> (r: Vec3x)
        ensures
            r == vsub_s(*self, *other),
    {
        Vec3x { x: fx_sub(self.x, other.x), y: fx_sub(self.y, other.y), z: fx_sub(
            self.z,
            other.z,
        ) }
    }

    /// Componentwise saturating negation.
    pub fn neg(&self) -> (r: Vec3x)
        ensures
            r == vneg_s(*self),
    {
        Vec3x { x: fx_neg(self.x), y: fx_neg(self.y), z: fx_neg(self.z) }
    }

    /// The vector scaled by a fixed-point factor.
    pub fn scale(&self, s: i64) -> (r: Vec3x)
        ensures
            r == vscale_s(*self, s as int),
    {
        Vec3x { x: fx_mul(self.x, s), y: fx_mul(self.y, s), z: fx_mul(self.z, s) }
    }

    /// The vector divided componentwise by a fixed-point scalar.
    pub fn div_scalar(&self, s: i64) -> (r: Vec3x)
        ensures
            r == vdiv_s(*self, s as int),
    {
        Vec3x { x: fx_div(self.x, s), y: fx_div(self.y, s), z: fx_div(self.z, s) }
    }

    /// Fixed-point dot product.
    pub fn dot(&self, other: &Vec3x) -> (r: i64)
        ensures
            r as int == vdot_s(*self, *other),
    {
        fx_add(fx_add(fx_mul(self.x, other.x), fx_mul(self.y, other.y)), fx_mul(self.z, other.z))
    }

    /// Fixed-point cross product.
    pub fn cross(&self, other: &Vec3x) -> (r: Vec3x)
        ensures
            r == vcross_s(*self, *other),
    {
        Vec3x {
            x: fx_sub(fx_mul(self.y, other.z), fx_mul(self.z, other.y)),
            y: fx_sub(fx_mul(self.z, other.x), fx_mul(self.x, other.z)),
            z: fx_sub(fx_mul(self.x, other.y), fx_mul(self.y, other.x)),
        }
    }

    /// Euclidean length.
    pub fn length(&self) -> (r: i64)
        ensures
            r as int == vlen_s(*self),
    {
        let xx = square_u128(self.x);
        let yy = square_u128(self.y);
        let zz = square_u128(self.z);
        let root = isqrt_u128(xx + yy + zz);
        proof {
            lemma_sqrt_floor_bounds(vnorm_sq_raw(*self));
        }
        if root > SAT_MAX as u128 {
            SAT_MAX
        } else {
            root as i64
        }
    }

    /// True exactly when every component is zero.
    pub fn is_zero(&self) -> (r: bool)
        ensures
            r <==> *self == vzero(),
    {
        self.x == 0 && self.y == 0 && self.z == 0
    }
}

/// Exact square of a scalar, widened so that three squares always fit.
pub(crate) fn square_u128(a: i64) -> (r: u128)
    ensures
        r as int == (a as int) * (a as int),
        r <= 0x4000_0000_0000_0000_0000_0000_0000_0000,
{
    proof {
        assert(0 <= (a as int) * (a as int) <= 0x8000_0000_0000_0000 * 0x8000_0000_0000_0000)
            by (nonlinear_arith)
            requires
                abs_int(a as int) <= 0x8000_0000_0000_0000,
        ;
    }
    let w = a as i128;
    (w * w) as u128
}

} // verus!
