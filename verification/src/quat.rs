//! Unit quaternions (orientations) over fixed-point scalars.

use vstd::prelude::*;

use crate::fx::{
    div_fx, fx_add, fx_div, fx_mul, fx_neg, fx_sub, isqrt_u128, mul_fx, sat64, sat_add, sat_neg,
    sat_sub, sqrt_floor, lemma_sqrt_floor_bounds, SAT_MAX, SCALE,
};
use crate::vec3::{square_u128, Vec3x};

verus! {

/// An orientation; `w` is the real part.  The identity orientation is
/// `(0, 0, 0, SCALE)`.
#[derive(Clone, Copy, PartialEq, Eq, Structural, Debug)]
pub struct Quatx {
    pub x: i64,
    pub y: i64,
    pub z: i64,
    pub w: i64,
}

/// The identity orientation.
pub open spec fn qident() -> Quatx {
    Quatx { x: 0, y: 0, z: 0, w: SCALE as i64 }
}

/// Hamilton product `a * b`, each component summed left to right.
pub open spec fn qmul_s(a: Quatx, b: Quatx) -> Quatx {
    Quatx {
        x: sat_add(
            sat_add(mul_fx(a.w as int, b.x as int), mul_fx(a.x as int, b.w as int)),
            sat_sub(mul_fx(a.y as int, b.z as int), mul_fx(a.z as int, b.y as int)),
        ) as i64,
        y: sat_add(
            sat_add(mul_fx(a.w as int, b.y as int), mul_fx(a.y as int, b.w as int)),
            sat_sub(mul_fx(a.z as int, b.x as int), mul_fx(a.x as int, b.z as int)),
        ) as i64,
        z: sat_add(
            sat_add(mul_fx(a.w as int, b.z as int), mul_fx(a.z as int, b.w as int)),
            sat_sub(mul_fx(a.x as int, b.y as int), mul_fx(a.y as int, b.x as int)),
        ) as i64,
        w: sat_sub(
            sat_sub(mul_fx(a.w as int, b.w as int), mul_fx(a.x as int, b.x as int)),
            sat_add(mul_fx(a.y as int, b.y as int), mul_fx(a.z as int, b.z as int)),
        ) as i64,
    }
}

/// Conjugate: the vector part negated.
pub open spec fn qconj_s(a: Quatx) -> Quatx {
    Quatx {
        x: sat_neg(a.x as int) as i64,
        y: sat_neg(a.y as int) as i64,
        z: sat_neg(a.z as int) as i64,
        w: a.w,
    }
}

/// A vector rotated by the orientation: the vector part of
/// `q * (v, 0) * conj(q)`.
pub open spec fn qrotate_s(q: Quatx, v: Vec3x) -> Vec3x {
    let p = qmul_s(qmul_s(q, Quatx { x: v.x, y: v.y, z: v.z, w: 0 }), qconj_s(q));
    Vec3x { x: p.x, y: p.y, z: p.z }
}

/// Exact sum of the four squared components, in raw units.
pub open spec fn qnorm_sq_raw(a: Quatx) -> int {
    (a.x as int) * (a.x as int) + (a.y as int) * (a.y as int) + (a.z as int) * (a.z as int) + (
    a.w as int) * (a.w as int)
}

/// Length of the quaternion as a fixed-point scalar.
pub open spec fn qlen_s(a: Quatx) -> int {
    sat64(sqrt_floor(qnorm_sq_raw(a)))
}

/// Squared length as a fixed-point scalar (the raw sum scaled down once).
pub open spec fn qnorm_sq_fx(a: Quatx) -> int {
    sat64(crate::fx::div_trunc(qnorm_sq_raw(a), SCALE as int))
}

/// The quaternion rescaled to unit length; a zero quaternion is left
/// unchanged (the direction is undefined, so no step is taken).
pub open spec fn qnormalize_s(a: Quatx) -> Quatx {
    let n = qlen_s(a);
    if n == 0 {
        a
    } else {
        Quatx {
            x: div_fx(a.x as int, n) as i64,
            y: div_fx(a.y as int, n) as i64,
            z: div_fx(a.z as int, n) as i64,
            w: div_fx(a.w as int, n) as i64,
        }
    }
}

impl Quatx {
    /// Builds the quaternion with the given fixed-point components.
    pub fn new(x: i64, y: i64, z: i64, w: i64) -> (r: Quatx)
        ensures
            r == (Quatx { x, y, z, w }),
    {
        Quatx { x, y, z, w }
    }

    /// The identity orientation.
    pub fn identity() -> (r: Quatx)
        ensures
            r == qident(),
    {
        Quatx { x: 0, y: 0, z: 0, w: SCALE }
    }

    /// Hamilton product `self * other`.
    pub fn mul_quat(&self, other: &Quatx) -> (r: Quatx)
        ensures
            r == qmul_s(*self, *other),
    {
        let a = *self;
        let b = *other;
        Quatx {
            x: fx_add(
                fx_add(fx_mul(a.w, b.x), fx_mul(a.x, b.w)),
                fx_sub(fx_mul(a.y, b.z), fx_mul(a.z, b.y)),
            ),
            y: fx_add(
                fx_add(fx_mul(a.w, b.y), fx_mul(a.y, b.w)),
                fx_sub(fx_mul(a.z, b.x), fx_mul(a.x, b.z)),
            ),
            z: fx_add(
                fx_add(fx_mul(a.w, b.z), fx_mul(a.z, b.w)),
                fx_sub(fx_mul(a.x, b.y), fx_mul(a.y, b.x)),
            ),
            w: fx_sub(
                fx_sub(fx_mul(a.w, b.w), fx_mul(a.x, b.x)),
                fx_add(fx_mul(a.y, b.y), fx_mul(a.z, b.z)),
            ),
        }
    }

    /// Conjugate; for a unit orientation this is also the inverse rotation.
    pub fn conjugate(&self) -> (r: Quatx)
        ensures
            r == qconj_s(*self),
    {
        Quatx { x: fx_neg(self.x), y: fx_neg(self.y), z: fx_neg(self.z), w: self.w }
    }

    /// Rotates a vector by this orientation.
    pub fn rotate(&self, v: &Vec3x) -> (r: Vec3x)
        ensures
            r == qrotate_s(*self, *v),
    {
        let pv = Quatx { x: v.x, y: v.y, z: v.z, w: 0 };
        let p = self.mul_quat(&pv).mul_quat(&self.conjugate());
        Vec3x { x: p.x, y: p.y, z: p.z }
    }

    /// Length of the quaternion.
    pub fn length(&self) -> (r: i64)
        ensures
            r as int == qlen_s(*self),
    {
        let xx = square_u128(self.x);
        let yy = square_u128(self.y);
        let zz = square_u128(self.z);
        let ww = square_u128(self.w);
        let s3 = xx + yy + zz;
        if ww > u128::MAX - s3 {
            // The exact sum exceeds even the widest intermediate, so its
            // root saturates.
            proof {
                let raw = qnorm_sq_raw(*self);
                lemma_sqrt_floor_bounds(raw);
                let s = sqrt_floor(raw);
                assert(raw > (SAT_MAX as int + 1) * (SAT_MAX as int + 1));
                assert(s >= SAT_MAX as int + 1) by (nonlinear_arith)
                    requires
                        s >= 0,
                        raw > (SAT_MAX as int + 1) * (SAT_MAX as int + 1),
                        raw < (s + 1) * (s + 1),
                ;
            }
            SAT_MAX
        } else {
            let root = isqrt_u128(s3 + ww);
            proof {
                lemma_sqrt_floor_bounds(qnorm_sq_raw(*self));
            }
            if root > SAT_MAX as u128 {
                SAT_MAX
            } else {
                root as i64
            }
        }
    }

    /// The quaternion rescaled to unit length; a zero quaternion is
    /// returned unchanged.
    pub fn normalize(&self) -> (r: Quatx)
        ensures
            r == qnormalize_s(*self),
    {
        let n = self.length();
        if n == 0 {
            *self
        } else {
            Quatx {
                x: fx_div(self.x, n),
                y: fx_div(self.y, n),
                z: fx_div(self.z, n),
                w: fx_div(self.w, n),
            }
        }
    }
}

} // verus!
