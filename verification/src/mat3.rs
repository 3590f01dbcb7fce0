//! Column-major 3x3 matrices of fixed-point scalars (inertia tensors and
//! rotation matrices).

use vstd::prelude::*;

use crate::fx::{fx_add, fx_mul, fx_sub, mul_fx, sat_add, sat_sub, SCALE};
use crate::quat::Quatx;
use crate::vec3::{vadd_s, vcross_s, vdiv_s, vdot_s, vscale_s, vzero, Vec3x};

verus! {

/// A matrix given by its three columns.
#[derive(Clone, Copy, PartialEq, Eq, Structural, Debug)]
pub struct Mat3x {
    pub c0: Vec3x,
    pub c1: Vec3x,
    pub c2: Vec3x,
}

/// The zero matrix.
pub open spec fn mzero() -> Mat3x {
    Mat3x { c0: vzero(), c1: vzero(), c2: vzero() }
}

/// The identity matrix.
pub open spec fn mident() -> Mat3x {
    Mat3x {
        c0: Vec3x { x: SCALE as i64, y: 0, z: 0 },
        c1: Vec3x { x: 0, y: SCALE as i64, z: 0 },
        c2: Vec3x { x: 0, y: 0, z: SCALE as i64 },
    }
}

/// The diagonal matrix with the given fixed-point diagonal.
pub open spec fn mdiag_s(a: int, b: int, c: int) -> Mat3x {
    Mat3x {
        c0: Vec3x { x: a as i64, y: 0, z: 0 },
        c1: Vec3x { x: 0, y: b as i64, z: 0 },
        c2: Vec3x { x: 0, y: 0, z: c as i64 },
    }
}

/// Matrix-vector product `m * v` as a combination of the columns.
pub open spec fn mmul_vec_s(m: Mat3x, v: Vec3x) -> Vec3x {
    vadd_s(vadd_s(vscale_s(m.c0, v.x as int), vscale_s(m.c1, v.y as int)), vscale_s(
        m.c2,
        v.z as int,
    ))
}

/// Transpose.
pub open spec fn mtranspose_s(m: Mat3x) -> Mat3x {
    Mat3x {
        c0: Vec3x { x: m.c0.x, y: m.c1.x, z: m.c2.x },
        c1: Vec3x { x: m.c0.y, y: m.c1.y, z: m.c2.y },
        c2: Vec3x { x: m.c0.z, y: m.c1.z, z: m.c2.z },
    }
}

/// Matrix product `a * b`, column by column.
pub open spec fn mmul_s(a: Mat3x, b: Mat3x) -> Mat3x {
    Mat3x { c0: mmul_vec_s(a, b.c0), c1: mmul_vec_s(a, b.c1), c2: mmul_vec_s(a, b.c2) }
}

/// Every entry scaled by a fixed-point factor.
pub open spec fn mscale_s(m: Mat3x, s: int) -> Mat3x {
    Mat3x { c0: vscale_s(m.c0, s), c1: vscale_s(m.c1, s), c2: vscale_s(m.c2, s) }
}

/// Determinant: the triple product of the columns.
pub open spec fn mdet_s(m: Mat3x) -> int {
    vdot_s(m.c0, vcross_s(m.c1, m.c2))
}

/// Inverse by the adjugate, meaningful only when the determinant is not
/// zero.
pub open spec fn minverse_s(m: Mat3x) -> Mat3x {
    let a = vcross_s(m.c1, m.c2);
    let b = vcross_s(m.c2, m.c0);
    let c = vcross_s(m.c0, m.c1);
    let det = mdet_s(m);
    Mat3x {
        c0: vdiv_s(Vec3x { x: a.x, y: b.x, z: c.x }, det),
        c1: vdiv_s(Vec3x { x: a.y, y: b.y, z: c.y }, det),
        c2: vdiv_s(Vec3x { x: a.z, y: b.z, z: c.z }, det),
    }
}

/// The rotation matrix of an orientation (meaningful for unit length).
pub open spec fn mfrom_quat_s(q: Quatx) -> Mat3x {
    let x2 = sat_add(q.x as int, q.x as int);
    let y2 = sat_add(q.y as int, q.y as int);
    let z2 = sat_add(q.z as int, q.z as int);
    let xx = mul_fx(q.x as int, x2);
    let xy = mul_fx(q.x as int, y2);
    let xz = mul_fx(q.x as int, z2);
    let yy = mul_fx(q.y as int, y2);
    let yz = mul_fx(q.y as int, z2);
    let zz = mul_fx(q.z as int, z2);
    let wx = mul_fx(q.w as int, x2);
    let wy = mul_fx(q.w as int, y2);
    let wz = mul_fx(q.w as int, z2);
    Mat3x {
        c0: Vec3x {
            x: sat_sub(SCALE as int, sat_add(yy, zz)) as i64,
            y: sat_add(xy, wz) as i64,
            z: sat_sub(xz, wy) as i64,
        },
        c1: Vec3x {
            x: sat_sub(xy, wz) as i64,
            y: sat_sub(SCALE as int, sat_add(xx, zz)) as i64,
            z: sat_add(yz, wx) as i64,
        },
        c2: Vec3x {
            x: sat_add(xz, wy) as i64,
            y: sat_sub(yz, wx) as i64,
            z: sat_sub(SCALE as int, sat_add(xx, yy)) as i64,
        },
    }
}

impl Mat3x {
    /// The zero matrix.
    pub fn zero() -> (r: Mat3x)
        ensures
            r == mzero(),
    {
        Mat3x { c0: Vec3x::zero(), c1: Vec3x::zero(), c2: Vec3x::zero() }
    }

    /// The identity matrix.
    pub fn identity() -> (r: Mat3x)
        ensures
            r == mident(),
    {
        Mat3x {
            c0: Vec3x { x: SCALE, y: 0, z: 0 },
            c1: Vec3x { x: 0, y: SCALE, z: 0 },
            c2: Vec3x { x: 0, y: 0, z: SCALE },
        }
    }

    /// The diagonal matrix with the given fixed-point diagonal.
    pub fn diagonal(a: i64, b: i64, c: i64) -> (r: Mat3x)
        ensures
            r == mdiag_s(a as int, b as int, c as int),
    {
        Mat3x {
            c0: Vec3x { x: a, y: 0, z: 0 },
            c1: Vec3x { x: 0, y: b, z: 0 },
            c2: Vec3x { x: 0, y: 0, z: c },
        }
    }

    /// Matrix-vector product.
    pub fn mul_vec(&self, v: &Vec3x) -> (r: Vec3x)
        ensures
            r == mmul_vec_s(*self, *v),
    {
        self.c0.scale(v.x).add(&self.c1.scale(v.y)).add(&self.c2.scale(v.z))
    }

    /// Transpose.
    pub fn transpose(&self) -> (r: Mat3x)
        ensures
            r == mtranspose_s(*self),
    {
        Mat3x {
            c0: Vec3x { x: self.c0.x, y: self.c1.x, z: self.c2.x },
            c1: Vec3x { x: self.c0.y, y: self.c1.y, z: self.c2.y },
            c2: Vec3x { x: self.c0.z, y: self.c1.z, z: self.c2.z },
        }
    }

    /// Matrix product.
    pub fn mul_mat(&self, other: &Mat3x) -> (r: Mat3x)
        ensures
            r == mmul_s(*self, *other),
    {
        Mat3x {
            c0: self.mul_vec(&other.c0),
            c1: self.mul_vec(&other.c1),
            c2: self.mul_vec(&other.c2),
        }
    }

    /// Every entry scaled by a fixed-point factor.
    pub fn scale(&self, s: i64) -> (r: Mat3x)
        ensures
            r == mscale_s(*self, s as int),
    {
        Mat3x { c0: self.c0.scale(s), c1: self.c1.scale(s), c2: self.c2.scale(s) }
    }

    /// Determinant.
    pub fn determinant(&self) -> (r: i64)
        ensures
            r as int == mdet_s(*self),
    {
        self.c0.dot(&self.c1.cross(&self.c2))
    }

    /// Inverse by the adjugate; `None` exactly when the determinant is
    /// zero.
    pub fn inverse(&self) -> (r: Option<Mat3x>)
        ensures
            r is Some <==> mdet_s(*self) != 0,
            r is Some ==> r->0 == minverse_s(*self),
    {
        let det = self.determinant();
        if det == 0 {
            None
        } else {
            let a = self.c1.cross(&self.c2);
            let b = self.c2.cross(&self.c0);
            let c = self.c0.cross(&self.c1);
            Some(
                Mat3x {
                    c0: Vec3x { x: a.x, y: b.x, z: c.x }.div_scalar(det),
                    c1: Vec3x { x: a.y, y: b.y, z: c.y }.div_scalar(det),
                    c2: Vec3x { x: a.z, y: b.z, z: c.z }.div_scalar(det),
                },
            )
        }
    }

    /// The rotation matrix of an orientation.
    pub fn from_quat(q: &Quatx) -> (r: Mat3x)
        ensures
            r == mfrom_quat_s(*q),
    {
        let x2 = fx_add(q.x, q.x);
        let y2 = fx_add(q.y, q.y);
        let z2 = fx_add(q.z, q.z);
        let xx = fx_mul(q.x, x2);
        let xy = fx_mul(q.x, y2);
        let xz = fx_mul(q.x, z2);
        let yy = fx_mul(q.y, y2);
        let yz = fx_mul(q.y, z2);
        let zz = fx_mul(q.z, z2);
        let wx = fx_mul(q.w, x2);
        let wy = fx_mul(q.w, y2);
        let wz = fx_mul(q.w, z2);
        Mat3x {
            c0: Vec3x { x: fx_sub(SCALE, fx_add(yy, zz)), y: fx_add(xy, wz), z: fx_sub(xz, wy) },
            c1: Vec3x { x: fx_sub(xy, wz), y: fx_sub(SCALE, fx_add(xx, zz)), z: fx_add(yz, wx) },
            c2: Vec3x { x: fx_add(xz, wy), y: fx_sub(yz, wx), z: fx_sub(SCALE, fx_add(xx, yy)) },
        }
    }
}

} // verus!
