//! Per-body physical state and coordinate-frame transforms.

use vstd::prelude::*;

use crate::fx::{div_fx, fx_add, fx_div, fx_mul, mul_fx, sat_add, HALF, SCALE};
use crate::mat3::{mdet_s, mdiag_s, mfrom_quat_s, minverse_s, mmul_s, mmul_vec_s, mtranspose_s,
    mzero, Mat3x};
use crate::quat::{qconj_s, qident, qrotate_s, Quatx};
use crate::vec3::{vadd_s, vcross_s, vdiv_s, vdot_s, vlen_s, vsub_s, vzero, Vec3x};
use crate::SimError;

verus! {

/// Position and orientation of a body in world coordinates.
#[derive(Clone, Copy, PartialEq, Eq, Structural, Debug)]
pub struct Transform {
    pub translation: Vec3x,
    pub rotation: Quatx,
}

/// A point in body coordinates, carried into world coordinates.
pub open spec fn body_to_world_s(t: Transform, p: Vec3x) -> Vec3x {
    vadd_s(t.translation, qrotate_s(t.rotation, p))
}

/// A point in world coordinates, carried into body coordinates by the
/// inverse rotation.
pub open spec fn world_to_body_s(t: Transform, p: Vec3x) -> Vec3x {
    qrotate_s(qconj_s(t.rotation), vsub_s(p, t.translation))
}

impl Transform {
    /// The transform at the given position with the identity orientation.
    pub fn from_translation(translation: Vec3x) -> (r: Transform)
        ensures
            r == (Transform { translation, rotation: qident() }),
    {
        Transform { translation, rotation: Quatx::identity() }
    }
}

/// A marker for entities that take part in the simulation; it carries the
/// coordinate-frame conversions.
#[derive(Clone, Copy, PartialEq, Eq, Structural, Debug, Default)]
pub struct Body;

impl Body {
    /// Converts a point in body coordinates to world coordinates.
    pub fn body_to_world_coordinates(&self, body_coordinates: Vec3x, transform: &Transform) -> (r:
        Vec3x)
        ensures
            r == body_to_world_s(*transform, body_coordinates),
    {
        transform.translation.add(&transform.rotation.rotate(&body_coordinates))
    }

    /// Converts a point in world coordinates to body coordinates.
    pub fn world_to_body_coordinates(&self, world_coordinates: Vec3x, transform: &Transform) -> (r:
        Vec3x)
        ensures
            r == world_to_body_s(*transform, world_coordinates),
    {
        transform.rotation.conjugate().rotate(&world_coordinates.sub(&transform.translation))
    }
}

/// Dynamic state of one body.
///
/// `mass` is a fixed-point scalar; zero is the sentinel for an immovable
/// (infinite-mass) body, whose inverse mass and inverse inertia are taken
/// as zero in every formula so that it never responds to forces or
/// impulses.
#[derive(Clone, Copy, PartialEq, Eq, Structural, Debug)]
pub struct RigidBody {
    /// Mass of the body; zero means immovable.
    pub mass: i64,
    /// Inertia tensor of the body in body coordinates.
    pub intertia_tensor_body: Mat3x,
    /// Linear momentum of the body in world coordinates.
    pub pulse: Vec3x,
    /// Angular momentum of the body in world coordinates.
    pub angular_momentum: Vec3x,
    /// Total external force acting on the body in world coordinates.
    pub force: Vec3x,
    /// Total external torque acting on the body in world coordinates.
    pub torque: Vec3x,
    /// Inverse of the body-space inertia tensor.
    pub intertia_tensor_body_inv: Mat3x,
}

/// True for the immovable sentinel.
pub open spec fn is_static(rb: RigidBody) -> bool {
    rb.mass == 0
}

/// Linear velocity: momentum over mass; an immovable body never moves.
pub open spec fn velocity_s(rb: RigidBody) -> Vec3x {
    if rb.mass == 0 {
        vzero()
    } else {
        vdiv_s(rb.pulse, rb.mass as int)
    }
}

/// Inverse mass; zero for an immovable body.
pub open spec fn inv_mass_s(rb: RigidBody) -> int {
    if rb.mass == 0 {
        0
    } else {
        div_fx(SCALE as int, rb.mass as int)
    }
}

/// World-space inertia tensor `R * I * R^T`.
pub open spec fn inertia_world_s(rb: RigidBody, t: Transform) -> Mat3x {
    let r = mfrom_quat_s(t.rotation);
    mmul_s(mmul_s(r, rb.intertia_tensor_body), mtranspose_s(r))
}

/// World-space inverse inertia tensor `R * I^-1 * R^T`; the zero matrix
/// for an immovable body.
pub open spec fn inertia_world_inv_s(rb: RigidBody, t: Transform) -> Mat3x {
    if rb.mass == 0 {
        mzero()
    } else {
        let r = mfrom_quat_s(t.rotation);
        mmul_s(mmul_s(r, rb.intertia_tensor_body_inv), mtranspose_s(r))
    }
}

/// Angular velocity: the world inverse inertia applied to the angular
/// momentum.
pub open spec fn angular_velocity_s(rb: RigidBody, t: Transform) -> Vec3x {
    mmul_vec_s(inertia_world_inv_s(rb, t), rb.angular_momentum)
}

/// Velocity of a world-space point rigidly attached to the body.
pub open spec fn particle_velocity_s(rb: RigidBody, t: Transform, p: Vec3x) -> Vec3x {
    vadd_s(velocity_s(rb), vcross_s(angular_velocity_s(rb, t), vsub_s(p, t.translation)))
}

/// Kinetic energy: half the squared momentum over the mass plus half the
/// angular momentum against the angular velocity.
pub open spec fn keenetic_energy_s(rb: RigidBody, t: Transform) -> int {
    let linear = div_fx(mul_fx(HALF as int, vdot_s(rb.pulse, rb.pulse)), rb.mass as int);
    let angular = mul_fx(HALF as int, vdot_s(rb.angular_momentum, angular_velocity_s(rb, t)));
    sat_add(angular, linear)
}

/// Potential energy in the given gravity field: height times mass times
/// the field strength.
pub open spec fn potential_energy_s(rb: RigidBody, t: Transform, gravity: Vec3x) -> int {
    mul_fx(mul_fx(t.translation.y as int, rb.mass as int), vlen_s(gravity))
}

/// Total energy of the body.
pub open spec fn energy_s(rb: RigidBody, t: Transform, gravity: Vec3x) -> int {
    sat_add(potential_energy_s(rb, t, gravity), keenetic_energy_s(rb, t))
}

/// The state `RigidBody::default` builds: a unit-mass body at rest with
/// the inertia tensor of a cube of edge two.
pub open spec fn default_rigid_body_s() -> RigidBody {
    let c = div_fx(
        mul_fx(mul_fx(SCALE as int, 2 * SCALE as int), 2 * SCALE as int),
        6 * SCALE as int,
    );
    RigidBody {
        mass: SCALE as i64,
        intertia_tensor_body: mdiag_s(c, c, c),
        pulse: vzero(),
        angular_momentum: vzero(),
        force: vzero(),
        torque: vzero(),
        intertia_tensor_body_inv: minverse_s(mdiag_s(c, c, c)),
    }
}

impl Default for RigidBody {
    /// A unit-mass body at rest with the inertia tensor of a cube of edge
    /// two.
    fn default() -> (r: RigidBody)
        ensures
            r == default_rigid_body_s(),
    {
        let mass: i64 = SCALE;
        let size: i64 = 2 * SCALE;
        let c = fx_div(fx_mul(fx_mul(mass, size), size), 6 * SCALE);
        let tensor = Mat3x::diagonal(c, c, c);
        proof {
            crate::fx::lemma_div_trunc_eval(2_000_000_000_000, 1_000_000, 2_000_000, 0);
            crate::fx::lemma_div_trunc_eval(4_000_000_000_000, 1_000_000, 4_000_000, 0);
            crate::fx::lemma_div_trunc_eval(4_000_000_000_000, 6_000_000, 666_666, 4_000_000);
            assert(c as int == 666_666);
            crate::fx::lemma_div_trunc_eval(444_443_555_556, 1_000_000, 444_443, 555_556);
            assert(mul_fx(666_666, 666_666) == 444_443);
            crate::fx::lemma_div_trunc_eval(296_295_037_038, 1_000_000, 296_295, 37_038);
            assert(mul_fx(666_666, 444_443) == 296_295);
            crate::fx::lemma_div_trunc_eval(0, 1_000_000, 0, 0);
            assert(mdet_s(mdiag_s(c as int, c as int, c as int)) == 296_295);
        }
        match RigidBody::new(mass, tensor, Vec3x::zero(), Vec3x::zero()) {
            Ok(rb) => rb,
            Err(_) => vstd::pervasive::unreached(),
        }
    }
}

impl RigidBody {
    /// Creates a body with the given inertia tensor, mass, momentum and
    /// angular momentum.  A finite-mass body with a singular inertia
    /// tensor is refused: the kernel will not run with non-invertible
    /// inertia.
    pub fn new(mass: i64, intertia_tensor_body: Mat3x, pulse: Vec3x, angular_momentum: Vec3x) -> (r:
        Result<RigidBody, SimError>)
        requires
            mass >= 0,
        ensures
            r is Ok <==> (mass == 0 || mdet_s(intertia_tensor_body) != 0),
            r is Err ==> r->Err_0 == SimError::SingularInertiaTensor,
            r is Ok ==> r->Ok_0 == (RigidBody {
                mass,
                intertia_tensor_body,
                pulse,
                angular_momentum,
                force: vzero(),
                torque: vzero(),
                intertia_tensor_body_inv: if mass == 0 {
                    mzero()
                } else {
                    minverse_s(intertia_tensor_body)
                },
            }),
    {
        if mass == 0 {
            Ok(
                RigidBody {
                    mass,
                    intertia_tensor_body,
                    pulse,
                    angular_momentum,
                    force: Vec3x::zero(),
                    torque: Vec3x::zero(),
                    intertia_tensor_body_inv: Mat3x::zero(),
                },
            )
        } else {
            match intertia_tensor_body.inverse() {
                Some(inv) => Ok(
                    RigidBody {
                        mass,
                        intertia_tensor_body,
                        pulse,
                        angular_momentum,
                        force: Vec3x::zero(),
                        torque: Vec3x::zero(),
                        intertia_tensor_body_inv: inv,
                    },
                ),
                None => Err(SimError::SingularInertiaTensor),
            }
        }
    }

    /// Creates a body with the inertia tensor of a box with the given
    /// edge lengths.
    pub fn new_box(
        mass: i64,
        x_length: i64,
        y_length: i64,
        z_length: i64,
        pulse: Vec3x,
        angular_momentum: Vec3x,
    ) -> (r: Result<RigidBody, SimError>)
        requires
            mass >= 0,
        ensures
            r is Ok <==> (mass == 0 || mdet_s(box_inertia_s(x_length, y_length, z_length)) != 0),
            r is Err ==> r->Err_0 == SimError::SingularInertiaTensor,
            r is Ok ==> r->Ok_0 == (RigidBody {
                mass,
                intertia_tensor_body: box_inertia_s(x_length, y_length, z_length),
                pulse,
                angular_momentum,
                force: vzero(),
                torque: vzero(),
                intertia_tensor_body_inv: if mass == 0 {
                    mzero()
                } else {
                    minverse_s(box_inertia_s(x_length, y_length, z_length))
                },
            }),
    {
        let a = fx_add(fx_mul(y_length, y_length), fx_mul(z_length, z_length));
        let b = fx_add(fx_mul(x_length, x_length), fx_mul(z_length, z_length));
        let c = fx_add(fx_mul(x_length, x_length), fx_mul(y_length, y_length));
        RigidBody::new(mass, Mat3x::diagonal(a, b, c), pulse, angular_momentum)
    }

    /// Creates a body with the inertia tensor of a solid sphere of the
    /// given radius.
    pub fn new_sphere(mass: i64, r: i64, pulse: Vec3x, angular_momentum: Vec3x) -> (res: Result<
        RigidBody,
        SimError,
    >)
        requires
            mass >= 0,
        ensures
            res is Ok <==> (mass == 0 || mdet_s(sphere_inertia_s(mass as int, r as int)) != 0),
            res is Err ==> res->Err_0 == SimError::SingularInertiaTensor,
            res is Ok ==> res->Ok_0 == (RigidBody {
                mass,
                intertia_tensor_body: sphere_inertia_s(mass as int, r as int),
                pulse,
                angular_momentum,
                force: vzero(),
                torque: vzero(),
                intertia_tensor_body_inv: if mass == 0 {
                    mzero()
                } else {
                    minverse_s(sphere_inertia_s(mass as int, r as int))
                },
            }),
    {
        let c = fx_mul(fx_mul(TWO_FIFTHS, mass), fx_mul(r, r));
        RigidBody::new(mass, Mat3x::diagonal(c, c, c), pulse, angular_momentum)
    }

    /// Linear velocity; an immovable body reports zero.
    pub fn get_velocity(&self) -> (r: Vec3x)
        ensures
            r == velocity_s(*self),
    {
        if self.mass == 0 {
            Vec3x::zero()
        } else {
            self.pulse.div_scalar(self.mass)
        }
    }

    /// Applies a force given in world coordinates at a world-space
    /// application point: the force accumulates, and its moment about the
    /// body center accumulates as torque.
    pub fn apply_force(
        &mut self,
        transform: &Transform,
        application_point_world: Vec3x,
        force: Vec3x,
    )
        ensures
            final(self).force == vadd_s(old(self).force, force),
            final(self).torque == vadd_s(
                old(self).torque,
                vcross_s(vsub_s(application_point_world, transform.translation), force),
            ),
            final(self).mass == old(self).mass,
            final(self).intertia_tensor_body == old(self).intertia_tensor_body,
            final(self).pulse == old(self).pulse,
            final(self).angular_momentum == old(self).angular_momentum,
            final(self).intertia_tensor_body_inv == old(self).intertia_tensor_body_inv,
    {
        self.force = self.force.add(&force);
        self.torque = self.torque.add(
            &application_point_world.sub(&transform.translation).cross(&force),
        );
    }

    /// Applies a force given in world coordinates at an application point
    /// given in body coordinates.
    pub fn apply_force_body_coords(
        &mut self,
        application_point_body: Vec3x,
        force: Vec3x,
        transform: &Transform,
    )
        ensures
            final(self).force == vadd_s(old(self).force, force),
            final(self).torque == vadd_s(
                old(self).torque,
                vcross_s(
                    vsub_s(
                        body_to_world_s(*transform, application_point_body),
                        transform.translation,
                    ),
                    force,
                ),
            ),
            final(self).mass == old(self).mass,
            final(self).intertia_tensor_body == old(self).intertia_tensor_body,
            final(self).pulse == old(self).pulse,
            final(self).angular_momentum == old(self).angular_momentum,
            final(self).intertia_tensor_body_inv == old(self).intertia_tensor_body_inv,
    {
        let application_point_world = Body.body_to_world_coordinates(
            application_point_body,
            transform,
        );
        self.apply_force(transform, application_point_world, force)
    }

    /// Kinetic energy of the body.
    pub fn compute_keenetic_energy(&self, transform: &Transform) -> (r: i64)
        ensures
            r as int == keenetic_energy_s(*self, *transform),
    {
        let linear = fx_div(fx_mul(HALF, self.pulse.dot(&self.pulse)), self.mass);
        let omega = self.get_angular_velocity(transform);
        let angular = fx_mul(HALF, self.angular_momentum.dot(&omega));
        fx_add(angular, linear)
    }

    /// Potential energy of the body in the given gravity field.
    pub fn compute_potential_energy(&self, transform: &Transform, gravity: Vec3x) -> (r: i64)
        ensures
            r as int == potential_energy_s(*self, *transform, gravity),
    {
        fx_mul(fx_mul(transform.translation.y, self.mass), gravity.length())
    }

    /// Total energy of the body.
    pub fn compute_energy(&self, transform: &Transform, gravity: Vec3x) -> (r: i64)
        ensures
            r as int == energy_s(*self, *transform, gravity),
    {
        fx_add(
            self.compute_potential_energy(transform, gravity),
            self.compute_keenetic_energy(transform),
        )
    }

    /// Velocity of a particle of the body given in world coordinates: the
    /// linear velocity plus the angular velocity's contribution.
    pub fn get_particle_velocity(&self, particle: Vec3x, transform: &Transform) -> (r: Vec3x)
        ensures
            r == particle_velocity_s(*self, *transform, particle),
    {
        let angular_velocity = self.get_angular_velocity(transform);
        self.get_velocity().add(&angular_velocity.cross(&particle.sub(&transform.translation)))
    }

    /// Angular velocity of the body.
    pub fn get_angular_velocity(&self, transform: &Transform) -> (r: Vec3x)
        ensures
            r == angular_velocity_s(*self, *transform),
    {
        self.get_inertia_tensor_inv(transform).mul_vec(&self.angular_momentum)
    }

    /// World-space inertia tensor.
    pub fn get_inertia_tensor(&self, transform: &Transform) -> (r: Mat3x)
        ensures
            r == inertia_world_s(*self, *transform),
    {
        let r_mat = Mat3x::from_quat(&transform.rotation);
        r_mat.mul_mat(&self.intertia_tensor_body).mul_mat(&r_mat.transpose())
    }

    /// World-space inverse inertia tensor; zero for an immovable body.
    pub fn get_inertia_tensor_inv(&self, transform: &Transform) -> (r: Mat3x)
        ensures
            r == inertia_world_inv_s(*self, *transform),
    {
        if self.mass == 0 {
            Mat3x::zero()
        } else {
            let r_mat = Mat3x::from_quat(&transform.rotation);
            r_mat.mul_mat(&self.intertia_tensor_body_inv).mul_mat(&r_mat.transpose())
        }
    }

    /// Velocity of a particle of the body given in body coordinates.
    pub fn get_particle_body_velocity(&self, particle_body: Vec3x, transform: &Transform) -> (r:
        Vec3x)
        ensures
            r == particle_velocity_s(*self, *transform, body_to_world_s(*transform, particle_body)),
    {
        let particle = Body.body_to_world_coordinates(particle_body, transform);
        self.get_particle_velocity(particle, transform)
    }
}

/// The box inertia tensor used by `new_box`.
pub open spec fn box_inertia_s(x_length: i64, y_length: i64, z_length: i64) -> Mat3x {
    mdiag_s(
        sat_add(mul_fx(y_length as int, y_length as int), mul_fx(z_length as int, z_length as int)),
        sat_add(mul_fx(x_length as int, x_length as int), mul_fx(z_length as int, z_length as int)),
        sat_add(mul_fx(x_length as int, x_length as int), mul_fx(y_length as int, y_length as int)),
    )
}

/// The solid-sphere inertia tensor used by `new_sphere`: two fifths of
/// the mass times the squared radius on the diagonal.
pub open spec fn sphere_inertia_s(mass: int, r: int) -> Mat3x {
    let c = mul_fx(mul_fx(TWO_FIFTHS as int, mass), mul_fx(r, r));
    mdiag_s(c, c, c)
}

/// Two fifths, as a fixed-point scalar.
pub const TWO_FIFTHS: i64 = 400_000;

/// One simulated entity: its frame and its dynamic state.
#[derive(Clone, Copy, PartialEq, Eq, Structural, Debug)]
pub struct BodyEntry {
    pub transform: Transform,
    pub rigid_body: RigidBody,
}

} // verus!
