//! Force clearing, gravity, and the semi-implicit Euler integrator.

use vstd::prelude::*;
use vstd::pervasive::VecAdditionalExecFns;

use crate::body::{angular_velocity_s, body_to_world_s, velocity_s, BodyEntry, RigidBody,
    Transform};
use crate::fx::{div_fx, fx_add, fx_div, fx_div_count, fx_mul, mul_fx, sat64, sat_add, div_trunc,
    HALF};
use crate::quat::{qmul_s, qnormalize_s, Quatx};
use crate::settings::{settings_wf, IntergrationMethod, SettingsResource};
use crate::vec3::{vadd_s, vcross_s, vscale_s, vsub_s, vzero, Vec3x};

verus! {

/// A body with its force and torque accumulators reset.
pub open spec fn cleared_s(e: BodyEntry) -> BodyEntry {
    BodyEntry {
        transform: e.transform,
        rigid_body: RigidBody { force: vzero(), torque: vzero(), ..e.rigid_body },
    }
}

/// Resets every body's force and torque accumulators to zero, whatever
/// they held; everything else is untouched.  This runs exactly once at
/// the start of each tick, before any force is applied.
pub fn clean_forces_and_torque(bodies: &mut Vec<BodyEntry>)
    ensures
        final(bodies)@.len() == old(bodies)@.len(),
        forall|i: int|
            0 <= i < old(bodies)@.len() ==> final(bodies)@[i] == cleared_s(old(bodies)@[i]),
        forall|i: int|
            0 <= i < old(bodies)@.len() ==> (#[trigger] final(bodies)@[i]).rigid_body.force
                == vzero() && final(bodies)@[i].rigid_body.torque == vzero(),
{
    let n = bodies.len();
    let mut idx: usize = 0;
    while idx < n
        invariant
            0 <= idx <= n,
            bodies@.len() == n,
            forall|i: int| 0 <= i < idx ==> bodies@[i] == cleared_s(old(bodies)@[i]),
            forall|i: int| idx <= i < n ==> bodies@[i] == old(bodies)@[i],
        decreases n - idx,
    {
        let e = bodies[idx];
        bodies.set(
            idx,
            BodyEntry {
                transform: e.transform,
                rigid_body: RigidBody {
                    force: Vec3x::zero(),
                    torque: Vec3x::zero(),
                    ..e.rigid_body
                },
            },
        );
        idx = idx + 1;
    }
}

/// A body after gravity acts on it: a finite-mass body accumulates its
/// weight at its center (so no torque beyond the rotated zero offset); an
/// immovable body is untouched.
pub open spec fn gravity_one_s(e: BodyEntry, g: Vec3x) -> BodyEntry {
    if e.rigid_body.mass == 0 {
        e
    } else {
        let weight = vscale_s(g, e.rigid_body.mass as int);
        let application = body_to_world_s(e.transform, vzero());
        BodyEntry {
            transform: e.transform,
            rigid_body: RigidBody {
                force: vadd_s(e.rigid_body.force, weight),
                torque: vadd_s(
                    e.rigid_body.torque,
                    vcross_s(vsub_s(application, e.transform.translation), weight),
                ),
                ..e.rigid_body
            },
        }
    }
}

/// Applies the configured gravity to every finite-mass body, as a force
/// of the body's weight at its center.
pub fn gravity(bodies: &mut Vec<BodyEntry>, settings: &SettingsResource)
    ensures
        final(bodies)@.len() == old(bodies)@.len(),
        forall|i: int|
            0 <= i < old(bodies)@.len() ==> final(bodies)@[i] == gravity_one_s(
                old(bodies)@[i],
                settings.gravity_vector,
            ),
{
    let n = bodies.len();
    let mut idx: usize = 0;
    while idx < n
        invariant
            0 <= idx <= n,
            bodies@.len() == n,
            forall|i: int|
                0 <= i < idx ==> bodies@[i] == gravity_one_s(
                    old(bodies)@[i],
                    settings.gravity_vector,
                ),
            forall|i: int| idx <= i < n ==> bodies@[i] == old(bodies)@[i],
        decreases n - idx,
    {
        let e = bodies[idx];
        if e.rigid_body.mass != 0 {
            let weight = settings.gravity_vector.scale(e.rigid_body.mass);
            let mut rb = e.rigid_body;
            rb.apply_force_body_coords(Vec3x::zero(), weight, &e.transform);
            bodies.set(idx, BodyEntry { transform: e.transform, rigid_body: rb });
        }
        idx = idx + 1;
    }
}

/// The strategy tag for the semi-implicit Euler integrator.
pub struct EulerSolver {}

/// The quaternion the integrator is about to renormalize when it advances
/// a spinning body: the renormalized old orientation plus half the
/// quaternion derivative times the step.
pub open spec fn euler_pre_quat_s(e: BodyEntry, dt: int) -> Quatx {
    let rb = e.rigid_body;
    let t = e.transform;
    let translation = vadd_s(t.translation, vscale_s(velocity_s(rb), dt));
    let q0 = qnormalize_s(t.rotation);
    let omega = angular_velocity_s(rb, Transform { translation, rotation: q0 });
    let qomega = Quatx { x: omega.x, y: omega.y, z: omega.z, w: 0 };
    let qdot = qmul_s(qomega, q0);
    Quatx {
        x: sat_add(q0.x as int, mul_fx(mul_fx(qdot.x as int, dt), HALF as int)) as i64,
        y: sat_add(q0.y as int, mul_fx(mul_fx(qdot.y as int, dt), HALF as int)) as i64,
        z: sat_add(q0.z as int, mul_fx(mul_fx(qdot.z as int, dt), HALF as int)) as i64,
        w: sat_add(q0.w as int, mul_fx(mul_fx(qdot.w as int, dt), HALF as int)) as i64,
    }
}

/// One Euler substep of one body.
///
/// The position advances by the pre-step velocity, then — when the body
/// spins — the orientation is renormalized, advanced by half the
/// quaternion derivative times the step, and renormalized again; last,
/// momentum and angular momentum absorb the accumulated force and
/// torque.  An immovable body is untouched.
#[verifier::opaque]
pub open spec fn euler_step_s(e: BodyEntry, dt: int) -> BodyEntry {
    if e.rigid_body.mass == 0 {
        e
    } else {
        let rb = e.rigid_body;
        let t = e.transform;
        let translation = vadd_s(t.translation, vscale_s(velocity_s(rb), dt));
        let rotation = if rb.angular_momentum == vzero() {
            t.rotation
        } else {
            qnormalize_s(euler_pre_quat_s(e, dt))
        };
        BodyEntry {
            transform: Transform { translation, rotation },
            rigid_body: RigidBody {
                pulse: vadd_s(rb.pulse, vscale_s(rb.force, dt)),
                angular_momentum: vadd_s(rb.angular_momentum, vscale_s(rb.torque, dt)),
                ..rb
            },
        }
    }
}

impl EulerSolver {
    /// Advances one body by one substep of length `dt`.
    pub fn step(&self, entry: &mut BodyEntry, dt: i64)
        ensures
            *final(entry) == euler_step_s(*old(entry), dt as int),
    {
        proof {
            reveal(euler_step_s);
        }
        if entry.rigid_body.mass == 0 {
            return ;
        }
        let rb = entry.rigid_body;
        let translation = entry.transform.translation.add(&rb.get_velocity().scale(dt));
        entry.transform.translation = translation;
        if !rb.angular_momentum.is_zero() {
            let q0 = entry.transform.rotation.normalize();
            entry.transform.rotation = q0;
            let omega = rb.get_angular_velocity(&entry.transform);
            let qomega = Quatx { x: omega.x, y: omega.y, z: omega.z, w: 0 };
            let qdot = qomega.mul_quat(&q0);
            let q1 = Quatx {
                x: fx_add(q0.x, fx_mul(fx_mul(qdot.x, dt), HALF)),
                y: fx_add(q0.y, fx_mul(fx_mul(qdot.y, dt), HALF)),
                z: fx_add(q0.z, fx_mul(fx_mul(qdot.z, dt), HALF)),
                w: fx_add(q0.w, fx_mul(fx_mul(qdot.w, dt), HALF)),
            };
            entry.transform.rotation = q1.normalize();
        }
        entry.rigid_body.pulse = rb.pulse.add(&rb.force.scale(dt));
        entry.rigid_body.angular_momentum = rb.angular_momentum.add(&rb.torque.scale(dt));
    }
}

/// The substep length: the tick scaled by the time-dilation divisor,
/// then split over the integration substeps.
pub open spec fn integration_dt_s(dt: int, settings: SettingsResource) -> int {
    sat64(div_trunc(div_fx(dt, settings.slow_motion_koef as int), settings.integration_substeps as int))
}

/// Every body advanced by one substep.
pub open spec fn integrate_pass_s(bodies: Seq<BodyEntry>, dt_sub: int) -> Seq<BodyEntry> {
    bodies.map(|i: int, e: BodyEntry| euler_step_s(e, dt_sub))
}

/// Every body advanced by `m` substeps.
pub open spec fn integrate_rounds_s(bodies: Seq<BodyEntry>, dt_sub: int, m: nat) -> Seq<BodyEntry>
    decreases m,
{
    if m == 0 {
        bodies
    } else {
        integrate_pass_s(integrate_rounds_s(bodies, dt_sub, (m - 1) as nat), dt_sub)
    }
}

/// Advances every body through the configured number of integration
/// substeps, using the configured scheme (today: semi-implicit Euler).
pub fn step_in_simulation(bodies: &mut Vec<BodyEntry>, settings: &SettingsResource, dt: i64)
    requires
        settings_wf(*settings),
    ensures
        final(bodies)@.len() == old(bodies)@.len(),
        final(bodies)@ == integrate_rounds_s(
            old(bodies)@,
            integration_dt_s(dt as int, *settings),
            settings.integration_substeps as nat,
        ),
{
    let solver = match settings.method {
        IntergrationMethod::EulerMethod => EulerSolver {  },
    };
    let substeps = settings.integration_substeps;
    let dt_sub = fx_div_count(fx_div(dt, settings.slow_motion_koef), substeps);
    let n = bodies.len();
    let ghost bodies0 = bodies@;
    let mut round: usize = 0;
    while round < substeps
        invariant
            0 <= round <= substeps,
            bodies@.len() == n,
            bodies@ == integrate_rounds_s(bodies0, dt_sub as int, round as nat),
        decreases substeps - round,
    {
        let ghost before = bodies@;
        let mut idx: usize = 0;
        while idx < n
            invariant
                0 <= idx <= n,
                bodies@.len() == n,
                before.len() == n,
                forall|i: int| 0 <= i < idx ==> bodies@[i] == euler_step_s(before[i], dt_sub as int),
                forall|i: int| idx <= i < n ==> bodies@[i] == before[i],
            decreases n - idx,
        {
            let mut e = bodies[idx];
            solver.step(&mut e, dt_sub);
            bodies.set(idx, e);
            idx = idx + 1;
        }
        proof {
            assert(bodies@ =~= integrate_pass_s(before, dt_sub as int));
        }
        round = round + 1;
    }
}

/// The error the tick reports: the first refused reference, checking the
/// springs, then the range-distance, pulley, fixed-length and upper-bound
/// constraints, in the order the tick runs them.
pub open spec fn tick_error_s(
    springs: Seq<crate::springs::Spring>,
    dcs: Seq<crate::constraint::distance::DistanceConstraint>,
    pcs: Seq<crate::constraint::pulley::PulleyConstraint>,
    fcs: Seq<crate::constraint::fixed_length::FixedLengthConstraint>,
    lcs: Seq<crate::constraint::leq_length::LowerThanOrEqualLengthConstraint>,
    n: nat,
) -> Option<crate::SimError> {
    match crate::springs::springs_error(springs, n) {
        Some(e) => Some(e),
        None => match crate::constraint::distance::distance_refs_error(dcs, n) {
            Some(e) => Some(e),
            None => match crate::constraint::pulley::pulley_refs_error(pcs, n) {
                Some(e) => Some(e),
                None => match crate::constraint::fixed_length::fixed_refs_error(fcs, n) {
                    Some(e) => Some(e),
                    None => crate::constraint::leq_length::leq_refs_error(lcs, n),
                },
            },
        },
    }
}

/// Every body with its accumulators cleared.
pub open spec fn clear_all_s(bodies: Seq<BodyEntry>) -> Seq<BodyEntry> {
    bodies.map(|i: int, e: BodyEntry| cleared_s(e))
}

/// Every body after gravity acts on it.
pub open spec fn gravity_all_s(bodies: Seq<BodyEntry>, g: Vec3x) -> Seq<BodyEntry> {
    bodies.map(|i: int, e: BodyEntry| gravity_one_s(e, g))
}

/// One whole tick: accumulators cleared, gravity and spring forces
/// applied, the four constraint kinds solved, and every body integrated.
pub open spec fn tick_s(
    bodies: Seq<BodyEntry>,
    springs: Seq<crate::springs::Spring>,
    dcs: Seq<crate::constraint::distance::DistanceConstraint>,
    pcs: Seq<crate::constraint::pulley::PulleyConstraint>,
    fcs: Seq<crate::constraint::fixed_length::FixedLengthConstraint>,
    lcs: Seq<crate::constraint::leq_length::LowerThanOrEqualLengthConstraint>,
    settings: SettingsResource,
    dt: int,
) -> Seq<BodyEntry> {
    let bias = crate::constraint::distance::constraint_bias_koef_s(dt, settings);
    let rounds = settings.constraints_substeps as nat;
    let after_forces = crate::springs::apply_springs_prefix_s(
        gravity_all_s(clear_all_s(bodies), settings.gravity_vector),
        springs,
        springs.len() as int,
    );
    let after_distance = crate::constraint::distance::distance_rounds_s(
        after_forces,
        dcs,
        bias,
        rounds,
    );
    let after_pulley = crate::constraint::pulley::pulley_rounds_s(after_distance, pcs, bias, rounds);
    let after_fixed = crate::constraint::fixed_length::fixed_rounds_s(after_pulley, fcs, bias, rounds);
    let after_leq = crate::constraint::leq_length::leq_rounds_s(after_fixed, lcs, bias, rounds);
    integrate_rounds_s(
        after_leq,
        integration_dt_s(dt, settings),
        settings.integration_substeps as nat,
    )
}

/// Runs one fixed-order simulation tick: clear accumulators, apply
/// gravity and spring forces, solve the constraints, then integrate.
///
/// Every body handle of every spring and constraint is checked first, so
/// a refused handle stops the tick before any body changes.
pub fn tick(
    bodies: &mut Vec<BodyEntry>,
    springs: &Vec<crate::springs::Spring>,
    distance_constraints: &Vec<crate::constraint::distance::DistanceConstraint>,
    pulley_constraints: &Vec<crate::constraint::pulley::PulleyConstraint>,
    fixed_length_constraints: &Vec<crate::constraint::fixed_length::FixedLengthConstraint>,
    leq_length_constraints: &Vec<crate::constraint::leq_length::LowerThanOrEqualLengthConstraint>,
    settings: &SettingsResource,
    dt: i64,
) -> (r: Result<(), crate::SimError>)
    requires
        settings_wf(*settings),
    ensures
        final(bodies)@.len() == old(bodies)@.len(),
        r is Ok <==> tick_error_s(
            springs@,
            distance_constraints@,
            pulley_constraints@,
            fixed_length_constraints@,
            leq_length_constraints@,
            old(bodies)@.len() as nat,
        ) is None,
        r is Err ==> Some(r->Err_0) == tick_error_s(
            springs@,
            distance_constraints@,
            pulley_constraints@,
            fixed_length_constraints@,
            leq_length_constraints@,
            old(bodies)@.len() as nat,
        ) && final(bodies)@ == old(bodies)@,
        r is Ok ==> final(bodies)@ == tick_s(
            old(bodies)@,
            springs@,
            distance_constraints@,
            pulley_constraints@,
            fixed_length_constraints@,
            leq_length_constraints@,
            *settings,
            dt as int,
        ),
{
    let n = bodies.len();
    if let Some(e) = crate::springs::check_spring_refs(springs, n) {
        return Err(e);
    }
    if let Some(e) = crate::constraint::distance::check_distance_refs(distance_constraints, n) {
        return Err(e);
    }
    if let Some(e) = crate::constraint::pulley::check_pulley_refs(pulley_constraints, n) {
        return Err(e);
    }
    if let Some(e) = crate::constraint::fixed_length::check_fixed_refs(fixed_length_constraints, n) {
        return Err(e);
    }
    if let Some(e) = crate::constraint::leq_length::check_leq_refs(leq_length_constraints, n) {
        return Err(e);
    }
    clean_forces_and_torque(bodies);
    proof {
        assert(bodies@ =~= clear_all_s(old(bodies)@));
    }
    gravity(bodies, settings);
    proof {
        assert(bodies@ =~= gravity_all_s(clear_all_s(old(bodies)@), settings.gravity_vector));
    }
    match crate::springs::handle_spring_forces(springs, bodies) {
        Ok(()) => (),
        Err(_) => {
            return vstd::pervasive::unreached();
        },
    }
    match crate::constraint::distance::solve_distance_constraints(
        distance_constraints,
        bodies,
        settings,
        dt,
    ) {
        Ok(()) => (),
        Err(_) => {
            return vstd::pervasive::unreached();
        },
    }
    match crate::constraint::pulley::solve_pulley_constraints(
        pulley_constraints,
        bodies,
        settings,
        dt,
    ) {
        Ok(()) => (),
        Err(_) => {
            return vstd::pervasive::unreached();
        },
    }
    match crate::constraint::fixed_length::handle_fixed_length_constraints(
        fixed_length_constraints,
        bodies,
        settings,
        dt,
    ) {
        Ok(()) => (),
        Err(_) => {
            return vstd::pervasive::unreached();
        },
    }
    match crate::constraint::leq_length::handle_leq_length_constraints(
        leq_length_constraints,
        bodies,
        settings,
        dt,
    ) {
        Ok(()) => (),
        Err(_) => {
            return vstd::pervasive::unreached();
        },
    }
    step_in_simulation(bodies, settings, dt);
    Ok(())
}

} // verus!
