//! Pulley constraints: an inextensible cord runs from one body's
//! attachment point over a fixed pivot to the other body's attachment
//! point; impulses act only while the cord is over-length.

use vstd::prelude::*;
use vstd::pervasive::VecAdditionalExecFns;

use crate::body::{angular_velocity_s, body_to_world_s, inertia_world_inv_s, inv_mass_s,
    velocity_s, Body, BodyEntry, RigidBody};
use crate::fx::{div_fx, fx_add, fx_div, fx_mul, fx_neg, fx_sub, mul_fx, sat_add, sat_neg,
    sat_sub, SCALE};
use crate::settings::{settings_wf, SettingsResource};
use crate::springs::{check_pair, pair_error};
use crate::constraint::distance::{constraint_bias_koef, constraint_bias_koef_s};
use crate::vec3::{vadd_s, vcross_s, vdot_s, vlen_s, vscale_s, vsub_s, Vec3x};
use crate::SimError;

verus! {

/// A cord of total length `max_distance` from the first body's
/// attachment point, over the pivot, to the second body's attachment
/// point.
#[derive(Clone, Copy, PartialEq, Eq, Structural, Debug)]
pub struct PulleyConstraint {
    /// First body.
    pub first_body: usize,
    /// Second body.
    pub second_body: usize,
    /// Attachment point on the first body, in body coordinates.
    pub first_body_offset: Vec3x,
    /// Attachment point on the second body, in body coordinates.
    pub second_body_offset: Vec3x,
    /// Total cord length.
    pub max_distance: i64,
    /// The fixed pivot the cord runs over, in world coordinates.
    pub pulley_position: Vec3x,
}

impl PulleyConstraint {
    /// Builds the constraint.
    pub fn new(
        first_body: usize,
        second_body: usize,
        first_body_offset: Vec3x,
        second_body_offset: Vec3x,
        max_distance: i64,
        pulley_position: Vec3x,
    ) -> (r: PulleyConstraint)
        ensures
            r == (PulleyConstraint {
                first_body,
                second_body,
                first_body_offset,
                second_body_offset,
                max_distance,
                pulley_position,
            }),
    {
        PulleyConstraint {
            first_body,
            second_body,
            first_body_offset,
            second_body_offset,
            max_distance,
            pulley_position,
        }
    }
}

/// The error of the first constraint whose handles are refused, if any.
pub open spec fn pulley_refs_error(cs: Seq<PulleyConstraint>, n: nat) -> Option<SimError>
    decreases cs.len(),
{
    if cs.len() == 0 {
        None
    } else {
        match pair_error(cs[0].first_body, cs[0].second_body, n) {
            Some(e) => Some(e),
            None => pulley_refs_error(cs.drop_first(), n),
        }
    }
}

/// The two bodies' states after one sequential-impulse evaluation of a
/// pulley constraint.
///
/// With `d1` and `d2` the cord segments from the pivot, the constraint is
/// active only while `|d1| + |d2|` exceeds the cord length; the Jacobians
/// are the unnormalized segments themselves, so a longer segment responds
/// more strongly.  A non-positive effective mass (both bodies immovable)
/// is skipped.
#[verifier::opaque]
pub open spec fn pulley_step_s(
    b1: BodyEntry,
    b2: BodyEntry,
    c: PulleyConstraint,
    bias_koef: int,
) -> (RigidBody, RigidBody) {
    let t1 = b1.transform;
    let t2 = b2.transform;
    let rb1 = b1.rigid_body;
    let rb2 = b2.rigid_body;
    let x1 = body_to_world_s(t1, c.first_body_offset);
    let x2 = body_to_world_s(t2, c.second_body_offset);
    let d1 = vsub_s(x1, c.pulley_position);
    let d2 = vsub_s(x2, c.pulley_position);
    let offset = sat_sub(sat_add(vlen_s(d1), vlen_s(d2)), c.max_distance as int);
    if offset <= 0 {
        (rb1, rb2)
    } else {
        let r1 = vsub_s(x1, t1.translation);
        let r2 = vsub_s(x2, t2.translation);
        let j1 = d1;
        let j2 = vcross_s(r1, d1);
        let j3 = d2;
        let j4 = vcross_s(r2, d2);
        let ii1 = inertia_world_inv_s(rb1, t1);
        let ii2 = inertia_world_inv_s(rb2, t2);
        let cmass = sat_add(
            sat_add(
                sat_add(
                    mul_fx(inv_mass_s(rb1), vdot_s(j1, j1)),
                    vdot_s(j2, crate::mat3::mmul_vec_s(ii1, j2)),
                ),
                mul_fx(inv_mass_s(rb2), vdot_s(j3, j3)),
            ),
            vdot_s(j4, crate::mat3::mmul_vec_s(ii2, j4)),
        );
        if cmass <= 0 {
            (rb1, rb2)
        } else {
            let jv = sat_add(
                sat_add(
                    sat_add(
                        vdot_s(j1, velocity_s(rb1)),
                        vdot_s(j2, angular_velocity_s(rb1, t1)),
                    ),
                    vdot_s(j3, velocity_s(rb2)),
                ),
                vdot_s(j4, angular_velocity_s(rb2, t2)),
            );
            let bias = mul_fx(bias_koef, offset);
            let lambda = sat_neg(div_fx(sat_add(jv, bias), cmass));
            let rb1_after = if rb1.mass == 0 {
                rb1
            } else {
                RigidBody {
                    pulse: vadd_s(rb1.pulse, vscale_s(j1, lambda)),
                    angular_momentum: vadd_s(rb1.angular_momentum, vscale_s(j2, lambda)),
                    ..rb1
                }
            };
            let rb2_after = if rb2.mass == 0 {
                rb2
            } else {
                RigidBody {
                    pulse: vadd_s(rb2.pulse, vscale_s(j3, lambda)),
                    angular_momentum: vadd_s(rb2.angular_momentum, vscale_s(j4, lambda)),
                    ..rb2
                }
            };
            (rb1_after, rb2_after)
        }
    }
}

/// The body list after one constraint is evaluated once.
pub open spec fn apply_pulley_s(bodies: Seq<BodyEntry>, c: PulleyConstraint, bias_koef: int) -> Seq<
    BodyEntry,
> {
    let i = c.first_body as int;
    let j = c.second_body as int;
    let pair = pulley_step_s(bodies[i], bodies[j], c, bias_koef);
    bodies.update(i, BodyEntry { transform: bodies[i].transform, rigid_body: pair.0 }).update(
        j,
        BodyEntry { transform: bodies[j].transform, rigid_body: pair.1 },
    )
}

/// The body list after the first `k` constraints are evaluated once each,
/// in order.
pub open spec fn pulley_pass_s(
    bodies: Seq<BodyEntry>,
    cs: Seq<PulleyConstraint>,
    bias_koef: int,
    k: int,
) -> Seq<BodyEntry>
    decreases k,
{
    if k <= 0 {
        bodies
    } else {
        apply_pulley_s(pulley_pass_s(bodies, cs, bias_koef, k - 1), cs[k - 1], bias_koef)
    }
}

/// The body list after `m` Gauss-Seidel rounds over every constraint.
pub open spec fn pulley_rounds_s(
    bodies: Seq<BodyEntry>,
    cs: Seq<PulleyConstraint>,
    bias_koef: int,
    m: nat,
) -> Seq<BodyEntry>
    decreases m,
{
    if m == 0 {
        bodies
    } else {
        pulley_pass_s(
            pulley_rounds_s(bodies, cs, bias_koef, (m - 1) as nat),
            cs,
            bias_koef,
            cs.len() as int,
        )
    }
}

/// The two bodies' states after one evaluation of the constraint.
fn pulley_step_exec(b1: &BodyEntry, b2: &BodyEntry, c: &PulleyConstraint, bias_koef: i64) -> (r: (
    RigidBody,
    RigidBody,
))
    ensures
        r == pulley_step_s(*b1, *b2, *c, bias_koef as int),
{
    proof {
        reveal(pulley_step_s);
    }
    let t1 = b1.transform;
    let t2 = b2.transform;
    let rb1 = b1.rigid_body;
    let rb2 = b2.rigid_body;
    let x1 = Body.body_to_world_coordinates(c.first_body_offset, &t1);
    let x2 = Body.body_to_world_coordinates(c.second_body_offset, &t2);
    let d1 = x1.sub(&c.pulley_position);
    let d2 = x2.sub(&c.pulley_position);
    let offset = fx_sub(fx_add(d1.length(), d2.length()), c.max_distance);
    if offset <= 0 {
        return (rb1, rb2);
    }
    let r1 = x1.sub(&t1.translation);
    let r2 = x2.sub(&t2.translation);
    let j1 = d1;
    let j2 = r1.cross(&d1);
    let j3 = d2;
    let j4 = r2.cross(&d2);
    let im1 = if rb1.mass == 0 {
        0
    } else {
        fx_div(SCALE, rb1.mass)
    };
    let im2 = if rb2.mass == 0 {
        0
    } else {
        fx_div(SCALE, rb2.mass)
    };
    let ii1 = rb1.get_inertia_tensor_inv(&t1);
    let ii2 = rb2.get_inertia_tensor_inv(&t2);
    let cmass = fx_add(
        fx_add(
            fx_add(fx_mul(im1, j1.dot(&j1)), j2.dot(&ii1.mul_vec(&j2))),
            fx_mul(im2, j3.dot(&j3)),
        ),
        j4.dot(&ii2.mul_vec(&j4)),
    );
    if cmass <= 0 {
        return (rb1, rb2);
    }
    let jv = fx_add(
        fx_add(
            fx_add(j1.dot(&rb1.get_velocity()), j2.dot(&rb1.get_angular_velocity(&t1))),
            j3.dot(&rb2.get_velocity()),
        ),
        j4.dot(&rb2.get_angular_velocity(&t2)),
    );
    let bias = fx_mul(bias_koef, offset);
    let lambda = fx_neg(fx_div(fx_add(jv, bias), cmass));
    let rb1_after = if rb1.mass == 0 {
        rb1
    } else {
        RigidBody {
            pulse: rb1.pulse.add(&j1.scale(lambda)),
            angular_momentum: rb1.angular_momentum.add(&j2.scale(lambda)),
            ..rb1
        }
    };
    let rb2_after = if rb2.mass == 0 {
        rb2
    } else {
        RigidBody {
            pulse: rb2.pulse.add(&j3.scale(lambda)),
            angular_momentum: rb2.angular_momentum.add(&j4.scale(lambda)),
            ..rb2
        }
    };
    (rb1_after, rb2_after)
}

/// Walks the constraints and reports the error of the first one whose
/// handles are refused.
pub(crate) fn check_pulley_refs(cs: &Vec<PulleyConstraint>, n: usize) -> (r: Option<SimError>)
    ensures
        r == pulley_refs_error(cs@, n as nat),
{
    proof {
        assert(cs@.skip(0) =~= cs@);
    }
    let mut check: usize = 0;
    while check < cs.len()
        invariant
            0 <= check <= cs@.len(),
            pulley_refs_error(cs@.skip(check as int), n as nat) == pulley_refs_error(cs@, n as nat),
        decreases cs@.len() - check,
    {
        let c = &cs[check];
        if let Some(e) = check_pair(c.first_body, c.second_body, n) {
            proof {
                assert(cs@.skip(check as int)[0] == cs@[check as int]);
            }
            return Some(e);
        }
        proof {
            assert(cs@.skip(check as int)[0] == cs@[check as int]);
            assert(cs@.skip(check as int).drop_first() =~= cs@.skip(check as int + 1));
        }
        check = check + 1;
    }
    proof {
        assert(cs@.skip(cs@.len() as int) =~= Seq::<PulleyConstraint>::empty());
    }
    None
}

/// When no constraint is refused, every pair of handles is sound.
pub(crate) proof fn lemma_pulley_refs_ok(cs: Seq<PulleyConstraint>, n: nat)
    requires
        pulley_refs_error(cs, n) is None,
    ensures
        forall|t: int|
            0 <= t < cs.len() ==> pair_error(#[trigger] cs[t].first_body, cs[t].second_body, n)
                is None,
    decreases cs.len(),
{
    if cs.len() > 0 {
        lemma_pulley_refs_ok(cs.drop_first(), n);
        assert forall|t: int|
            0 <= t < cs.len() implies pair_error(
            #[trigger] cs[t].first_body,
            cs[t].second_body,
            n,
        ) is None by {
            if t > 0 {
                assert(cs.drop_first()[t - 1] == cs[t]);
            }
        }
    }
}

/// Resolves every pulley constraint by sequential impulses, one
/// Gauss-Seidel round per constraint substep.  A constraint with refused
/// handles makes the whole call refuse before any body changes.
pub fn solve_pulley_constraints(
    constraints: &Vec<PulleyConstraint>,
    bodies: &mut Vec<BodyEntry>,
    settings: &SettingsResource,
    dt: i64,
) -> (r: Result<(), SimError>)
    requires
        settings_wf(*settings),
    ensures
        final(bodies)@.len() == old(bodies)@.len(),
        r is Ok <==> pulley_refs_error(constraints@, old(bodies)@.len() as nat) is None,
        r is Err ==> Some(r->Err_0) == pulley_refs_error(constraints@, old(bodies)@.len() as nat)
            && final(bodies)@ == old(bodies)@,
        r is Ok ==> final(bodies)@ == pulley_rounds_s(
            old(bodies)@,
            constraints@,
            constraint_bias_koef_s(dt as int, *settings),
            settings.constraints_substeps as nat,
        ),
{
    let n = bodies.len();
    if let Some(e) = check_pulley_refs(constraints, n) {
        return Err(e);
    }
    proof {
        lemma_pulley_refs_ok(constraints@, n as nat);
    }
    let bias_koef = constraint_bias_koef(dt, settings);
    let rounds = settings.constraints_substeps;
    let ghost bodies0 = bodies@;
    let mut round: usize = 0;
    while round < rounds
        invariant
            0 <= round <= rounds,
            bodies@.len() == n,
            bodies0.len() == n,
            bodies@ == pulley_rounds_s(bodies0, constraints@, bias_koef as int, round as nat),
            forall|t: int|
                0 <= t < constraints@.len() ==> pair_error(
                    #[trigger] constraints@[t].first_body,
                    constraints@[t].second_body,
                    n as nat,
                ) is None,
        decreases rounds - round,
    {
        let ghost before = bodies@;
        let mut idx: usize = 0;
        while idx < constraints.len()
            invariant
                0 <= idx <= constraints@.len(),
                bodies@.len() == n,
                before.len() == n,
                bodies@ == pulley_pass_s(before, constraints@, bias_koef as int, idx as int),
                forall|t: int|
                    0 <= t < constraints@.len() ==> pair_error(
                        #[trigger] constraints@[t].first_body,
                        constraints@[t].second_body,
                        n as nat,
                    ) is None,
            decreases constraints@.len() - idx,
        {
            let ghost prev = bodies@;
            let c = constraints[idx];
            let b1 = bodies[c.first_body];
            let b2 = bodies[c.second_body];
            let pair = pulley_step_exec(&b1, &b2, &c, bias_koef);
            bodies.set(c.first_body, BodyEntry { transform: b1.transform, rigid_body: pair.0 });
            bodies.set(c.second_body, BodyEntry { transform: b2.transform, rigid_body: pair.1 });
            proof {
                assert(bodies@ =~= apply_pulley_s(prev, constraints@[idx as int], bias_koef as int));
            }
            idx = idx + 1;
        }
        round = round + 1;
    }
    Ok(())
}

/// The current world positions of a pulley's two attachment points, for
/// displaying the two cord segments against the pivot.
pub fn update_pulley_constraints_transformation(c: &PulleyConstraint, bodies: &Vec<BodyEntry>) -> (r:
    Result<(Vec3x, Vec3x), SimError>)
    ensures
        r is Ok <==> pair_error(c.first_body, c.second_body, bodies@.len() as nat) is None,
        r is Err ==> Some(r->Err_0) == pair_error(
            c.first_body,
            c.second_body,
            bodies@.len() as nat,
        ),
        r is Ok ==> r->Ok_0 == (
            body_to_world_s(bodies@[c.first_body as int].transform, c.first_body_offset),
            body_to_world_s(bodies@[c.second_body as int].transform, c.second_body_offset),
        ),
{
    if let Some(e) = check_pair(c.first_body, c.second_body, bodies.len()) {
        return Err(e);
    }
    let p1 = Body.body_to_world_coordinates(c.first_body_offset, &bodies[c.first_body].transform);
    let p2 = Body.body_to_world_coordinates(c.second_body_offset, &bodies[c.second_body].transform);
    Ok((p1, p2))
}

} // verus!
