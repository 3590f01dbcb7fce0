//! Hookean springs with linear damping: continuous forces, never
//! impulses.

use vstd::prelude::*;
use vstd::pervasive::VecAdditionalExecFns;

use crate::body::{body_to_world_s, particle_velocity_s, Body, BodyEntry, RigidBody};
use crate::fx::{fx_add, fx_mul, fx_neg, fx_sub, mul_fx, sat_add, sat_neg, sat_sub};
use crate::vec3::{vadd_s, vcross_s, vdiv_s, vdot_s, vlen_s, vneg_s, vscale_s, vsub_s, Vec3x};
use crate::SimError;

verus! {

/// A spring between two bodies, attached at body-local offsets.
#[derive(Clone, Copy, PartialEq, Eq, Structural, Debug)]
pub struct Spring {
    /// First body the spring is attached to.
    pub first_body: usize,
    /// Attachment point on the first body, relative to its center.
    pub first_body_attachment_point_offset: Vec3x,
    /// Second body the spring is attached to.
    pub second_body: usize,
    /// Attachment point on the second body, relative to its center.
    pub second_body_attachment_point_offset: Vec3x,
    /// Length of the spring at rest.
    pub rest_length: i64,
    /// Spring constant.
    pub spring_constant: i64,
    /// Damping constant.
    pub damping_constant: i64,
}

/// The error a pair of body handles earns: referencing one body twice or
/// referencing a body outside the list is refused.
pub open spec fn pair_error(first: usize, second: usize, n: nat) -> Option<SimError> {
    if first == second {
        Some(SimError::DuplicateBodyHandle)
    } else if first >= n || second >= n {
        Some(SimError::MissingBodyHandle)
    } else {
        None
    }
}

/// Checks a pair of body handles against the body list.
pub fn check_pair(first: usize, second: usize, n: usize) -> (r: Option<SimError>)
    ensures
        r == pair_error(first, second, n as nat),
{
    if first == second {
        Some(SimError::DuplicateBodyHandle)
    } else if first >= n || second >= n {
        Some(SimError::MissingBodyHandle)
    } else {
        None
    }
}

/// The error of the first spring whose handles are refused, if any.
pub open spec fn springs_error(springs: Seq<Spring>, n: nat) -> Option<SimError>
    decreases springs.len(),
{
    if springs.len() == 0 {
        None
    } else {
        match pair_error(springs[0].first_body, springs[0].second_body, n) {
            Some(e) => Some(e),
            None => springs_error(springs.drop_first(), n),
        }
    }
}

/// The two bodies' states after one spring acts on them.
///
/// The separation runs from the first attachment point to the second; a
/// zero separation leaves both bodies untouched, since the direction is
/// undefined.  The force magnitude follows Hooke's law with a damping
/// term along the spring axis, and the two bodies receive exactly
/// opposite forces at their attachment points.  An immovable body keeps
/// its state.
#[verifier::opaque]
pub open spec fn spring_forces_s(b1: BodyEntry, b2: BodyEntry, s: Spring) -> (RigidBody,
    RigidBody) {
    let t1 = b1.transform;
    let t2 = b2.transform;
    let rb1 = b1.rigid_body;
    let rb2 = b2.rigid_body;
    let sp1 = body_to_world_s(t1, s.first_body_attachment_point_offset);
    let sp2 = body_to_world_s(t2, s.second_body_attachment_point_offset);
    let d = vsub_s(sp1, sp2);
    let len = vlen_s(d);
    if len == 0 {
        (rb1, rb2)
    } else {
        let axis = vdiv_s(d, len);
        let v1 = particle_velocity_s(rb1, t1, sp1);
        let v2 = particle_velocity_s(rb2, t2, sp2);
        let closing = vdot_s(vsub_s(v1, v2), axis);
        let magnitude = sat_add(
            mul_fx(s.spring_constant as int, sat_sub(len, s.rest_length as int)),
            mul_fx(s.damping_constant as int, closing),
        );
        let force = vscale_s(axis, sat_neg(magnitude));
        let rb1_after = if rb1.mass == 0 {
            rb1
        } else {
            RigidBody {
                force: vadd_s(rb1.force, force),
                torque: vadd_s(rb1.torque, vcross_s(vsub_s(sp1, t1.translation), force)),
                ..rb1
            }
        };
        let rb2_after = if rb2.mass == 0 {
            rb2
        } else {
            RigidBody {
                force: vadd_s(rb2.force, vneg_s(force)),
                torque: vadd_s(rb2.torque, vcross_s(vsub_s(sp2, t2.translation), vneg_s(force))),
                ..rb2
            }
        };
        (rb1_after, rb2_after)
    }
}

/// The body list after one spring acts on its two bodies.
pub open spec fn apply_spring_s(bodies: Seq<BodyEntry>, s: Spring) -> Seq<BodyEntry> {
    let i = s.first_body as int;
    let j = s.second_body as int;
    let pair = spring_forces_s(bodies[i], bodies[j], s);
    bodies.update(i, BodyEntry { transform: bodies[i].transform, rigid_body: pair.0 }).update(
        j,
        BodyEntry { transform: bodies[j].transform, rigid_body: pair.1 },
    )
}

/// The body list after the first `k` springs act, in order.
pub open spec fn apply_springs_prefix_s(bodies: Seq<BodyEntry>, springs: Seq<Spring>, k: int) -> Seq<
    BodyEntry,
>
    decreases k,
{
    if k <= 0 {
        bodies
    } else {
        apply_spring_s(apply_springs_prefix_s(bodies, springs, k - 1), springs[k - 1])
    }
}

/// The two bodies' states after one spring acts on them.
fn spring_forces_exec(b1: &BodyEntry, b2: &BodyEntry, s: &Spring) -> (r: (RigidBody, RigidBody))
    ensures
        r == spring_forces_s(*b1, *b2, *s),
{
    proof {
        reveal(spring_forces_s);
    }
    let t1 = b1.transform;
    let t2 = b2.transform;
    let sp1 = Body.body_to_world_coordinates(s.first_body_attachment_point_offset, &t1);
    let sp2 = Body.body_to_world_coordinates(s.second_body_attachment_point_offset, &t2);
    let d = sp1.sub(&sp2);
    let len = d.length();
    if len == 0 {
        (b1.rigid_body, b2.rigid_body)
    } else {
        let axis = d.div_scalar(len);
        let v1 = b1.rigid_body.get_particle_body_velocity(
            s.first_body_attachment_point_offset,
            &t1,
        );
        let v2 = b2.rigid_body.get_particle_body_velocity(
            s.second_body_attachment_point_offset,
            &t2,
        );
        let closing = v1.sub(&v2).dot(&axis);
        let magnitude = fx_add(
            fx_mul(s.spring_constant, fx_sub(len, s.rest_length)),
            fx_mul(s.damping_constant, closing),
        );
        let force = axis.scale(fx_neg(magnitude));
        let mut rb1 = b1.rigid_body;
        if rb1.mass != 0 {
            rb1.apply_force(&t1, sp1, force);
        }
        let mut rb2 = b2.rigid_body;
        if rb2.mass != 0 {
            rb2.apply_force(&t2, sp2, force.neg());
        }
        (rb1, rb2)
    }
}

/// Walks the springs and reports the error of the first one whose
/// handles are refused.
pub(crate) fn check_spring_refs(springs: &Vec<Spring>, n: usize) -> (r: Option<SimError>)
    ensures
        r == springs_error(springs@, n as nat),
{
    proof {
        assert(springs@.skip(0) =~= springs@);
    }
    let mut check: usize = 0;
    while check < springs.len()
        invariant
            0 <= check <= springs@.len(),
            springs_error(springs@.skip(check as int), n as nat) == springs_error(
                springs@,
                n as nat,
            ),
        decreases springs@.len() - check,
    {
        let s = &springs[check];
        if let Some(e) = check_pair(s.first_body, s.second_body, n) {
            proof {
                assert(springs@.skip(check as int)[0] == springs@[check as int]);
            }
            return Some(e);
        }
        proof {
            assert(springs@.skip(check as int)[0] == springs@[check as int]);
            assert(springs@.skip(check as int).drop_first() =~= springs@.skip(check as int + 1));
        }
        check = check + 1;
    }
    proof {
        assert(springs@.skip(springs@.len() as int) =~= Seq::<Spring>::empty());
    }
    None
}

/// When no spring is refused, every spring's pair of handles is sound.
pub(crate) proof fn lemma_springs_ok(springs: Seq<Spring>, n: nat)
    requires
        springs_error(springs, n) is None,
    ensures
        forall|t: int|
            0 <= t < springs.len() ==> pair_error(
                #[trigger] springs[t].first_body,
                springs[t].second_body,
                n,
            ) is None,
    decreases springs.len(),
{
    if springs.len() > 0 {
        lemma_springs_ok(springs.drop_first(), n);
        assert forall|t: int|
            0 <= t < springs.len() implies pair_error(
            #[trigger] springs[t].first_body,
            springs[t].second_body,
            n,
        ) is None by {
            if t > 0 {
                assert(springs.drop_first()[t - 1] == springs[t]);
            }
        }
    }
}

/// Applies every spring's force and torque to the bodies it joins, in
/// order.  A spring with refused handles makes the whole call refuse
/// before any body changes.
pub fn handle_spring_forces(springs: &Vec<Spring>, bodies: &mut Vec<BodyEntry>) -> (r: Result<
    (),
    SimError,
>)
    ensures
        final(bodies)@.len() == old(bodies)@.len(),
        r is Ok <==> springs_error(springs@, old(bodies)@.len() as nat) is None,
        r is Err ==> Some(r->Err_0) == springs_error(springs@, old(bodies)@.len() as nat)
            && final(bodies)@ == old(bodies)@,
        r is Ok ==> final(bodies)@ == apply_springs_prefix_s(
            old(bodies)@,
            springs@,
            springs@.len() as int,
        ),
{
    let n = bodies.len();
    if let Some(e) = check_spring_refs(springs, n) {
        return Err(e);
    }
    proof {
        lemma_springs_ok(springs@, n as nat);
    }
    let ghost bodies0 = bodies@;
    let mut idx: usize = 0;
    while idx < springs.len()
        invariant
            0 <= idx <= springs@.len(),
            bodies@.len() == bodies0.len(),
            bodies0.len() == n,
            bodies@ == apply_springs_prefix_s(bodies0, springs@, idx as int),
            forall|t: int|
                0 <= t < springs@.len() ==> pair_error(
                    springs@[t].first_body,
                    springs@[t].second_body,
                    n as nat,
                ) is None,
        decreases springs@.len() - idx,
    {
        let ghost prev = bodies@;
        let s = springs[idx];
        let b1 = bodies[s.first_body];
        let b2 = bodies[s.second_body];
        let pair = spring_forces_exec(&b1, &b2, &s);
        let e1 = BodyEntry { transform: b1.transform, rigid_body: pair.0 };
        let e2 = BodyEntry { transform: b2.transform, rigid_body: pair.1 };
        bodies.set(s.first_body, e1);
        bodies.set(s.second_body, e2);
        proof {
            assert(bodies@ =~= apply_spring_s(prev, springs@[idx as int]));
        }
        idx = idx + 1;
    }
    Ok(())
}

/// The current world positions of a spring's two attachment points, for
/// display.
pub fn update_spring_transformation(s: &Spring, bodies: &Vec<BodyEntry>) -> (r: Result<(Vec3x, Vec3x), SimError>)
    ensures
        r is Ok <==> pair_error(s.first_body, s.second_body, bodies@.len() as nat) is None,
        r is Err ==> Some(r->Err_0) == pair_error(
            s.first_body,
            s.second_body,
            bodies@.len() as nat,
        ),
        r is Ok ==> r->Ok_0 == (
            body_to_world_s(
                bodies@[s.first_body as int].transform,
                s.first_body_attachment_point_offset,
            ),
            body_to_world_s(
                bodies@[s.second_body as int].transform,
                s.second_body_attachment_point_offset,
            ),
        ),
{
    if let Some(e) = check_pair(s.first_body, s.second_body, bodies.len()) {
        return Err(e);
    }
    let p1 = Body.body_to_world_coordinates(
        s.first_body_attachment_point_offset,
        &bodies[s.first_body].transform,
    );
    let p2 = Body.body_to_world_coordinates(
        s.second_body_attachment_point_offset,
        &bodies[s.second_body].transform,
    );
    Ok((p1, p2))
}

} // verus!
