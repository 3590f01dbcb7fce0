//! Upper-bound length constraints on body centers: active only while
//! the centers are at least the given length apart.

use vstd::prelude::*;
use vstd::pervasive::VecAdditionalExecFns;

use crate::body::{inv_mass_s, velocity_s, BodyEntry, RigidBody};
use crate::fx::{div_fx, fx_add, fx_div, fx_mul, fx_neg, fx_sub, mul_fx, sat_add, sat_neg,
    sat_sub, SCALE};
use crate::settings::{settings_wf, SettingsResource};
use crate::springs::{check_pair, pair_error};
use crate::constraint::distance::{constraint_bias_koef, constraint_bias_koef_s};
use crate::vec3::{vadd_s, vcross_s, vdiv_s, vdot_s, vlen_s, vneg_s, vscale_s, vsub_s, Vec3x};
use crate::SimError;

verus! {

/// Keeps the distance between two body centers at or below `length`.
#[derive(Clone, Copy, PartialEq, Eq, Structural, Debug)]
pub struct LowerThanOrEqualLengthConstraint {
    /// First body.
    pub first_body: usize,
    /// Second body.
    pub second_body: usize,
    /// Largest permitted center distance.
    pub length: i64,
}

impl LowerThanOrEqualLengthConstraint {
    /// Builds the constraint.
    pub fn new(first_body: usize, second_body: usize, length: i64) -> (r:
        LowerThanOrEqualLengthConstraint)
        ensures
            r == (LowerThanOrEqualLengthConstraint { first_body, second_body, length }),
    {
        LowerThanOrEqualLengthConstraint { first_body, second_body, length }
    }
}

/// The error of the first constraint whose handles are refused, if any.
pub open spec fn leq_refs_error(cs: Seq<LowerThanOrEqualLengthConstraint>, n: nat) -> Option<SimError>
    decreases cs.len(),
{
    if cs.len() == 0 {
        None
    } else {
        match pair_error(cs[0].first_body, cs[0].second_body, n) {
            Some(e) => Some(e),
            None => leq_refs_error(cs.drop_first(), n),
        }
    }
}

/// The two bodies' states after one sequential-impulse evaluation of an
/// upper-bound length constraint.
///
/// The constraint acts on the body centers, so the moment arms are zero
/// and only momentum changes.  It is inactive while the centers are
/// closer than the bound, and skipped when the centers coincide (no
/// direction) or both bodies are immovable.
#[verifier::opaque]
pub open spec fn leq_step_s(
    b1: BodyEntry,
    b2: BodyEntry,
    c: LowerThanOrEqualLengthConstraint,
    bias_koef: int,
) -> (RigidBody, RigidBody) {
    let t1 = b1.transform;
    let t2 = b2.transform;
    let rb1 = b1.rigid_body;
    let rb2 = b2.rigid_body;
    let x1 = t1.translation;
    let x2 = t2.translation;
    let rel = vsub_s(x1, x2);
    let len = vlen_s(rel);
    if c.length > len || len == 0 {
        (rb1, rb2)
    } else {
        let offset = sat_sub(c.length as int, len);
        let dir = vdiv_s(rel, len);
        let cmass = sat_add(inv_mass_s(rb1), inv_mass_s(rb2));
        if cmass <= 0 {
            (rb1, rb2)
        } else {
            let closing = vdot_s(vsub_s(velocity_s(rb1), velocity_s(rb2)), dir);
            let bias = sat_neg(mul_fx(bias_koef, offset));
            let lambda = sat_neg(div_fx(sat_add(closing, bias), cmass));
            let a_impulse = vscale_s(dir, lambda);
            let b_impulse = vscale_s(vneg_s(dir), lambda);
            let rb1_after = if rb1.mass == 0 {
                rb1
            } else {
                RigidBody {
                    pulse: vadd_s(rb1.pulse, a_impulse),
                    angular_momentum: vadd_s(
                        rb1.angular_momentum,
                        vcross_s(vsub_s(x1, t1.translation), a_impulse),
                    ),
                    ..rb1
                }
            };
            let rb2_after = if rb2.mass == 0 {
                rb2
            } else {
                RigidBody {
                    pulse: vadd_s(rb2.pulse, b_impulse),
                    angular_momentum: vadd_s(
                        rb2.angular_momentum,
                        vcross_s(vsub_s(x2, t2.translation), a_impulse),
                    ),
                    ..rb2
                }
            };
            (rb1_after, rb2_after)
        }
    }
}

/// The body list after one constraint is evaluated once.
pub open spec fn apply_leq_s(
    bodies: Seq<BodyEntry>,
    c: LowerThanOrEqualLengthConstraint,
    bias_koef: int,
) -> Seq<BodyEntry> {
    let i = c.first_body as int;
    let j = c.second_body as int;
    let pair = leq_step_s(bodies[i], bodies[j], c, bias_koef);
    bodies.update(i, BodyEntry { transform: bodies[i].transform, rigid_body: pair.0 }).update(
        j,
        BodyEntry { transform: bodies[j].transform, rigid_body: pair.1 },
    )
}

/// The body list after the first `k` constraints are evaluated once each,
/// in order.
pub open spec fn leq_pass_s(
    bodies: Seq<BodyEntry>,
    cs: Seq<LowerThanOrEqualLengthConstraint>,
    bias_koef: int,
    k: int,
) -> Seq<BodyEntry>
    decreases k,
{
    if k <= 0 {
        bodies
    } else {
        apply_leq_s(leq_pass_s(bodies, cs, bias_koef, k - 1), cs[k - 1], bias_koef)
    }
}

/// The body list after `m` Gauss-Seidel rounds over every constraint.
pub open spec fn leq_rounds_s(
    bodies: Seq<BodyEntry>,
    cs: Seq<LowerThanOrEqualLengthConstraint>,
    bias_koef: int,
    m: nat,
) -> Seq<BodyEntry>
    decreases m,
{
    if m == 0 {
        bodies
    } else {
        leq_pass_s(
            leq_rounds_s(bodies, cs, bias_koef, (m - 1) as nat),
            cs,
            bias_koef,
            cs.len() as int,
        )
    }
}

/// The two bodies' states after one evaluation of the constraint.
fn leq_step_exec(
    b1: &BodyEntry,
    b2: &BodyEntry,
    c: &LowerThanOrEqualLengthConstraint,
    bias_koef: i64,
) -> (r: (RigidBody, RigidBody))
    ensures
        r == leq_step_s(*b1, *b2, *c, bias_koef as int),
{
    proof {
        reveal(leq_step_s);
    }
    let t1 = b1.transform;
    let t2 = b2.transform;
    let rb1 = b1.rigid_body;
    let rb2 = b2.rigid_body;
    let x1 = t1.translation;
    let x2 = t2.translation;
    let rel = x1.sub(&x2);
    let len = rel.length();
    if c.length > len || len == 0 {
        return (rb1, rb2);
    }
    let offset = fx_sub(c.length, len);
    let dir = rel.div_scalar(len);
    let im1 = if rb1.mass == 0 {
        0
    } else {
        fx_div(SCALE, rb1.mass)
    };
    let im2 = if rb2.mass == 0 {
        0
    } else {
        fx_div(SCALE, rb2.mass)
    };
    let cmass = fx_add(im1, im2);
    if cmass <= 0 {
        return (rb1, rb2);
    }
    let closing = rb1.get_velocity().sub(&rb2.get_velocity()).dot(&dir);
    let bias = fx_neg(fx_mul(bias_koef, offset));
    let lambda = fx_neg(fx_div(fx_add(closing, bias), cmass));
    let a_impulse = dir.scale(lambda);
    let b_impulse = dir.neg().scale(lambda);
    let rb1_after = if rb1.mass == 0 {
        rb1
    } else {
        RigidBody {
            pulse: rb1.pulse.add(&a_impulse),
            angular_momentum: rb1.angular_momentum.add(&x1.sub(&t1.translation).cross(&a_impulse)),
            ..rb1
        }
    };
    let rb2_after = if rb2.mass == 0 {
        rb2
    } else {
        RigidBody {
            pulse: rb2.pulse.add(&b_impulse),
            angular_momentum: rb2.angular_momentum.add(&x2.sub(&t2.translation).cross(&a_impulse)),
            ..rb2
        }
    };
    (rb1_after, rb2_after)
}

/// Walks the constraints and reports the error of the first one whose
/// handles are refused.
pub(crate) fn check_leq_refs(cs: &Vec<LowerThanOrEqualLengthConstraint>, n: usize) -> (r: Option<SimError>)
    ensures
        r == leq_refs_error(cs@, n as nat),
{
    proof {
        assert(cs@.skip(0) =~= cs@);
    }
    let mut check: usize = 0;
    while check < cs.len()
        invariant
            0 <= check <= cs@.len(),
            leq_refs_error(cs@.skip(check as int), n as nat) == leq_refs_error(cs@, n as nat),
        decreases cs@.len() - check,
    {
        let c = &cs[check];
        if let Some(e) = check_pair(c.first_body, c.second_body, n) {
            proof {
                assert(cs@.skip(check as int)[0] == cs@[check as int]);
            }
            return Some(e);
        }
        proof {
            assert(cs@.skip(check as int)[0] == cs@[check as int]);
            assert(cs@.skip(check as int).drop_first() =~= cs@.skip(check as int + 1));
        }
        check = check + 1;
    }
    proof {
        assert(cs@.skip(cs@.len() as int) =~= Seq::<LowerThanOrEqualLengthConstraint>::empty());
    }
    None
}

/// When no constraint is refused, every pair of handles is sound.
pub(crate) proof fn lemma_leq_refs_ok(cs: Seq<LowerThanOrEqualLengthConstraint>, n: nat)
    requires
        leq_refs_error(cs, n) is None,
    ensures
        forall|t: int|
            0 <= t < cs.len() ==> pair_error(#[trigger] cs[t].first_body, cs[t].second_body, n)
                is None,
    decreases cs.len(),
{
    if cs.len() > 0 {
        lemma_leq_refs_ok(cs.drop_first(), n);
        assert forall|t: int|
            0 <= t < cs.len() implies pair_error(
            #[trigger] cs[t].first_body,
            cs[t].second_body,
            n,
        ) is None by {
            if t > 0 {
                assert(cs.drop_first()[t - 1] == cs[t]);
            }
        }
    }
}

/// Resolves every upper-bound length constraint by sequential impulses, one
/// Gauss-Seidel round per constraint substep.  A constraint with refused
/// handles makes the whole call refuse before any body changes.
pub fn handle_leq_length_constraints(
    constraints: &Vec<LowerThanOrEqualLengthConstraint>,
    bodies: &mut Vec<BodyEntry>,
    settings: &SettingsResource,
    dt: i64,
) -> (r: Result<(), SimError>)
    requires
        settings_wf(*settings),
    ensures
        final(bodies)@.len() == old(bodies)@.len(),
        r is Ok <==> leq_refs_error(constraints@, old(bodies)@.len() as nat) is None,
        r is Err ==> Some(r->Err_0) == leq_refs_error(constraints@, old(bodies)@.len() as nat)
            && final(bodies)@ == old(bodies)@,
        r is Ok ==> final(bodies)@ == leq_rounds_s(
            old(bodies)@,
            constraints@,
            constraint_bias_koef_s(dt as int, *settings),
            settings.constraints_substeps as nat,
        ),
{
    let n = bodies.len();
    if let Some(e) = check_leq_refs(constraints, n) {
        return Err(e);
    }
    proof {
        lemma_leq_refs_ok(constraints@, n as nat);
    }
    let bias_koef = constraint_bias_koef(dt, settings);
    let rounds = settings.constraints_substeps;
    let ghost bodies0 = bodies@;
    let mut round: usize = 0;
    while round < rounds
        invariant
            0 <= round <= rounds,
            bodies@.len() == n,
            bodies0.len() == n,
            bodies@ == leq_rounds_s(bodies0, constraints@, bias_koef as int, round as nat),
            forall|t: int|
                0 <= t < constraints@.len() ==> pair_error(
                    #[trigger] constraints@[t].first_body,
                    constraints@[t].second_body,
                    n as nat,
                ) is None,
        decreases rounds - round,
    {
        let ghost before = bodies@;
        let mut idx: usize = 0;
        while idx < constraints.len()
            invariant
                0 <= idx <= constraints@.len(),
                bodies@.len() == n,
                before.len() == n,
                bodies@ == leq_pass_s(before, constraints@, bias_koef as int, idx as int),
                forall|t: int|
                    0 <= t < constraints@.len() ==> pair_error(
                        #[trigger] constraints@[t].first_body,
                        constraints@[t].second_body,
                        n as nat,
                    ) is None,
            decreases constraints@.len() - idx,
        {
            let ghost prev = bodies@;
            let c = constraints[idx];
            let b1 = bodies[c.first_body];
            let b2 = bodies[c.second_body];
            let pair = leq_step_exec(&b1, &b2, &c, bias_koef);
            bodies.set(c.first_body, BodyEntry { transform: b1.transform, rigid_body: pair.0 });
            bodies.set(c.second_body, BodyEntry { transform: b2.transform, rigid_body: pair.1 });
            proof {
                assert(bodies@ =~= apply_leq_s(prev, constraints@[idx as int], bias_koef as int));
            }
            idx = idx + 1;
        }
        round = round + 1;
    }
    Ok(())
}

} // verus!
