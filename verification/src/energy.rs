//! Derived kinetic, potential and elastic energies, recomputed each tick
//! for diagnostics; they never feed back into the dynamics.

use vstd::prelude::*;
use vstd::pervasive::VecAdditionalExecFns;

use crate::body::{body_to_world_s, energy_s, BodyEntry};
use crate::fx::{div_fx, fx_add, fx_div, fx_mul, fx_sub, mul_fx, sat_add, sat_sub, SCALE};
use crate::springs::{check_spring_refs, pair_error, springs_error, Spring};
use crate::vec3::{vlen_s, vsub_s, Vec3x};
use crate::SimError;

verus! {

/// Something that has an energy that can be computed.
#[derive(Clone, Copy, PartialEq, Eq, Structural, Debug)]
pub struct Energy {
    energy: i64,
}

impl Energy {
    /// The stored scalar.
    pub closed spec fn value_s(self) -> int {
        self.energy as int
    }

    /// Reads the stored scalar.
    pub fn value(&self) -> (r: i64)
        ensures
            r as int == self.value_s(),
    {
        self.energy
    }
}

impl Default for Energy {
    /// A stale record holding zero.
    fn default() -> (r: Energy)
        ensures
            r.value_s() == 0,
    {
        Energy { energy: 0 }
    }
}

/// Elastic energy of one spring: half the spring constant times the
/// squared elongation.
pub open spec fn spring_energy_s(b1: BodyEntry, b2: BodyEntry, s: Spring) -> int {
    let sp1 = body_to_world_s(b1.transform, s.first_body_attachment_point_offset);
    let sp2 = body_to_world_s(b2.transform, s.second_body_attachment_point_offset);
    let delta = sat_sub(vlen_s(vsub_s(sp2, sp1)), s.rest_length as int);
    div_fx(mul_fx(s.spring_constant as int, mul_fx(delta, delta)), 2 * SCALE as int)
}

/// Recomputes the elastic energy of every spring.  A spring with refused
/// handles makes the whole call refuse before any record changes.
pub fn update_energy_for_springs(
    springs: &Vec<Spring>,
    bodies: &Vec<BodyEntry>,
    energies: &mut Vec<Energy>,
) -> (r: Result<(), SimError>)
    requires
        old(energies)@.len() == springs@.len(),
    ensures
        r is Ok <==> springs_error(springs@, bodies@.len() as nat) is None,
        r is Err ==> Some(r->Err_0) == springs_error(springs@, bodies@.len() as nat)
            && final(energies)@ == old(energies)@,
        final(energies)@.len() == springs@.len(),
        r is Ok ==> forall|i: int|
            0 <= i < springs@.len() ==> #[trigger] final(energies)@[i].value_s()
                == spring_energy_s(
                bodies@[springs@[i].first_body as int],
                bodies@[springs@[i].second_body as int],
                springs@[i],
            ),
{
    if let Some(e) = check_spring_refs(springs, bodies.len()) {
        return Err(e);
    }
    proof {
        crate::springs::lemma_springs_ok(springs@, bodies@.len() as nat);
    }
    let mut idx: usize = 0;
    while idx < springs.len()
        invariant
            0 <= idx <= springs@.len(),
            energies@.len() == springs@.len(),
            forall|t: int|
                0 <= t < springs@.len() ==> pair_error(
                    #[trigger] springs@[t].first_body,
                    springs@[t].second_body,
                    bodies@.len() as nat,
                ) is None,
            forall|i: int|
                0 <= i < idx ==> #[trigger] energies@[i].value_s() == spring_energy_s(
                    bodies@[springs@[i].first_body as int],
                    bodies@[springs@[i].second_body as int],
                    springs@[i],
                ),
        decreases springs@.len() - idx,
    {
        let s = springs[idx];
        let b1 = &bodies[s.first_body];
        let b2 = &bodies[s.second_body];
        let sp1 = crate::body::Body.body_to_world_coordinates(
            s.first_body_attachment_point_offset,
            &b1.transform,
        );
        let sp2 = crate::body::Body.body_to_world_coordinates(
            s.second_body_attachment_point_offset,
            &b2.transform,
        );
        let delta = fx_sub(sp2.sub(&sp1).length(), s.rest_length);
        let e = fx_div(fx_mul(s.spring_constant, fx_mul(delta, delta)), 2 * SCALE);
        energies.set(idx, Energy { energy: e });
        idx = idx + 1;
    }
    Ok(())
}

/// Recomputes the total (kinetic plus potential) energy of every body in
/// the given gravity field.
pub fn update_energy_for_rigid_bodies(
    bodies: &Vec<BodyEntry>,
    energies: &mut Vec<Energy>,
    gravity: Vec3x,
)
    requires
        old(energies)@.len() == bodies@.len(),
    ensures
        final(energies)@.len() == bodies@.len(),
        forall|i: int|
            0 <= i < bodies@.len() ==> #[trigger] final(energies)@[i].value_s() == energy_s(
                bodies@[i].rigid_body,
                bodies@[i].transform,
                gravity,
            ),
{
    let mut idx: usize = 0;
    while idx < bodies.len()
        invariant
            0 <= idx <= bodies@.len(),
            energies@.len() == bodies@.len(),
            forall|i: int|
                0 <= i < idx ==> #[trigger] energies@[i].value_s() == energy_s(
                    bodies@[i].rigid_body,
                    bodies@[i].transform,
                    gravity,
                ),
        decreases bodies@.len() - idx,
    {
        let b = &bodies[idx];
        let e = b.rigid_body.compute_energy(&b.transform, gravity);
        energies.set(idx, Energy { energy: e });
        idx = idx + 1;
    }
}

/// The saturating sum of the first `k` records.
pub open spec fn energy_sum_s(es: Seq<Energy>, k: int) -> int
    decreases k,
{
    if k <= 0 {
        0
    } else {
        sat_add(energy_sum_s(es, k - 1), es[k - 1].value_s())
    }
}

/// The saturating sum of every record, a pure reduction for display.
pub fn total_sum_of_energy(energies: &Vec<Energy>) -> (r: i64)
    ensures
        r as int == energy_sum_s(energies@, energies@.len() as int),
{
    let mut sum: i64 = 0;
    let mut idx: usize = 0;
    while idx < energies.len()
        invariant
            0 <= idx <= energies@.len(),
            sum as int == energy_sum_s(energies@, idx as int),
        decreases energies@.len() - idx,
    {
        sum = fx_add(sum, energies[idx].value());
        idx = idx + 1;
    }
    sum
}

} // verus!
