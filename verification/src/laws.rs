//! System-level facts the kernel guarantees, stated and proved over the
//! same spec functions the public contracts use.

use vstd::prelude::*;

use crate::body::{body_to_world_s, BodyEntry};
use crate::constraint::distance::{distance_pass_s, distance_rounds_s, distance_step_s,
    DistanceConstraint};
use crate::constraint::fixed_length::{fixed_pass_s, fixed_rounds_s, fixed_step_s,
    FixedLengthConstraint};
use crate::constraint::leq_length::{leq_pass_s, leq_rounds_s, leq_step_s,
    LowerThanOrEqualLengthConstraint};
use crate::constraint::pulley::{pulley_pass_s, pulley_rounds_s, pulley_step_s, PulleyConstraint};
use crate::fx::{abs_int, div_fx, div_trunc, lemma_mul_fx_neg, lemma_sqrt_floor_bounds, mul_fx,
    sat64, sat_neg, sqrt_floor, SAT_MAX, SCALE};
use crate::settings::SettingsResource;
use crate::solver::{clear_all_s, euler_pre_quat_s, euler_step_s, gravity_all_s,
    integrate_rounds_s, integration_dt_s, tick_error_s, tick_s};
use crate::quat::{qlen_s, qnormalize_s, qnorm_sq_fx, qnorm_sq_raw, Quatx};
use crate::springs::{apply_spring_s, apply_springs_prefix_s, pair_error, spring_forces_s, Spring};
use crate::vec3::{vlen_s, vsub_s, vzero};

verus! {

/// One body advanced by `m` Euler substeps.
pub open spec fn euler_iter_s(e: BodyEntry, dt: int, m: nat) -> BodyEntry
    decreases m,
{
    if m == 0 {
        e
    } else {
        euler_step_s(euler_iter_s(e, dt, (m - 1) as nat), dt)
    }
}

/// Integrating a body list is integrating each body on its own: the
/// substeps commute with indexing.
pub proof fn lemma_integrate_rounds_pointwise(bodies: Seq<BodyEntry>, dt: int, m: nat, i: int)
    requires
        0 <= i < bodies.len(),
    ensures
        integrate_rounds_s(bodies, dt, m).len() == bodies.len(),
        integrate_rounds_s(bodies, dt, m)[i] == euler_iter_s(bodies[i], dt, m),
    decreases m,
{
    if m > 0 {
        lemma_integrate_rounds_pointwise(bodies, dt, (m - 1) as nat, i);
    }
}

/// The momentum a body may carry so that `m` substeps of its force never
/// saturate the accumulating addition, on one axis.
pub open spec fn pulse_headroom(p: int, f: int, dt: int, m: nat) -> bool {
    abs_int(p) + m * abs_int(mul_fx(f, dt)) <= SAT_MAX as int
}

/// Across `m` Euler substeps a finite-mass body's momentum grows by
/// exactly `m` times its force impulse on each axis, provided the sums
/// stay inside the scalar range; the force itself never changes during
/// integration.
pub proof fn lemma_euler_iter_pulse(e: BodyEntry, dt: int, m: nat)
    requires
        e.rigid_body.mass != 0,
        pulse_headroom(e.rigid_body.pulse.x as int, e.rigid_body.force.x as int, dt, m),
        pulse_headroom(e.rigid_body.pulse.y as int, e.rigid_body.force.y as int, dt, m),
        pulse_headroom(e.rigid_body.pulse.z as int, e.rigid_body.force.z as int, dt, m),
    ensures
        euler_iter_s(e, dt, m).rigid_body.mass == e.rigid_body.mass,
        euler_iter_s(e, dt, m).rigid_body.force == e.rigid_body.force,
        euler_iter_s(e, dt, m).rigid_body.pulse.x as int == e.rigid_body.pulse.x + m * mul_fx(
            e.rigid_body.force.x as int,
            dt,
        ),
        euler_iter_s(e, dt, m).rigid_body.pulse.y as int == e.rigid_body.pulse.y + m * mul_fx(
            e.rigid_body.force.y as int,
            dt,
        ),
        euler_iter_s(e, dt, m).rigid_body.pulse.z as int == e.rigid_body.pulse.z + m * mul_fx(
            e.rigid_body.force.z as int,
            dt,
        ),
    decreases m,
{
    let p = e.rigid_body.pulse;
    let f = e.rigid_body.force;
    let dx = mul_fx(f.x as int, dt);
    let dy = mul_fx(f.y as int, dt);
    let dz = mul_fx(f.z as int, dt);
    if m == 0 {
        assert(m * dx == 0) by (nonlinear_arith)
            requires
                m == 0,
        ;
        assert(m * dy == 0) by (nonlinear_arith)
            requires
                m == 0,
        ;
        assert(m * dz == 0) by (nonlinear_arith)
            requires
                m == 0,
        ;
    } else {
        let k = (m - 1) as nat;
        assert(k * abs_int(dx) <= m * abs_int(dx) && k * abs_int(dy) <= m * abs_int(dy) && k
            * abs_int(dz) <= m * abs_int(dz)) by (nonlinear_arith)
            requires
                k + 1 == m,
                abs_int(dx) >= 0,
                abs_int(dy) >= 0,
                abs_int(dz) >= 0,
        ;
        lemma_euler_iter_pulse(e, dt, k);
        let prev = euler_iter_s(e, dt, k);
        reveal(euler_step_s);
        assert(abs_int(k * dx) <= k * abs_int(dx) && abs_int(k * dy) <= k * abs_int(dy) && abs_int(
            k * dz,
        ) <= k * abs_int(dz) && k * dx + dx == m * dx && k * dy + dy == m * dy && k * dz + dz == m
            * dz && abs_int(m * dx) <= m * abs_int(dx) && abs_int(m * dy) <= m * abs_int(dy)
            && abs_int(m * dz) <= m * abs_int(dz)) by (nonlinear_arith)
            requires
                k + 1 == m,
                k >= 0,
        ;
    }
}

/// The spring's two accumulated forces are exact negatives of each other,
/// and the spring changes no momentum by itself: on a pair of finite-mass
/// bodies with cleared accumulators, action equals reaction.
pub proof fn lemma_spring_force_pair(b1: BodyEntry, b2: BodyEntry, s: Spring)
    requires
        b1.rigid_body.mass != 0,
        b2.rigid_body.mass != 0,
        b1.rigid_body.force == vzero(),
        b2.rigid_body.force == vzero(),
    ensures
        spring_forces_s(b1, b2, s).0.mass == b1.rigid_body.mass,
        spring_forces_s(b1, b2, s).1.mass == b2.rigid_body.mass,
        spring_forces_s(b1, b2, s).0.pulse == b1.rigid_body.pulse,
        spring_forces_s(b1, b2, s).1.pulse == b2.rigid_body.pulse,
        spring_forces_s(b1, b2, s).0.force.x as int == sat_neg(
            spring_forces_s(b1, b2, s).1.force.x as int,
        ),
        spring_forces_s(b1, b2, s).0.force.y as int == sat_neg(
            spring_forces_s(b1, b2, s).1.force.y as int,
        ),
        spring_forces_s(b1, b2, s).0.force.z as int == sat_neg(
            spring_forces_s(b1, b2, s).1.force.z as int,
        ),
        -(SAT_MAX as int) <= spring_forces_s(b1, b2, s).1.force.x as int <= SAT_MAX as int,
        -(SAT_MAX as int) <= spring_forces_s(b1, b2, s).1.force.y as int <= SAT_MAX as int,
        -(SAT_MAX as int) <= spring_forces_s(b1, b2, s).1.force.z as int <= SAT_MAX as int,
{
    reveal(spring_forces_s);
}

/// Conservation of linear momentum in a closed two-body spring system:
/// with accumulators cleared, no gravity and no constraints, one tick's
/// spring forces followed by any number of integration substeps leave the
/// total momentum of the pair exactly unchanged on every axis — the two
/// bodies receive equal and opposite forces, and the symmetric
/// fixed-point arithmetic keeps their impulses exact negatives.  The only
/// excluded inputs are those whose momentum additions would saturate the
/// scalar range.
pub proof fn lemma_two_body_spring_momentum(bodies: Seq<BodyEntry>, s: Spring, dt: int, m: nat)
    requires
        bodies.len() == 2,
        s.first_body == 0,
        s.second_body == 1,
        bodies[0].rigid_body.mass != 0,
        bodies[1].rigid_body.mass != 0,
        bodies[0].rigid_body.force == vzero(),
        bodies[1].rigid_body.force == vzero(),
        ({
            let pair = spring_forces_s(bodies[0], bodies[1], s);
            &&& pulse_headroom(bodies[0].rigid_body.pulse.x as int, pair.0.force.x as int, dt, m)
            &&& pulse_headroom(bodies[0].rigid_body.pulse.y as int, pair.0.force.y as int, dt, m)
            &&& pulse_headroom(bodies[0].rigid_body.pulse.z as int, pair.0.force.z as int, dt, m)
            &&& pulse_headroom(bodies[1].rigid_body.pulse.x as int, pair.1.force.x as int, dt, m)
            &&& pulse_headroom(bodies[1].rigid_body.pulse.y as int, pair.1.force.y as int, dt, m)
            &&& pulse_headroom(bodies[1].rigid_body.pulse.z as int, pair.1.force.z as int, dt, m)
        }),
    ensures
        ({
            let after = integrate_rounds_s(apply_spring_s(bodies, s), dt, m);
            &&& after[0].rigid_body.pulse.x + after[1].rigid_body.pulse.x
                == bodies[0].rigid_body.pulse.x + bodies[1].rigid_body.pulse.x
            &&& after[0].rigid_body.pulse.y + after[1].rigid_body.pulse.y
                == bodies[0].rigid_body.pulse.y + bodies[1].rigid_body.pulse.y
            &&& after[0].rigid_body.pulse.z + after[1].rigid_body.pulse.z
                == bodies[0].rigid_body.pulse.z + bodies[1].rigid_body.pulse.z
        }),
{
    let pair = spring_forces_s(bodies[0], bodies[1], s);
    lemma_spring_force_pair(bodies[0], bodies[1], s);
    let forced = apply_spring_s(bodies, s);
    assert(forced.len() == 2);
    assert(forced[0] == BodyEntry { transform: bodies[0].transform, rigid_body: pair.0 });
    assert(forced[1] == BodyEntry { transform: bodies[1].transform, rigid_body: pair.1 });
    lemma_integrate_rounds_pointwise(forced, dt, m, 0);
    lemma_integrate_rounds_pointwise(forced, dt, m, 1);
    lemma_euler_iter_pulse(forced[0], dt, m);
    lemma_euler_iter_pulse(forced[1], dt, m);
    lemma_mul_fx_neg(pair.1.force.x as int, dt);
    lemma_mul_fx_neg(pair.1.force.y as int, dt);
    lemma_mul_fx_neg(pair.1.force.z as int, dt);
    let gx = mul_fx(pair.1.force.x as int, dt);
    let gy = mul_fx(pair.1.force.y as int, dt);
    let gz = mul_fx(pair.1.force.z as int, dt);
    assert(m * sat_neg(gx) + m * gx == 0 && m * sat_neg(gy) + m * gy == 0 && m * sat_neg(gz) + m
        * gz == 0) by (nonlinear_arith)
        requires
            sat_neg(gx) == -gx,
            sat_neg(gy) == -gy,
            sat_neg(gz) == -gz,
    ;
}

/// A body that does not spin keeps its orientation bit for bit through an
/// integration substep: only a spinning body's orientation is touched, so
/// a normalized orientation can only be replaced by a freshly normalized
/// one.
pub proof fn lemma_still_body_keeps_orientation(e: BodyEntry, dt: int)
    requires
        e.rigid_body.angular_momentum == vzero(),
    ensures
        euler_step_s(e, dt).transform.rotation == e.transform.rotation,
{
    reveal(euler_step_s);
}

/// Orientation normalization holds at every tick: whenever the integrator
/// advances a spinning finite-mass body and the quaternion it is about to
/// renormalize has length between one half and two, the squared length of
/// the orientation it writes is within `ORIENTATION_TOLERANCE` fixed-point
/// units of one.
pub proof fn lemma_spinning_body_orientation_near_unit(e: BodyEntry, dt: int)
    requires
        e.rigid_body.mass != 0,
        e.rigid_body.angular_momentum != vzero(),
        250_000_000_000 <= qnorm_sq_raw(euler_pre_quat_s(e, dt)) <= 4_000_000_000_000,
    ensures
        abs_int(
            qnorm_sq_fx(euler_step_s(e, dt).transform.rotation) - SCALE as int,
        ) <= ORIENTATION_TOLERANCE as int,
{
    reveal(euler_step_s);
    lemma_normalize_unit(euler_pre_quat_s(e, dt));
}

/// A range-distance constraint inside its band is inactive: the
/// evaluation returns both bodies exactly as they were.  Together with
/// the solver's contract, a solve pass cannot push a satisfied pair out
/// of its band by acting on that constraint.
pub proof fn lemma_distance_inactive(
    b1: BodyEntry,
    b2: BodyEntry,
    c: DistanceConstraint,
    bias_koef: int,
)
    requires
        ({
            let len = vlen_s(
                vsub_s(
                    body_to_world_s(b2.transform, c.second_body_offset),
                    body_to_world_s(b1.transform, c.first_body_offset),
                ),
            );
            c.min_distance <= len <= c.max_distance
        }),
    ensures
        distance_step_s(b1, b2, c, bias_koef) == (b1.rigid_body, b2.rigid_body),
{
    reveal(distance_step_s);
}

/// A pulley whose cord is not over-length is inactive: the evaluation
/// returns both bodies exactly as they were — the cord never pushes.
pub proof fn lemma_pulley_inactive(
    b1: BodyEntry,
    b2: BodyEntry,
    c: PulleyConstraint,
    bias_koef: int,
)
    requires
        ({
            let d1 = vsub_s(body_to_world_s(b1.transform, c.first_body_offset), c.pulley_position);
            let d2 = vsub_s(body_to_world_s(b2.transform, c.second_body_offset), c.pulley_position);
            crate::fx::sat_add(vlen_s(d1), vlen_s(d2)) <= c.max_distance as int
        }),
    ensures
        pulley_step_s(b1, b2, c, bias_koef) == (b1.rigid_body, b2.rigid_body),
{
    reveal(pulley_step_s);
}

/// How far from one the squared length of a freshly normalized
/// orientation may drift, in fixed-point units.
pub const ORIENTATION_TOLERANCE: i64 = 40;

/// What renormalization leaves of one component: the truncated quotient,
/// whose magnitude is the Euclidean quotient of the scaled magnitude.
proof fn lemma_component_quotient(c: int, n: int) -> (k: int)
    requires
        500_000 <= n <= 2_000_000,
        abs_int(c) <= 2_000_000,
    ensures
        k == abs_int(c) * SCALE / n,
        0 <= k <= 4_000_000,
        div_fx(c, n) == div_trunc(c * SCALE, n),
        div_trunc(c * SCALE, n) * div_trunc(c * SCALE, n) == k * k,
        k * n <= abs_int(c) * SCALE,
        abs_int(c) * SCALE < (k + 1) * n,
{
    let a = abs_int(c);
    let u = a * SCALE;
    assert(0 <= u <= 2_000_000_000_000) by (nonlinear_arith)
        requires
            u == a * 1_000_000,
            0 <= a <= 2_000_000,
    ;
    let k = u / n;
    vstd::arithmetic::div_mod::lemma_fundamental_div_mod(u, n);
    vstd::arithmetic::div_mod::lemma_mod_bound(u, n);
    let rem = u % n;
    assert(k * n <= u && u < (k + 1) * n) by (nonlinear_arith)
        requires
            u == n * k + rem,
            0 <= rem < n,
    ;
    assert(0 <= k <= 4_000_000) by (nonlinear_arith)
        requires
            k * n <= u <= 2_000_000_000_000,
            u < (k + 1) * n,
            u >= 0,
            500_000 <= n,
    ;
    assert(c >= 0 ==> c * SCALE >= 0 && c < 0 ==> c * SCALE < 0) by (nonlinear_arith)
        requires
            SCALE as int == 1_000_000,
    ;
    assert(abs_int(c * SCALE) == u) by (nonlinear_arith)
        requires
            u == a * 1_000_000,
            a == abs_int(c),
            (c >= 0 ==> a == c) && (c < 0 ==> a == -c),
            (c >= 0 ==> c * SCALE == c * 1_000_000) && (c < 0 ==> c * SCALE == c * 1_000_000),
    ;
    assert(div_trunc(c * SCALE, n) == k || div_trunc(c * SCALE, n) == -k);
    assert((-k) * (-k) == k * k) by (nonlinear_arith);
    assert(div_fx(c, n) == sat64(div_trunc(c * SCALE, n)));
    k
}

/// Orientation normalization: whenever a quaternion of length between one
/// half and two is renormalized — as the integrator does before and after
/// every orientation advance of a spinning body — the squared length of
/// the result is within `ORIENTATION_TOLERANCE` fixed-point units of one.
pub proof fn lemma_normalize_unit(q: Quatx)
    requires
        250_000_000_000 <= qnorm_sq_raw(q) <= 4_000_000_000_000,
    ensures
        abs_int(qnorm_sq_fx(qnormalize_s(q)) - SCALE as int) <= ORIENTATION_TOLERANCE as int,
{
    let s_i = SCALE as int;
    let ss = s_i * s_i;
    let ns = qnorm_sq_raw(q);
    lemma_sqrt_floor_bounds(ns);
    let n = sqrt_floor(ns);
    let nn = n * n;
    assert(n >= 500_000) by (nonlinear_arith)
        requires
            ns >= 250_000_000_000,
            ns < (n + 1) * (n + 1),
            n >= 0,
    ;
    assert(n <= 2_000_000) by (nonlinear_arith)
        requires
            ns <= 4_000_000_000_000,
            n * n <= ns,
            n >= 0,
    ;
    assert(qlen_s(q) == n);
    let cx = q.x as int;
    let cy = q.y as int;
    let cz = q.z as int;
    let cw = q.w as int;
    assert(abs_int(cx) <= 2_000_000 && abs_int(cy) <= 2_000_000 && abs_int(cz) <= 2_000_000
        && abs_int(cw) <= 2_000_000) by (nonlinear_arith)
        requires
            cx * cx + cy * cy + cz * cz + cw * cw <= 4_000_000_000_000,
            (cx >= 0 ==> abs_int(cx) == cx) && (cx < 0 ==> abs_int(cx) == -cx),
            (cy >= 0 ==> abs_int(cy) == cy) && (cy < 0 ==> abs_int(cy) == -cy),
            (cz >= 0 ==> abs_int(cz) == cz) && (cz < 0 ==> abs_int(cz) == -cz),
            (cw >= 0 ==> abs_int(cw) == cw) && (cw < 0 ==> abs_int(cw) == -cw),
    ;
    let kx = lemma_component_quotient(cx, n);
    let ky = lemma_component_quotient(cy, n);
    let kz = lemma_component_quotient(cz, n);
    let kw = lemma_component_quotient(cw, n);
    let q2 = qnormalize_s(q);
    assert(q2.x as int == div_trunc(cx * s_i, n) && q2.y as int == div_trunc(cy * s_i, n) && q2.z
        as int == div_trunc(cz * s_i, n) && q2.w as int == div_trunc(cw * s_i, n));
    let big = (q2.x as int) * (q2.x as int) + (q2.y as int) * (q2.y as int) + (q2.z as int) * (q2.z
        as int) + (q2.w as int) * (q2.w as int);
    assert(big == kx * kx + ky * ky + kz * kz + kw * kw);
    let ux = abs_int(cx) * s_i;
    let uy = abs_int(cy) * s_i;
    let uz = abs_int(cz) * s_i;
    let uw = abs_int(cw) * s_i;
    // each squared scaled magnitude equals the squared component times the
    // squared scale
    assert(ux * ux == (cx * cx) * ss && uy * uy == (cy * cy) * ss && uz * uz == (cz * cz) * ss && uw
        * uw == (cw * cw) * ss) by (nonlinear_arith)
        requires
            ux == abs_int(cx) * s_i && uy == abs_int(cy) * s_i && uz == abs_int(cz) * s_i && uw
                == abs_int(cw) * s_i,
            ss == s_i * s_i,
            (abs_int(cx) == cx || abs_int(cx) == -cx) && (abs_int(cy) == cy || abs_int(cy) == -cy)
                && (abs_int(cz) == cz || abs_int(cz) == -cz) && (abs_int(cw) == cw || abs_int(cw)
                == -cw),
    ;
    // upper bound per component, then summed
    assert(nn * (kx * kx) <= ux * ux) by (nonlinear_arith)
        requires
            0 <= kx * n <= ux,
            nn == n * n,
    ;
    assert(nn * (ky * ky) <= uy * uy) by (nonlinear_arith)
        requires
            0 <= ky * n <= uy,
            nn == n * n,
    ;
    assert(nn * (kz * kz) <= uz * uz) by (nonlinear_arith)
        requires
            0 <= kz * n <= uz,
            nn == n * n,
    ;
    assert(nn * (kw * kw) <= uw * uw) by (nonlinear_arith)
        requires
            0 <= kw * n <= uw,
            nn == n * n,
    ;
    assert(nn * big == nn * (kx * kx) + nn * (ky * ky) + nn * (kz * kz) + nn * (kw * kw))
        by (nonlinear_arith)
        requires
            big == kx * kx + ky * ky + kz * kz + kw * kw,
    ;
    assert(ss * ns == (cx * cx) * ss + (cy * cy) * ss + (cz * cz) * ss + (cw * cw) * ss)
        by (nonlinear_arith)
        requires
            ns == cx * cx + cy * cy + cz * cz + cw * cw,
    ;
    assert(nn * big <= ss * ns);
    assert(ns <= nn + 2 * n) by (nonlinear_arith)
        requires
            ns < (n + 1) * (n + 1),
            nn == n * n,
    ;
    assert(ss * ns <= ss * (nn + 2 * n)) by (nonlinear_arith)
        requires
            ns <= nn + 2 * n,
            ss > 0,
    ;
    assert(ss * (nn + 2 * n) < nn * (ss + 6 * s_i)) by (nonlinear_arith)
        requires
            n >= 500_000,
            s_i == 1_000_000,
            ss == s_i * s_i,
            nn == n * n,
    ;
    assert(big < ss + 6 * s_i) by (nonlinear_arith)
        requires
            nn * big < nn * (ss + 6 * s_i),
            nn > 0,
    ;
    assert(nn > 0) by (nonlinear_arith)
        requires
            n >= 500_000,
            nn == n * n,
    ;
    // lower bound per component, then summed
    assert(ux * ux < nn * (kx * kx + 2 * kx + 1)) by (nonlinear_arith)
        requires
            0 <= ux < (kx + 1) * n,
            nn == n * n,
            kx >= 0,
    ;
    assert(uy * uy < nn * (ky * ky + 2 * ky + 1)) by (nonlinear_arith)
        requires
            0 <= uy < (ky + 1) * n,
            nn == n * n,
            ky >= 0,
    ;
    assert(uz * uz < nn * (kz * kz + 2 * kz + 1)) by (nonlinear_arith)
        requires
            0 <= uz < (kz + 1) * n,
            nn == n * n,
            kz >= 0,
    ;
    assert(uw * uw < nn * (kw * kw + 2 * kw + 1)) by (nonlinear_arith)
        requires
            0 <= uw < (kw + 1) * n,
            nn == n * n,
            kw >= 0,
    ;
    let kk = kx + ky + kz + kw;
    assert(nn * (kx * kx + 2 * kx + 1) + nn * (ky * ky + 2 * ky + 1) + nn * (kz * kz + 2 * kz + 1)
        + nn * (kw * kw + 2 * kw + 1) == nn * (big + 2 * kk + 4)) by (nonlinear_arith)
        requires
            big == kx * kx + ky * ky + kz * kz + kw * kw,
            kk == kx + ky + kz + kw,
    ;
    assert(ss * ns >= ss * nn) by (nonlinear_arith)
        requires
            ns >= nn,
            ss > 0,
            nn == n * n,
            n * n <= ns,
    ;
    assert(ss * nn < nn * (big + 2 * kk + 4));
    assert(big + 2 * kk + 4 > ss) by (nonlinear_arith)
        requires
            ss * nn < nn * (big + 2 * kk + 4),
            nn > 0,
    ;
    assert(kk <= 16_000_000);
    assert(big > ss - 32 * s_i - 4);
    // divide by the scale and land within tolerance
    assert(qnorm_sq_fx(q2) == sat64(div_trunc(big, s_i)));
    assert(big >= 0) by (nonlinear_arith)
        requires
            big == kx * kx + ky * ky + kz * kz + kw * kw,
    ;
    assert(div_trunc(big, s_i) == big / s_i);
    vstd::arithmetic::div_mod::lemma_div_is_ordered(big, ss + 6 * s_i - 1, s_i);
    vstd::arithmetic::div_mod::lemma_div_is_ordered(ss - 32 * s_i - 3, big, s_i);
    vstd::arithmetic::div_mod::lemma_fundamental_div_mod_converse(
        ss + 6 * s_i - 1,
        s_i,
        s_i + 5,
        s_i - 1,
    );
    vstd::arithmetic::div_mod::lemma_fundamental_div_mod_converse(
        ss - 32 * s_i - 3,
        s_i,
        s_i - 33,
        s_i - 3,
    );
    assert(s_i - 33 <= big / s_i <= s_i + 5);
}


/// The two body lists agree on every body's frame and mass: nothing moved
/// and nothing changed weight.
pub open spec fn frames_kept(before: Seq<BodyEntry>, after: Seq<BodyEntry>) -> bool {
    &&& after.len() == before.len()
    &&& forall|i: int|
        0 <= i < before.len() ==> (#[trigger] after[i]).transform == before[i].transform
            && after[i].rigid_body.mass == before[i].rigid_body.mass
}

/// A spring evaluation changes neither body's mass.
proof fn lemma_spring_step_masses(b1: BodyEntry, b2: BodyEntry, s: Spring)
    ensures
        spring_forces_s(b1, b2, s).0.mass == b1.rigid_body.mass,
        spring_forces_s(b1, b2, s).1.mass == b2.rigid_body.mass,
{
    reveal(spring_forces_s);
}

/// A range-distance evaluation changes neither body's mass.
proof fn lemma_distance_step_masses(
    b1: BodyEntry,
    b2: BodyEntry,
    c: DistanceConstraint,
    bias_koef: int,
)
    ensures
        distance_step_s(b1, b2, c, bias_koef).0.mass == b1.rigid_body.mass,
        distance_step_s(b1, b2, c, bias_koef).1.mass == b2.rigid_body.mass,
{
    reveal(distance_step_s);
}

/// A pulley evaluation changes neither body's mass.
proof fn lemma_pulley_step_masses(
    b1: BodyEntry,
    b2: BodyEntry,
    c: PulleyConstraint,
    bias_koef: int,
)
    ensures
        pulley_step_s(b1, b2, c, bias_koef).0.mass == b1.rigid_body.mass,
        pulley_step_s(b1, b2, c, bias_koef).1.mass == b2.rigid_body.mass,
{
    reveal(pulley_step_s);
}

/// A fixed-length evaluation changes neither body's mass.
proof fn lemma_fixed_step_masses(
    b1: BodyEntry,
    b2: BodyEntry,
    c: FixedLengthConstraint,
    bias_koef: int,
)
    ensures
        fixed_step_s(b1, b2, c, bias_koef).0.mass == b1.rigid_body.mass,
        fixed_step_s(b1, b2, c, bias_koef).1.mass == b2.rigid_body.mass,
{
    reveal(fixed_step_s);
}

/// An upper-bound length evaluation changes neither body's mass.
proof fn lemma_leq_step_masses(
    b1: BodyEntry,
    b2: BodyEntry,
    c: LowerThanOrEqualLengthConstraint,
    bias_koef: int,
)
    ensures
        leq_step_s(b1, b2, c, bias_koef).0.mass == b1.rigid_body.mass,
        leq_step_s(b1, b2, c, bias_koef).1.mass == b2.rigid_body.mass,
{
    reveal(leq_step_s);
}

/// The spring phase only accumulates forces: every frame and mass is kept.
proof fn lemma_spring_prefix_frames(bodies: Seq<BodyEntry>, springs: Seq<Spring>, k: int)
    requires
        0 <= k <= springs.len(),
        forall|t: int|
            0 <= t < springs.len() ==> pair_error(
                #[trigger] springs[t].first_body,
                springs[t].second_body,
                bodies.len() as nat,
            ) is None,
    ensures
        frames_kept(bodies, apply_springs_prefix_s(bodies, springs, k)),
    decreases k,
{
    if k > 0 {
        lemma_spring_prefix_frames(bodies, springs, k - 1);
        let prev = apply_springs_prefix_s(bodies, springs, k - 1);
        let s = springs[k - 1];
        lemma_spring_step_masses(prev[s.first_body as int], prev[s.second_body as int], s);
    }
}

/// A distance solve pass keeps every frame and mass.
proof fn lemma_distance_pass_frames(
    bodies: Seq<BodyEntry>,
    cs: Seq<DistanceConstraint>,
    bias_koef: int,
    k: int,
)
    requires
        0 <= k <= cs.len(),
        forall|t: int|
            0 <= t < cs.len() ==> pair_error(
                #[trigger] cs[t].first_body,
                cs[t].second_body,
                bodies.len() as nat,
            ) is None,
    ensures
        frames_kept(bodies, distance_pass_s(bodies, cs, bias_koef, k)),
    decreases k,
{
    if k > 0 {
        lemma_distance_pass_frames(bodies, cs, bias_koef, k - 1);
        let prev = distance_pass_s(bodies, cs, bias_koef, k - 1);
        let c = cs[k - 1];
        lemma_distance_step_masses(
            prev[c.first_body as int],
            prev[c.second_body as int],
            c,
            bias_koef,
        );
    }
}

/// Distance solve rounds keep every frame and mass.
proof fn lemma_distance_rounds_frames(
    bodies: Seq<BodyEntry>,
    cs: Seq<DistanceConstraint>,
    bias_koef: int,
    m: nat,
)
    requires
        forall|t: int|
            0 <= t < cs.len() ==> pair_error(
                #[trigger] cs[t].first_body,
                cs[t].second_body,
                bodies.len() as nat,
            ) is None,
    ensures
        frames_kept(bodies, distance_rounds_s(bodies, cs, bias_koef, m)),
    decreases m,
{
    if m > 0 {
        lemma_distance_rounds_frames(bodies, cs, bias_koef, (m - 1) as nat);
        let prev = distance_rounds_s(bodies, cs, bias_koef, (m - 1) as nat);
        lemma_distance_pass_frames(prev, cs, bias_koef, cs.len() as int);
    }
}

/// A pulley solve pass keeps every frame and mass.
proof fn lemma_pulley_pass_frames(
    bodies: Seq<BodyEntry>,
    cs: Seq<PulleyConstraint>,
    bias_koef: int,
    k: int,
)
    requires
        0 <= k <= cs.len(),
        forall|t: int|
            0 <= t < cs.len() ==> pair_error(
                #[trigger] cs[t].first_body,
                cs[t].second_body,
                bodies.len() as nat,
            ) is None,
    ensures
        frames_kept(bodies, pulley_pass_s(bodies, cs, bias_koef, k)),
    decreases k,
{
    if k > 0 {
        lemma_pulley_pass_frames(bodies, cs, bias_koef, k - 1);
        let prev = pulley_pass_s(bodies, cs, bias_koef, k - 1);
        let c = cs[k - 1];
        lemma_pulley_step_masses(
            prev[c.first_body as int],
            prev[c.second_body as int],
            c,
            bias_koef,
        );
    }
}

/// Pulley solve rounds keep every frame and mass.
proof fn lemma_pulley_rounds_frames(
    bodies: Seq<BodyEntry>,
    cs: Seq<PulleyConstraint>,
    bias_koef: int,
    m: nat,
)
    requires
        forall|t: int|
            0 <= t < cs.len() ==> pair_error(
                #[trigger] cs[t].first_body,
                cs[t].second_body,
                bodies.len() as nat,
            ) is None,
    ensures
        frames_kept(bodies, pulley_rounds_s(bodies, cs, bias_koef, m)),
    decreases m,
{
    if m > 0 {
        lemma_pulley_rounds_frames(bodies, cs, bias_koef, (m - 1) as nat);
        let prev = pulley_rounds_s(bodies, cs, bias_koef, (m - 1) as nat);
        lemma_pulley_pass_frames(prev, cs, bias_koef, cs.len() as int);
    }
}

/// A fixed-length solve pass keeps every frame and mass.
proof fn lemma_fixed_pass_frames(
    bodies: Seq<BodyEntry>,
    cs: Seq<FixedLengthConstraint>,
    bias_koef: int,
    k: int,
)
    requires
        0 <= k <= cs.len(),
        forall|t: int|
            0 <= t < cs.len() ==> pair_error(
                #[trigger] cs[t].first_body,
                cs[t].second_body,
                bodies.len() as nat,
            ) is None,
    ensures
        frames_kept(bodies, fixed_pass_s(bodies, cs, bias_koef, k)),
    decreases k,
{
    if k > 0 {
        lemma_fixed_pass_frames(bodies, cs, bias_koef, k - 1);
        let prev = fixed_pass_s(bodies, cs, bias_koef, k - 1);
        let c = cs[k - 1];
        lemma_fixed_step_masses(
            prev[c.first_body as int],
            prev[c.second_body as int],
            c,
            bias_koef,
        );
    }
}

/// Fixed-length solve rounds keep every frame and mass.
proof fn lemma_fixed_rounds_frames(
    bodies: Seq<BodyEntry>,
    cs: Seq<FixedLengthConstraint>,
    bias_koef: int,
    m: nat,
)
    requires
        forall|t: int|
            0 <= t < cs.len() ==> pair_error(
                #[trigger] cs[t].first_body,
                cs[t].second_body,
                bodies.len() as nat,
            ) is None,
    ensures
        frames_kept(bodies, fixed_rounds_s(bodies, cs, bias_koef, m)),
    decreases m,
{
    if m > 0 {
        lemma_fixed_rounds_frames(bodies, cs, bias_koef, (m - 1) as nat);
        let prev = fixed_rounds_s(bodies, cs, bias_koef, (m - 1) as nat);
        lemma_fixed_pass_frames(prev, cs, bias_koef, cs.len() as int);
    }
}

/// An upper-bound length solve pass keeps every frame and mass.
proof fn lemma_leq_pass_frames(
    bodies: Seq<BodyEntry>,
    cs: Seq<LowerThanOrEqualLengthConstraint>,
    bias_koef: int,
    k: int,
)
    requires
        0 <= k <= cs.len(),
        forall|t: int|
            0 <= t < cs.len() ==> pair_error(
                #[trigger] cs[t].first_body,
                cs[t].second_body,
                bodies.len() as nat,
            ) is None,
    ensures
        frames_kept(bodies, leq_pass_s(bodies, cs, bias_koef, k)),
    decreases k,
{
    if k > 0 {
        lemma_leq_pass_frames(bodies, cs, bias_koef, k - 1);
        let prev = leq_pass_s(bodies, cs, bias_koef, k - 1);
        let c = cs[k - 1];
        lemma_leq_step_masses(prev[c.first_body as int], prev[c.second_body as int], c, bias_koef);
    }
}

/// Upper-bound length solve rounds keep every frame and mass.
proof fn lemma_leq_rounds_frames(
    bodies: Seq<BodyEntry>,
    cs: Seq<LowerThanOrEqualLengthConstraint>,
    bias_koef: int,
    m: nat,
)
    requires
        forall|t: int|
            0 <= t < cs.len() ==> pair_error(
                #[trigger] cs[t].first_body,
                cs[t].second_body,
                bodies.len() as nat,
            ) is None,
    ensures
        frames_kept(bodies, leq_rounds_s(bodies, cs, bias_koef, m)),
    decreases m,
{
    if m > 0 {
        lemma_leq_rounds_frames(bodies, cs, bias_koef, (m - 1) as nat);
        let prev = leq_rounds_s(bodies, cs, bias_koef, (m - 1) as nat);
        lemma_leq_pass_frames(prev, cs, bias_koef, cs.len() as int);
    }
}

/// The integrator leaves an immovable body entirely alone, however many
/// substeps run.
proof fn lemma_euler_iter_static(e: BodyEntry, dt: int, m: nat)
    requires
        e.rigid_body.mass == 0,
    ensures
        euler_iter_s(e, dt, m) == e,
    decreases m,
{
    if m > 0 {
        lemma_euler_iter_static(e, dt, (m - 1) as nat);
        reveal(euler_step_s);
    }
}

/// An immovable body never moves: across one whole tick of a valid scene
/// — clearing, gravity, springs, all four constraint kinds and
/// integration — a body carrying the infinite-mass sentinel keeps its
/// position and orientation exactly.
pub proof fn lemma_immovable_bodies_never_move(
    bodies: Seq<BodyEntry>,
    springs: Seq<Spring>,
    dcs: Seq<DistanceConstraint>,
    pcs: Seq<PulleyConstraint>,
    fcs: Seq<FixedLengthConstraint>,
    lcs: Seq<LowerThanOrEqualLengthConstraint>,
    settings: SettingsResource,
    dt: int,
    i: int,
)
    requires
        tick_error_s(springs, dcs, pcs, fcs, lcs, bodies.len() as nat) is None,
        0 <= i < bodies.len(),
        bodies[i].rigid_body.mass == 0,
    ensures
        tick_s(bodies, springs, dcs, pcs, fcs, lcs, settings, dt).len() == bodies.len(),
        tick_s(bodies, springs, dcs, pcs, fcs, lcs, settings, dt)[i].transform
            == bodies[i].transform,
{
    let n = bodies.len() as nat;
    crate::springs::lemma_springs_ok(springs, n);
    crate::constraint::distance::lemma_distance_refs_ok(dcs, n);
    crate::constraint::pulley::lemma_pulley_refs_ok(pcs, n);
    crate::constraint::fixed_length::lemma_fixed_refs_ok(fcs, n);
    crate::constraint::leq_length::lemma_leq_refs_ok(lcs, n);
    let s0 = clear_all_s(bodies);
    let s1 = gravity_all_s(s0, settings.gravity_vector);
    assert(frames_kept(bodies, s0));
    assert(frames_kept(bodies, s1));
    let bias = crate::constraint::distance::constraint_bias_koef_s(dt, settings);
    let rounds = settings.constraints_substeps as nat;
    let s2 = apply_springs_prefix_s(s1, springs, springs.len() as int);
    lemma_spring_prefix_frames(s1, springs, springs.len() as int);
    assert(frames_kept(bodies, s2));
    let s3 = distance_rounds_s(s2, dcs, bias, rounds);
    lemma_distance_rounds_frames(s2, dcs, bias, rounds);
    assert(frames_kept(bodies, s3));
    let s4 = pulley_rounds_s(s3, pcs, bias, rounds);
    lemma_pulley_rounds_frames(s3, pcs, bias, rounds);
    assert(frames_kept(bodies, s4));
    let s5 = fixed_rounds_s(s4, fcs, bias, rounds);
    lemma_fixed_rounds_frames(s4, fcs, bias, rounds);
    assert(frames_kept(bodies, s5));
    let s6 = leq_rounds_s(s5, lcs, bias, rounds);
    lemma_leq_rounds_frames(s5, lcs, bias, rounds);
    assert(frames_kept(bodies, s6));
    let dt_sub = integration_dt_s(dt, settings);
    lemma_integrate_rounds_pointwise(s6, dt_sub, settings.integration_substeps as nat, i);
    lemma_euler_iter_static(s6[i], dt_sub, settings.integration_substeps as nat);
}

} // verus!
