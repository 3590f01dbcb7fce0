use pdrust::body::{BodyEntry, RigidBody, Transform};
use pdrust::constraint::distance::{
    solve_distance_constraints, update_distance_constraints_transformation, DistanceConstraint,
};
use pdrust::constraint::fixed_length::{handle_fixed_length_constraints, FixedLengthConstraint};
use pdrust::constraint::leq_length::{
    handle_leq_length_constraints, LowerThanOrEqualLengthConstraint,
};
use pdrust::constraint::pulley::{solve_pulley_constraints, PulleyConstraint};
use pdrust::energy::{
    total_sum_of_energy, update_energy_for_rigid_bodies, update_energy_for_springs, Energy,
};
use pdrust::fx::SCALE;
use pdrust::settings::{IntergrationMethod, SettingsResource};
use pdrust::solver::{clean_forces_and_torque, gravity, step_in_simulation, EulerSolver};
use pdrust::springs::{handle_spring_forces, update_spring_transformation, Spring};
use pdrust::vec3::Vec3x;
use pdrust::SimError;

fn v(x: i64, y: i64, z: i64) -> Vec3x {
    Vec3x::new(x * SCALE, y * SCALE, z * SCALE)
}

fn sphere_at(x: i64, y: i64, z: i64, mass: i64) -> BodyEntry {
    BodyEntry {
        transform: Transform::from_translation(v(x, y, z)),
        rigid_body: RigidBody::new_sphere(mass * SCALE, SCALE, Vec3x::zero(), Vec3x::zero())
            .expect("sphere"),
    }
}

fn anchor_at(x: i64, y: i64, z: i64) -> BodyEntry {
    BodyEntry {
        transform: Transform::from_translation(v(x, y, z)),
        rigid_body: RigidBody::new(
            0,
            pdrust::mat3::Mat3x::identity(),
            Vec3x::zero(),
            Vec3x::zero(),
        )
        .expect("anchor"),
    }
}

fn plain_spring(first: usize, second: usize, rest: i64, k: i64, damping: i64) -> Spring {
    Spring {
        first_body: first,
        first_body_attachment_point_offset: Vec3x::zero(),
        second_body: second,
        second_body_attachment_point_offset: Vec3x::zero(),
        rest_length: rest * SCALE,
        spring_constant: k * SCALE,
        damping_constant: damping * SCALE,
    }
}

#[test]
fn clearing_zeroes_any_accumulated_forces() {
    let mut bodies = vec![sphere_at(0, 0, 0, 1), sphere_at(2, 0, 0, 3)];
    bodies[0].rigid_body.force = v(5, -7, 11);
    bodies[0].rigid_body.torque = v(-1, 2, -3);
    bodies[1].rigid_body.force = v(i64::MAX / SCALE, 0, 0);
    clean_forces_and_torque(&mut bodies);
    for b in &bodies {
        assert_eq!(b.rigid_body.force, Vec3x::zero());
        assert_eq!(b.rigid_body.torque, Vec3x::zero());
    }
    // everything else is untouched
    assert_eq!(bodies[1].transform.translation, v(2, 0, 0));
    assert_eq!(bodies[1].rigid_body.mass, 3 * SCALE);
}

#[test]
fn gravity_adds_weight_to_finite_masses_only() {
    let mut bodies = vec![sphere_at(0, 0, 0, 2), anchor_at(1, 1, 1)];
    let settings = SettingsResource::default();
    gravity(&mut bodies, &settings);
    assert_eq!(bodies[0].rigid_body.force, Vec3x::new(0, -19_620_000, 0));
    assert_eq!(bodies[0].rigid_body.torque, Vec3x::zero());
    assert_eq!(bodies[1].rigid_body.force, Vec3x::zero());
}

#[test]
fn spring_pulls_stretched_bodies_together() {
    let mut bodies = vec![sphere_at(0, 0, 0, 1), sphere_at(2, 0, 0, 1)];
    let springs = vec![plain_spring(0, 1, 1, 5, 0)];
    handle_spring_forces(&springs, &mut bodies).expect("valid handles");
    // stretched by one unit at strength five: five units of force inward
    assert_eq!(bodies[0].rigid_body.force, v(5, 0, 0));
    assert_eq!(bodies[1].rigid_body.force, v(-5, 0, 0));
    assert_eq!(bodies[0].rigid_body.torque, Vec3x::zero());
    assert_eq!(bodies[1].rigid_body.torque, Vec3x::zero());
}

#[test]
fn spring_with_coincident_endpoints_is_skipped() {
    let mut bodies = vec![sphere_at(1, 1, 1, 1), sphere_at(1, 1, 1, 1)];
    let springs = vec![plain_spring(0, 1, 1, 5, 0)];
    handle_spring_forces(&springs, &mut bodies).expect("valid handles");
    assert_eq!(bodies[0].rigid_body.force, Vec3x::zero());
    assert_eq!(bodies[1].rigid_body.force, Vec3x::zero());
}

#[test]
fn refused_handles_leave_bodies_untouched() {
    let mut bodies = vec![sphere_at(0, 0, 0, 1), sphere_at(2, 0, 0, 1)];
    let before = bodies.clone();
    let dup = vec![plain_spring(1, 1, 1, 5, 0)];
    assert_eq!(
        handle_spring_forces(&dup, &mut bodies).unwrap_err(),
        SimError::DuplicateBodyHandle
    );
    let missing = vec![plain_spring(0, 7, 1, 5, 0)];
    assert_eq!(
        handle_spring_forces(&missing, &mut bodies).unwrap_err(),
        SimError::MissingBodyHandle
    );
    assert_eq!(bodies, before);
}

#[test]
fn constraint_solvers_refuse_bad_handles() {
    let mut bodies = vec![sphere_at(0, 0, 0, 1), sphere_at(2, 0, 0, 1)];
    let settings = SettingsResource::default();
    let dt = SCALE / 60;
    let d = vec![DistanceConstraint::new(3, 0, Vec3x::zero(), Vec3x::zero(), 0, SCALE)];
    assert_eq!(
        solve_distance_constraints(&d, &mut bodies, &settings, dt).unwrap_err(),
        SimError::MissingBodyHandle
    );
    let p = vec![PulleyConstraint::new(1, 1, Vec3x::zero(), Vec3x::zero(), SCALE, Vec3x::zero())];
    assert_eq!(
        solve_pulley_constraints(&p, &mut bodies, &settings, dt).unwrap_err(),
        SimError::DuplicateBodyHandle
    );
    let f = vec![FixedLengthConstraint::new(0, 9, 0, SCALE)];
    assert_eq!(
        handle_fixed_length_constraints(&f, &mut bodies, &settings, dt).unwrap_err(),
        SimError::MissingBodyHandle
    );
    let l = vec![LowerThanOrEqualLengthConstraint::new(2, 2, SCALE)];
    assert_eq!(
        handle_leq_length_constraints(&l, &mut bodies, &settings, dt).unwrap_err(),
        SimError::DuplicateBodyHandle
    );
}

#[test]
fn inactive_constraints_change_nothing() {
    let mut bodies = vec![sphere_at(0, 0, 0, 1), sphere_at(2, 0, 0, 1)];
    let before = bodies.clone();
    let settings = SettingsResource::default();
    let dt = SCALE / 60;
    // the pair sits inside every band, so no impulse is owed
    let d = vec![DistanceConstraint::new(0, 1, Vec3x::zero(), Vec3x::zero(), SCALE, 3 * SCALE)];
    solve_distance_constraints(&d, &mut bodies, &settings, dt).expect("valid");
    let f = vec![FixedLengthConstraint::new(0, 1, SCALE, 3 * SCALE)];
    handle_fixed_length_constraints(&f, &mut bodies, &settings, dt).expect("valid");
    let l = vec![LowerThanOrEqualLengthConstraint::new(0, 1, 3 * SCALE)];
    handle_leq_length_constraints(&l, &mut bodies, &settings, dt).expect("valid");
    let p = vec![PulleyConstraint::new(
        0,
        1,
        Vec3x::zero(),
        Vec3x::zero(),
        30 * SCALE,
        v(1, 0, 0),
    )];
    solve_pulley_constraints(&p, &mut bodies, &settings, dt).expect("valid");
    assert_eq!(bodies, before);
}

#[test]
fn too_close_pair_is_pushed_apart() {
    // below the band's lower bound, the impulse must separate the pair
    let mut bodies = vec![sphere_at(0, 0, 0, 1), sphere_at(1, 0, 0, 1)];
    let settings = SettingsResource::default();
    let d = vec![DistanceConstraint::new(
        0,
        1,
        Vec3x::zero(),
        Vec3x::zero(),
        3 * SCALE,
        5 * SCALE,
    )];
    solve_distance_constraints(&d, &mut bodies, &settings, SCALE / 60).expect("valid");
    assert!(bodies[0].rigid_body.pulse.x < 0, "left pulse {}", bodies[0].rigid_body.pulse.x);
    assert!(bodies[1].rigid_body.pulse.x > 0, "right pulse {}", bodies[1].rigid_body.pulse.x);
}

#[test]
fn stretched_band_pulls_centers_together() {
    let mut bodies = vec![sphere_at(0, 0, 0, 1), sphere_at(4, 0, 0, 1)];
    let settings = SettingsResource::default();
    let f = vec![FixedLengthConstraint::new(0, 1, SCALE, 2 * SCALE)];
    handle_fixed_length_constraints(&f, &mut bodies, &settings, SCALE / 60).expect("valid");
    assert!(bodies[0].rigid_body.pulse.x > 0, "left pulse {}", bodies[0].rigid_body.pulse.x);
    assert!(bodies[1].rigid_body.pulse.x < 0, "right pulse {}", bodies[1].rigid_body.pulse.x);
}

#[test]
fn overlong_leash_pulls_centers_together() {
    let mut bodies = vec![sphere_at(0, 0, 0, 1), sphere_at(4, 0, 0, 1)];
    let settings = SettingsResource::default();
    let l = vec![LowerThanOrEqualLengthConstraint::new(0, 1, 2 * SCALE)];
    handle_leq_length_constraints(&l, &mut bodies, &settings, SCALE / 60).expect("valid");
    assert!(bodies[0].rigid_body.pulse.x > 0, "left pulse {}", bodies[0].rigid_body.pulse.x);
    assert!(bodies[1].rigid_body.pulse.x < 0, "right pulse {}", bodies[1].rigid_body.pulse.x);
    // an immovable end takes no impulse even when the leash is taut
    let mut mixed = vec![anchor_at(0, 0, 0), sphere_at(4, 0, 0, 1)];
    handle_leq_length_constraints(&l, &mut mixed, &settings, SCALE / 60).expect("valid");
    assert_eq!(mixed[0].rigid_body.pulse, Vec3x::zero());
    assert!(mixed[1].rigid_body.pulse.x < 0);
}

#[test]
fn integration_moves_by_velocity_and_absorbs_force() {
    let mut bodies = vec![sphere_at(0, 0, 0, 1)];
    bodies[0].rigid_body.pulse = v(1, 0, 0);
    bodies[0].rigid_body.force = v(2, 0, 0);
    let settings = SettingsResource::default();
    // one full second, split into the configured eight substeps
    step_in_simulation(&mut bodies, &settings, SCALE);
    assert_eq!(bodies[0].rigid_body.pulse, v(3, 0, 0));
    // position advances with the pre-step momentum of each substep
    assert_eq!(bodies[0].transform.translation.x, 1_875_000);
    // no spin: the orientation is exactly untouched
    assert_eq!(bodies[0].transform.rotation, pdrust::quat::Quatx::identity());
}

#[test]
fn integrator_keeps_orientation_near_unit_length() {
    let mut bodies = vec![BodyEntry {
        transform: Transform::from_translation(Vec3x::zero()),
        rigid_body: RigidBody::new_sphere(SCALE, SCALE, Vec3x::zero(), v(0, 0, 500_000))
            .expect("sphere"),
    }];
    let settings = SettingsResource::default();
    for _ in 0..600 {
        step_in_simulation(&mut bodies, &settings, SCALE / 60);
        let len = bodies[0].transform.rotation.length();
        assert!((len - SCALE).abs() <= 100, "orientation length {}", len);
    }
}

#[test]
fn one_euler_substep_by_hand() {
    let mut e = sphere_at(0, 0, 0, 1);
    e.rigid_body.pulse = v(4, 0, 0);
    e.rigid_body.torque = v(0, 0, 1);
    let solver = EulerSolver {};
    solver.step(&mut e, SCALE / 2);
    assert_eq!(e.transform.translation, v(2, 0, 0));
    assert_eq!(e.rigid_body.angular_momentum, Vec3x::new(0, 0, 500_000));
    // an immovable body is untouched by the integrator
    let mut a = anchor_at(3, 3, 3);
    a.rigid_body.pulse = v(9, 9, 9);
    solver.step(&mut a, SCALE);
    assert_eq!(a.transform.translation, v(3, 3, 3));
}

#[test]
fn settings_reject_out_of_range_values() {
    let bad = SettingsResource::new(
        IntergrationMethod::EulerMethod,
        0,
        16,
        100_000,
        v(0, -10, 0),
        SCALE,
        false,
    );
    assert_eq!(bad.unwrap_err(), SimError::InvalidConfiguration);
    let slow = SettingsResource::new(
        IntergrationMethod::EulerMethod,
        8,
        16,
        100_000,
        v(0, -10, 0),
        SCALE / 2,
        false,
    );
    assert_eq!(slow.unwrap_err(), SimError::InvalidConfiguration);
    let good = SettingsResource::new(
        IntergrationMethod::EulerMethod,
        8,
        16,
        100_000,
        v(0, -10, 0),
        SCALE,
        true,
    );
    assert!(good.is_ok());
}

#[test]
fn tick_runs_on_an_empty_scene() {
    let mut bodies: Vec<BodyEntry> = Vec::new();
    let settings = SettingsResource::default();
    pdrust::solver::tick(
        &mut bodies,
        &Vec::new(),
        &Vec::new(),
        &Vec::new(),
        &Vec::new(),
        &Vec::new(),
        &settings,
        SCALE / 60,
    )
    .expect("nothing to refuse");
    assert!(bodies.is_empty());
}

#[test]
fn tick_refuses_before_touching_any_body() {
    let mut bodies = vec![sphere_at(0, 0, 0, 1), sphere_at(2, 0, 0, 1)];
    let before = bodies.clone();
    let settings = SettingsResource::default();
    // the pulley's bad handle is found before gravity or springs act
    let pcs = vec![PulleyConstraint::new(0, 5, Vec3x::zero(), Vec3x::zero(), SCALE, Vec3x::zero())];
    let r = pdrust::solver::tick(
        &mut bodies,
        &vec![plain_spring(0, 1, 1, 5, 0)],
        &Vec::new(),
        &pcs,
        &Vec::new(),
        &Vec::new(),
        &settings,
        SCALE / 60,
    );
    assert_eq!(r.unwrap_err(), SimError::MissingBodyHandle);
    assert_eq!(bodies, before);
}

#[test]
fn spring_energy_from_elongation() {
    let bodies = vec![sphere_at(0, 0, 0, 1), sphere_at(3, 0, 0, 1)];
    let springs = vec![plain_spring(0, 1, 1, 5, 0)];
    let mut energies = vec![Energy::default()];
    update_energy_for_springs(&springs, &bodies, &mut energies).expect("valid");
    // half of five times the squared elongation of two
    assert_eq!(energies[0].value(), 10 * SCALE);
}

#[test]
fn body_energy_and_total_sum() {
    let mut bodies = vec![sphere_at(0, 2, 0, 3)];
    bodies[0].rigid_body.pulse = v(2, 0, 0);
    bodies[0].rigid_body.mass = 2 * SCALE;
    let mut energies = vec![Energy::default()];
    update_energy_for_rigid_bodies(&bodies, &mut energies, v(0, -10, 0));
    // one unit kinetic plus forty units potential
    assert_eq!(energies[0].value(), 41 * SCALE);
    assert_eq!(total_sum_of_energy(&energies), 41 * SCALE);
    assert_eq!(total_sum_of_energy(&Vec::new()), 0);
}

#[test]
fn display_endpoints_follow_the_bodies() {
    let bodies = vec![sphere_at(1, 0, 0, 1), sphere_at(4, 0, 0, 1)];
    let s = plain_spring(0, 1, 1, 5, 0);
    let (a, b) = update_spring_transformation(&s, &bodies).expect("valid");
    assert_eq!(a, v(1, 0, 0));
    assert_eq!(b, v(4, 0, 0));
    let d = DistanceConstraint::new(0, 1, v(1, 0, 0), Vec3x::zero(), 0, SCALE);
    let (a, b) = update_distance_constraints_transformation(&d, &bodies).expect("valid");
    assert_eq!(a, v(2, 0, 0));
    assert_eq!(b, v(4, 0, 0));
    let p = PulleyConstraint::new(0, 1, Vec3x::zero(), Vec3x::zero(), 30 * SCALE, v(0, 10, 0));
    let (a, b) =
        pdrust::constraint::pulley::update_pulley_constraints_transformation(&p, &bodies)
            .expect("valid");
    assert_eq!(a, v(1, 0, 0));
    assert_eq!(b, v(4, 0, 0));
}
