use pdrust::body::{BodyEntry, RigidBody, Transform};
use pdrust::constraint::distance::DistanceConstraint;
use pdrust::constraint::fixed_length::FixedLengthConstraint;
use pdrust::constraint::leq_length::LowerThanOrEqualLengthConstraint;
use pdrust::constraint::pulley::PulleyConstraint;
use pdrust::fx::SCALE;
use pdrust::settings::{IntergrationMethod, SettingsResource};
use pdrust::solver::tick;
use pdrust::springs::Spring;
use pdrust::vec3::Vec3x;

fn v(x: i64, y: i64, z: i64) -> Vec3x {
    Vec3x::new(x * SCALE, y * SCALE, z * SCALE)
}

fn sphere_at(pos: Vec3x, mass: i64) -> BodyEntry {
    BodyEntry {
        transform: Transform::from_translation(pos),
        rigid_body: RigidBody::new_sphere(mass, SCALE, Vec3x::zero(), Vec3x::zero())
            .expect("sphere"),
    }
}

fn anchor_at(pos: Vec3x) -> BodyEntry {
    BodyEntry {
        transform: Transform::from_translation(pos),
        rigid_body: RigidBody::new(
            0,
            pdrust::mat3::Mat3x::identity(),
            Vec3x::zero(),
            Vec3x::zero(),
        )
        .expect("anchor"),
    }
}

fn no_gravity_settings() -> SettingsResource {
    SettingsResource::new(
        IntergrationMethod::EulerMethod,
        8,
        16,
        100_000,
        Vec3x::zero(),
        SCALE,
        false,
    )
    .expect("settings")
}

fn constraint_settings() -> SettingsResource {
    // a gentler stabilization gain suits the stiff range constraint
    SettingsResource::new(
        IntergrationMethod::EulerMethod,
        8,
        10,
        10_000,
        Vec3x::new(0, -9_810_000, 0),
        SCALE,
        false,
    )
    .expect("settings")
}

fn run(
    bodies: &mut Vec<BodyEntry>,
    springs: &Vec<Spring>,
    dcs: &Vec<DistanceConstraint>,
    pcs: &Vec<PulleyConstraint>,
    settings: &SettingsResource,
    ticks: usize,
    dt: i64,
) {
    let fcs: Vec<FixedLengthConstraint> = Vec::new();
    let lcs: Vec<LowerThanOrEqualLengthConstraint> = Vec::new();
    for _ in 0..ticks {
        tick(bodies, springs, dcs, pcs, &fcs, &lcs, settings, dt).expect("valid scene");
    }
}

fn separation(bodies: &Vec<BodyEntry>, a: usize, b: usize) -> i64 {
    bodies[a]
        .transform
        .translation
        .sub(&bodies[b].transform.translation)
        .length()
}

/// Two unit masses joined by a damped spring, no gravity: the stretch
/// decays and the separation settles at the rest length.
#[test]
fn damped_spring_settles_at_rest_length() {
    let mut bodies = vec![sphere_at(v(0, 0, 0), SCALE), sphere_at(v(2, 0, 0), SCALE)];
    let springs = vec![Spring {
        first_body: 0,
        first_body_attachment_point_offset: Vec3x::zero(),
        second_body: 1,
        second_body_attachment_point_offset: Vec3x::zero(),
        rest_length: SCALE,
        spring_constant: 5 * SCALE,
        damping_constant: SCALE,
    }];
    let settings = no_gravity_settings();
    let dt = SCALE / 60;
    let mut worst_early: i64 = 0;
    let mut worst_late: i64 = 0;
    for phase in 0..2 {
        for _ in 0..1800 {
            run(&mut bodies, &springs, &Vec::new(), &Vec::new(), &settings, 1, dt);
            let stretch = (separation(&bodies, 0, 1) - SCALE).abs();
            if phase == 0 {
                worst_early = worst_early.max(stretch);
            } else {
                worst_late = worst_late.max(stretch);
            }
        }
    }
    // the oscillation has decayed: the late half swings far less
    assert!(worst_late * 4 < worst_early, "early {} late {}", worst_early, worst_late);
    // and the pair has come close to the rest length
    let residue = (separation(&bodies, 0, 1) - SCALE).abs();
    assert!(residue < SCALE / 20, "separation residue {}", residue);
}

/// A closed two-body spring system conserves total linear momentum
/// exactly, tick after tick.
#[test]
fn spring_pair_conserves_momentum() {
    let mut bodies = vec![sphere_at(v(0, 0, 0), SCALE), sphere_at(v(2, 0, 0), SCALE)];
    bodies[0].rigid_body.pulse = v(1, 0, 0);
    bodies[1].rigid_body.pulse = Vec3x::new(-300_000, 200_000, 0);
    let springs = vec![Spring {
        first_body: 0,
        first_body_attachment_point_offset: Vec3x::zero(),
        second_body: 1,
        second_body_attachment_point_offset: Vec3x::zero(),
        rest_length: SCALE,
        spring_constant: 5 * SCALE,
        damping_constant: SCALE,
    }];
    let settings = no_gravity_settings();
    let total0 = (
        bodies[0].rigid_body.pulse.x + bodies[1].rigid_body.pulse.x,
        bodies[0].rigid_body.pulse.y + bodies[1].rigid_body.pulse.y,
        bodies[0].rigid_body.pulse.z + bodies[1].rigid_body.pulse.z,
    );
    for _ in 0..300 {
        run(&mut bodies, &springs, &Vec::new(), &Vec::new(), &settings, 1, SCALE / 60);
        let total = (
            bodies[0].rigid_body.pulse.x + bodies[1].rigid_body.pulse.x,
            bodies[0].rigid_body.pulse.y + bodies[1].rigid_body.pulse.y,
            bodies[0].rigid_body.pulse.z + bodies[1].rigid_body.pulse.z,
        );
        assert_eq!(total, total0);
    }
}

/// With no damping and no gravity the spring system's total energy stays
/// bounded near its starting value: the explicit integrator wobbles but
/// does not blow up over a short run.
#[test]
fn undamped_spring_energy_stays_bounded() {
    let mut bodies = vec![sphere_at(v(0, 0, 0), SCALE), sphere_at(v(2, 0, 0), SCALE)];
    let springs = vec![Spring {
        first_body: 0,
        first_body_attachment_point_offset: Vec3x::zero(),
        second_body: 1,
        second_body_attachment_point_offset: Vec3x::zero(),
        rest_length: SCALE,
        spring_constant: 5 * SCALE,
        damping_constant: 0,
    }];
    let settings = no_gravity_settings();
    let energy = |bodies: &Vec<BodyEntry>| -> i64 {
        let mut body_e = vec![pdrust::energy::Energy::default(), pdrust::energy::Energy::default()];
        pdrust::energy::update_energy_for_rigid_bodies(bodies, &mut body_e, Vec3x::zero());
        let mut spring_e = vec![pdrust::energy::Energy::default()];
        pdrust::energy::update_energy_for_springs(&springs, bodies, &mut spring_e)
            .expect("valid");
        pdrust::energy::total_sum_of_energy(&body_e)
            + pdrust::energy::total_sum_of_energy(&spring_e)
    };
    let e0 = energy(&bodies);
    // half of five times the square of the one-unit stretch
    assert_eq!(e0, 2_500_000);
    // two simulated seconds at the base rate, then the same span at a
    // quarter of the step: the drift must be bounded and must shrink
    let mut coarse: i64 = 0;
    for _ in 0..120 {
        run(&mut bodies, &springs, &Vec::new(), &Vec::new(), &settings, 1, SCALE / 60);
        coarse = coarse.max((energy(&bodies) - e0).abs());
    }
    let mut fine_bodies = vec![sphere_at(v(0, 0, 0), SCALE), sphere_at(v(2, 0, 0), SCALE)];
    let mut fine: i64 = 0;
    for _ in 0..480 {
        run(&mut fine_bodies, &springs, &Vec::new(), &Vec::new(), &settings, 1, SCALE / 240);
        let mut body_e = vec![pdrust::energy::Energy::default(), pdrust::energy::Energy::default()];
        pdrust::energy::update_energy_for_rigid_bodies(&fine_bodies, &mut body_e, Vec3x::zero());
        let mut spring_e = vec![pdrust::energy::Energy::default()];
        pdrust::energy::update_energy_for_springs(&springs, &fine_bodies, &mut spring_e)
            .expect("valid");
        let e = pdrust::energy::total_sum_of_energy(&body_e)
            + pdrust::energy::total_sum_of_energy(&spring_e);
        fine = fine.max((e - e0).abs());
    }
    assert!(coarse <= e0 / 2, "coarse drift {}", coarse);
    assert!(fine * 2 < coarse, "coarse {} fine {}", coarse, fine);
}

/// A free body tied at range three to an immovable anchor swings under
/// gravity without escaping the band.
#[test]
fn anchored_body_settles_on_the_sphere_of_permitted_distance() {
    let mut bodies = vec![anchor_at(v(0, 0, 0)), sphere_at(v(5, 0, 0), SCALE)];
    let dcs = vec![DistanceConstraint::new(
        0,
        1,
        Vec3x::zero(),
        Vec3x::zero(),
        3 * SCALE,
        3 * SCALE,
    )];
    let settings = constraint_settings();
    let dt = SCALE / 60;
    run(&mut bodies, &Vec::new(), &dcs, &Vec::new(), &settings, 900, dt);
    // after the pull-in converges, the body must live near radius three
    let mut worst_over: i64 = 0;
    for _ in 0..600 {
        run(&mut bodies, &Vec::new(), &dcs, &Vec::new(), &settings, 1, dt);
        let r = separation(&bodies, 0, 1);
        worst_over = worst_over.max(r - 3 * SCALE);
    }
    assert!(worst_over <= 300_000, "over-range by {}", worst_over);
    let r = separation(&bodies, 0, 1);
    assert!(
        (r - 3 * SCALE).abs() <= 450_000,
        "distance from anchor {}",
        r
    );
    // it has swung downward under gravity
    assert!(bodies[1].transform.translation.y < 0);
    // the immovable anchor has not moved by a single unit
    assert_eq!(bodies[0].transform.translation, Vec3x::zero());
    assert_eq!(bodies[0].transform.rotation, pdrust::quat::Quatx::identity());
}

/// A pulley with unequal masses: the heavier side descends, the lighter
/// side rises, and the cord's two segments keep their summed length.
#[test]
fn pulley_lowers_the_heavier_body() {
    let mut bodies = vec![
        sphere_at(v(-10, -1, 0), 10 * SCALE),
        sphere_at(v(10, -1, 0), 20 * SCALE),
    ];
    let pivot = v(0, 10, 0);
    let pcs = vec![PulleyConstraint::new(
        0,
        1,
        Vec3x::zero(),
        Vec3x::zero(),
        30 * SCALE,
        pivot,
    )];
    let settings = SettingsResource::default();
    let dt = SCALE / 60;
    let cord = |bodies: &Vec<BodyEntry>| -> i64 {
        bodies[0].transform.translation.sub(&pivot).length()
            + bodies[1].transform.translation.sub(&pivot).length()
    };
    // the pair starts slightly slack; once taut the cord must keep its
    // summed length while the sides trade cord
    let mut worst: i64 = 0;
    let mut traded = false;
    for step in 0..1200 {
        run(&mut bodies, &Vec::new(), &Vec::new(), &pcs, &settings, 1, dt);
        if step >= 120 {
            worst = worst.max((cord(&bodies) - 30 * SCALE).abs());
        }
        let y_light = bodies[0].transform.translation.y;
        let y_heavy = bodies[1].transform.translation.y;
        if y_heavy < -6 * SCALE && y_light > 0 {
            traded = true;
        }
    }
    assert!(worst <= 2_500_000, "cord length drift {}", worst);
    assert!(traded, "the heavier body never descended while the lighter rose");
}
