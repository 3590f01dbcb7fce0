use pdrust::body::{Body, BodyEntry, RigidBody, Transform};
use pdrust::fx::SCALE;
use pdrust::mat3::Mat3x;
use pdrust::quat::Quatx;
use pdrust::vec3::Vec3x;
use pdrust::SimError;

fn v(x: i64, y: i64, z: i64) -> Vec3x {
    Vec3x::new(x * SCALE, y * SCALE, z * SCALE)
}

fn at(x: i64, y: i64, z: i64) -> Transform {
    Transform::from_translation(v(x, y, z))
}

#[test]
fn box_inertia_tensor_from_edge_lengths() {
    let b = RigidBody::new_box(2 * SCALE, SCALE, 2 * SCALE, 3 * SCALE, Vec3x::zero(), Vec3x::zero())
        .expect("box");
    assert_eq!(
        b.intertia_tensor_body,
        Mat3x::diagonal(13 * SCALE, 10 * SCALE, 5 * SCALE)
    );
    assert_eq!(b.mass, 2 * SCALE);
    assert_eq!(b.force, Vec3x::zero());
    assert_eq!(b.torque, Vec3x::zero());
}

#[test]
fn sphere_inertia_tensor_from_radius() {
    let b = RigidBody::new_sphere(SCALE, 2 * SCALE, Vec3x::zero(), Vec3x::zero()).expect("sphere");
    assert_eq!(b.intertia_tensor_body, Mat3x::diagonal(1_600_000, 1_600_000, 1_600_000));
}

#[test]
fn singular_inertia_tensor_is_refused() {
    let r = RigidBody::new(SCALE, Mat3x::zero(), Vec3x::zero(), Vec3x::zero());
    assert_eq!(r.unwrap_err(), SimError::SingularInertiaTensor);
    // an immovable body never inverts its tensor, so anything goes
    assert!(RigidBody::new(0, Mat3x::zero(), Vec3x::zero(), Vec3x::zero()).is_ok());
    // a box degenerate enough to lose its tensor to truncation is refused too
    let r = RigidBody::new_box(SCALE, 0, 0, 0, Vec3x::zero(), Vec3x::zero());
    assert_eq!(r.unwrap_err(), SimError::SingularInertiaTensor);
}

#[test]
fn default_body_is_a_unit_cube_at_rest() {
    let b = RigidBody::default();
    assert_eq!(b.mass, SCALE);
    assert_eq!(b.intertia_tensor_body, Mat3x::diagonal(666_666, 666_666, 666_666));
    assert_eq!(b.pulse, Vec3x::zero());
    assert_eq!(b.angular_momentum, Vec3x::zero());
}

#[test]
fn velocity_is_momentum_over_mass() {
    let b = RigidBody::new_sphere(2 * SCALE, SCALE, v(4, 0, -2), Vec3x::zero()).expect("sphere");
    assert_eq!(b.get_velocity(), v(2, 0, -1));
    // an immovable body reports zero velocity whatever it stores
    let anchor = RigidBody::new(0, Mat3x::identity(), v(9, 9, 9), Vec3x::zero()).expect("anchor");
    assert_eq!(anchor.get_velocity(), Vec3x::zero());
}

#[test]
fn applied_force_accumulates_force_and_moment() {
    let mut b = RigidBody::new_sphere(SCALE, SCALE, Vec3x::zero(), Vec3x::zero()).expect("sphere");
    let t = at(0, 0, 0);
    b.apply_force(&t, v(1, 0, 0), v(0, 10, 0));
    assert_eq!(b.force, v(0, 10, 0));
    assert_eq!(b.torque, v(0, 0, 10));
    // a second application accumulates instead of replacing
    b.apply_force(&t, v(1, 0, 0), v(0, 10, 0));
    assert_eq!(b.force, v(0, 20, 0));
    assert_eq!(b.torque, v(0, 0, 20));
}

#[test]
fn force_at_body_point_converts_to_world_first() {
    let mut b = RigidBody::new_sphere(SCALE, SCALE, Vec3x::zero(), Vec3x::zero()).expect("sphere");
    let t = at(5, 0, 0);
    b.apply_force_body_coords(v(1, 0, 0), v(0, 10, 0), &t);
    assert_eq!(b.force, v(0, 10, 0));
    // the moment arm is the body-local offset rotated into the world
    assert_eq!(b.torque, v(0, 0, 10));
}

#[test]
fn coordinate_conversions_invert_each_other() {
    let t = Transform { translation: v(1, 2, 3), rotation: Quatx::identity() };
    let w = Body.body_to_world_coordinates(v(4, 5, 6), &t);
    assert_eq!(w, v(5, 7, 9));
    assert_eq!(Body.world_to_body_coordinates(w, &t), v(4, 5, 6));
}

#[test]
fn kinetic_energy_of_translation() {
    let b = RigidBody::new_sphere(2 * SCALE, SCALE, v(2, 0, 0), Vec3x::zero()).expect("sphere");
    // half of four over two
    assert_eq!(b.compute_keenetic_energy(&at(0, 0, 0)), SCALE);
}

#[test]
fn potential_energy_is_height_times_weight() {
    let b = RigidBody::new_sphere(3 * SCALE, SCALE, Vec3x::zero(), Vec3x::zero()).expect("sphere");
    let e = b.compute_potential_energy(&at(0, 2, 0), v(0, -10, 0));
    assert_eq!(e, 60 * SCALE);
    let total = b.compute_energy(&at(0, 2, 0), v(0, -10, 0));
    assert_eq!(total, 60 * SCALE);
}

#[test]
fn particle_velocity_adds_spin() {
    // a sphere spinning about the vertical axis carries its equator sideways
    let b = RigidBody::new_sphere(SCALE, SCALE, Vec3x::zero(), Vec3x::new(0, 400_000, 0))
        .expect("sphere");
    let t = at(0, 0, 0);
    // inertia is two fifths, so the angular velocity is one radian per second
    assert_eq!(b.get_angular_velocity(&t), v(0, 1, 0));
    let pv = b.get_particle_velocity(v(1, 0, 0), &t);
    assert_eq!(pv, v(0, 0, -1));
    let pbv = b.get_particle_body_velocity(v(1, 0, 0), &t);
    assert_eq!(pbv, v(0, 0, -1));
}

#[test]
fn world_inertia_follows_orientation() {
    let b = RigidBody::new_box(SCALE, SCALE, 2 * SCALE, 3 * SCALE, Vec3x::zero(), Vec3x::zero())
        .expect("box");
    let t = at(0, 0, 0);
    assert_eq!(b.get_inertia_tensor(&t), b.intertia_tensor_body);
    let inv = b.get_inertia_tensor_inv(&t);
    // the inverse of the diagonal tensor, entry by entry
    assert_eq!(inv.c0.x, 1_000_000_000_000 / (13 * SCALE));
    // an immovable body exposes a zero inverse so it never responds
    let anchor = RigidBody::new(0, Mat3x::identity(), Vec3x::zero(), Vec3x::zero()).expect("a");
    assert_eq!(anchor.get_inertia_tensor_inv(&t), Mat3x::zero());
    let _ = BodyEntry { transform: t, rigid_body: b };
}
