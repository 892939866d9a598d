use spacetime_physics::body::{Friction, Restitution, RigidBody, RigidBodyType};
use spacetime_physics::collider::{Collider, ColliderType};
use spacetime_physics::error::PhysicsError;
use spacetime_physics::math::{Mat3Bits, QuatBits, Vec3Bits, ONE_BITS, POS_ZERO_BITS};
use spacetime_physics::world::PhysicsWorld;

fn v3(x: f32, y: f32, z: f32) -> Vec3Bits {
    Vec3Bits {
        x: x.to_bits(),
        y: y.to_bits(),
        z: z.to_bits(),
    }
}

#[test]
fn world_builder_accepts_standard_config() {
    let w = PhysicsWorld::new(
        1,
        60.0f32.to_bits(),
        (1.0f32 / 60.0).to_bits(),
        20,
        v3(0.0, -9.81, 0.0),
        1e-3f32.to_bits(),
        1,
        0.0f32.to_bits(),
    )
    .unwrap();
    assert_eq!(w.id, 1);
    assert_eq!(w.sub_step, 20);
    assert_eq!(w.position_iterations, 1);
    assert_eq!(w.gravity.y, (-9.81f32).to_bits());
    assert!(!w.debug);
    assert!(!w.debug_triggers);
}

#[test]
fn world_builder_rejects_zero_sub_step() {
    let r = PhysicsWorld::new(
        1,
        60.0f32.to_bits(),
        (1.0f32 / 60.0).to_bits(),
        0,
        v3(0.0, -9.81, 0.0),
        0,
        1,
        0,
    );
    assert_eq!(r.unwrap_err(), PhysicsError::SubStepZero);
}

#[test]
fn world_builder_rejects_zero_position_iterations() {
    let r = PhysicsWorld::new(1, ONE_BITS, ONE_BITS, 20, v3(0.0, 0.0, 0.0), 0, 0, 0);
    assert_eq!(r.unwrap_err(), PhysicsError::PositionIterationsZero);
}

#[test]
fn world_builder_rejects_non_positive_tick_rate() {
    let r = PhysicsWorld::new(1, 0.0f32.to_bits(), ONE_BITS, 20, v3(0.0, 0.0, 0.0), 0, 1, 0);
    assert_eq!(r.unwrap_err(), PhysicsError::TicksPerSecondNotPositive);
    let r = PhysicsWorld::new(
        1,
        (-60.0f32).to_bits(),
        ONE_BITS,
        20,
        v3(0.0, 0.0, 0.0),
        0,
        1,
        0,
    );
    assert_eq!(r.unwrap_err(), PhysicsError::TicksPerSecondNotPositive);
    let r = PhysicsWorld::new(
        1,
        f32::INFINITY.to_bits(),
        ONE_BITS,
        20,
        v3(0.0, 0.0, 0.0),
        0,
        1,
        0,
    );
    assert_eq!(r.unwrap_err(), PhysicsError::TicksPerSecondNotPositive);
}

#[test]
fn world_builder_rejects_bad_time_step_precision_dilation() {
    let r = PhysicsWorld::new(1, ONE_BITS, f32::NAN.to_bits(), 20, v3(0.0, 0.0, 0.0), 0, 1, 0);
    assert_eq!(r.unwrap_err(), PhysicsError::TimeStepNotPositive);
    let r = PhysicsWorld::new(
        1,
        ONE_BITS,
        ONE_BITS,
        20,
        v3(0.0, 0.0, 0.0),
        (-1e-3f32).to_bits(),
        1,
        0,
    );
    assert_eq!(r.unwrap_err(), PhysicsError::PrecisionInvalid);
    let r = PhysicsWorld::new(
        1,
        ONE_BITS,
        ONE_BITS,
        20,
        v3(0.0, 0.0, 0.0),
        0,
        1,
        (-0.5f32).to_bits(),
    );
    assert_eq!(r.unwrap_err(), PhysicsError::DilationInvalid);
}

#[test]
fn sphere_collider_keeps_radius_and_type() {
    let c = Collider::sphere(3, 1.0f32.to_bits()).unwrap();
    assert_eq!(c.world_id, 3);
    assert_eq!(c.radius, ONE_BITS);
    assert_eq!(c.collider_type, ColliderType::Sphere);
    assert_eq!(c.half_height, POS_ZERO_BITS);
}

#[test]
fn sphere_collider_rejects_non_positive_radius() {
    assert_eq!(
        Collider::sphere(1, 0.0f32.to_bits()).unwrap_err(),
        PhysicsError::RadiusNotPositive
    );
    assert_eq!(
        Collider::sphere(1, (-1.0f32).to_bits()).unwrap_err(),
        PhysicsError::RadiusNotPositive
    );
    assert_eq!(
        Collider::sphere(1, f32::NAN.to_bits()).unwrap_err(),
        PhysicsError::RadiusNotPositive
    );
    assert_eq!(
        Collider::sphere(1, f32::INFINITY.to_bits()).unwrap_err(),
        PhysicsError::RadiusNotPositive
    );
}

#[test]
fn cuboid_collider_checks_half_extents() {
    let c = Collider::cuboid(1, v3(10.0, 10.0, 10.0)).unwrap();
    assert_eq!(c.collider_type, ColliderType::Cuboid);
    assert_eq!(c.half_extents, v3(10.0, 10.0, 10.0));
    assert_eq!(
        Collider::cuboid(1, v3(1.0, -1.0, 1.0)).unwrap_err(),
        PhysicsError::HalfExtentsNotPositive
    );
}

#[test]
fn plane_and_triangle_collider_store_fields() {
    let p = Collider::plane(1, v3(0.0, 1.0, 0.0));
    assert_eq!(p.collider_type, ColliderType::Plane);
    assert_eq!(p.normal, v3(0.0, 1.0, 0.0));
    let t = Collider::triangle(1, v3(0.0, 0.0, 0.0), v3(1.0, 0.0, 0.0), v3(0.0, 1.0, 0.0));
    assert_eq!(t.collider_type, ColliderType::Triangle);
    assert_eq!(t.point_b, v3(1.0, 0.0, 0.0));
}

#[test]
fn round_solids_check_radius_then_half_height() {
    let c = Collider::cylinder(1, 1.0f32.to_bits(), 2.0f32.to_bits()).unwrap();
    assert_eq!(c.collider_type, ColliderType::Cylinder);
    assert_eq!(c.half_height, 2.0f32.to_bits());
    assert_eq!(
        Collider::cone(1, 0.0f32.to_bits(), 2.0f32.to_bits()).unwrap_err(),
        PhysicsError::RadiusNotPositive
    );
    assert_eq!(
        Collider::capsule(1, 1.0f32.to_bits(), (-2.0f32).to_bits()).unwrap_err(),
        PhysicsError::HalfHeightNotPositive
    );
}

#[test]
fn rigid_body_builder_strips_static_inverses() {
    let b = RigidBody::new(
        5,
        1,
        2,
        RigidBodyType::Static,
        v3(0.0, 1.0, 0.0),
        QuatBits {
            x: 0,
            y: 0,
            z: 0,
            w: ONE_BITS,
        },
        2.0f32.to_bits(),
        0.5f32.to_bits(),
        Mat3Bits::zero(),
        Some(Mat3Bits::zero()),
        Friction::new(0.5f32.to_bits(), 0.3f32.to_bits()),
        Restitution::new(0),
    )
    .unwrap();
    assert_eq!(b.inv_mass, POS_ZERO_BITS);
    assert!(b.inv_inertia_tensor.is_none());
    assert_eq!(b.mass, 2.0f32.to_bits());
    assert_eq!(b.previous_position, b.position);
    assert_eq!(b.previous_rotation, b.rotation);
    assert!(!b.is_dirty());
}

#[test]
fn rigid_body_builder_keeps_dynamic_inverses() {
    let b = RigidBody::new(
        6,
        1,
        2,
        RigidBodyType::Dynamic,
        v3(0.0, 100.0, 0.0),
        QuatBits {
            x: 0,
            y: 0,
            z: 0,
            w: ONE_BITS,
        },
        ONE_BITS,
        ONE_BITS,
        Mat3Bits::zero(),
        Some(Mat3Bits::zero()),
        Friction::new(0, 0),
        Restitution::new(0),
    )
    .unwrap();
    assert_eq!(b.inv_mass, ONE_BITS);
    assert!(b.inv_inertia_tensor.is_some());
    assert!(b.is_dynamic());
    assert!(!b.is_kinematic());
    assert_eq!(b.linear_velocity, v3(0.0, 0.0, 0.0));
}

#[test]
fn rigid_body_builder_rejects_bad_mass() {
    let r = RigidBody::new(
        6,
        1,
        2,
        RigidBodyType::Dynamic,
        v3(0.0, 0.0, 0.0),
        QuatBits {
            x: 0,
            y: 0,
            z: 0,
            w: ONE_BITS,
        },
        (-1.0f32).to_bits(),
        ONE_BITS,
        Mat3Bits::zero(),
        None,
        Friction::new(0, 0),
        Restitution::new(0),
    );
    assert_eq!(r.unwrap_err(), PhysicsError::MassInvalid);
}

#[test]
fn collider_lookup_finds_first_match() {
    let colliders = vec![
        {
            let mut c = Collider::sphere(1, ONE_BITS).unwrap();
            c.id(7);
            c
        },
        {
            let mut c = Collider::plane(1, v3(0.0, 1.0, 0.0));
            c.id(9);
            c
        },
    ];
    assert_eq!(Collider::find_index(&colliders, 9), Some(1));
    assert_eq!(Collider::find_index(&colliders, 7), Some(0));
    assert_eq!(Collider::find_index(&colliders, 8), None);
}

#[test]
fn effective_inverse_mass_splats_the_scalar() {
    let b = RigidBody::new(
        6,
        1,
        2,
        RigidBodyType::Dynamic,
        v3(0.0, 0.0, 0.0),
        QuatBits {
            x: 0,
            y: 0,
            z: 0,
            w: ONE_BITS,
        },
        2.0f32.to_bits(),
        0.5f32.to_bits(),
        Mat3Bits::zero(),
        None,
        Friction::new(0, 0),
        Restitution::new(0),
    )
    .unwrap();
    let m = b.effective_inverse_mass();
    assert_eq!(m.x, 0.5f32.to_bits());
    assert_eq!(m.y, 0.5f32.to_bits());
    assert_eq!(m.z, 0.5f32.to_bits());
}
