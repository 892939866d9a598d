use spacetime_physics::body::{Friction, Restitution, RigidBody, RigidBodyType};
use spacetime_physics::kinematic::sync_kinematic_bodies;
use spacetime_physics::math::{Mat3Bits, QuatBits, Vec3Bits, ONE_BITS};

fn v3(x: f32, y: f32, z: f32) -> Vec3Bits {
    Vec3Bits {
        x: x.to_bits(),
        y: y.to_bits(),
        z: z.to_bits(),
    }
}

fn quat_identity() -> QuatBits {
    QuatBits {
        x: 0,
        y: 0,
        z: 0,
        w: ONE_BITS,
    }
}

fn body(id: u64, body_type: RigidBodyType, position: Vec3Bits) -> RigidBody {
    RigidBody::new(
        id,
        1,
        1,
        body_type,
        position,
        quat_identity(),
        ONE_BITS,
        ONE_BITS,
        Mat3Bits::zero(),
        None,
        Friction::new(0, 0),
        Restitution::new(0),
    )
    .unwrap()
}

#[test]
fn kinematic_body_takes_fed_pose() {
    let mut bodies = vec![body(7, RigidBodyType::Kinematic, v3(0.0, 0.0, 0.0))];
    let feed = vec![(7u64, (v3(1.0, 2.0, 3.0), quat_identity()))];
    sync_kinematic_bodies(&mut bodies, &feed);
    assert_eq!(bodies[0].position, v3(1.0, 2.0, 3.0));
    assert_eq!(bodies[0].rotation, quat_identity());
}

#[test]
fn non_kinematic_bodies_ignore_the_feed() {
    let mut bodies = vec![
        body(1, RigidBodyType::Dynamic, v3(5.0, 5.0, 5.0)),
        body(2, RigidBodyType::Static, v3(6.0, 6.0, 6.0)),
    ];
    let feed = vec![
        (1u64, (v3(0.0, 0.0, 0.0), quat_identity())),
        (2u64, (v3(0.0, 0.0, 0.0), quat_identity())),
    ];
    sync_kinematic_bodies(&mut bodies, &feed);
    assert_eq!(bodies[0].position, v3(5.0, 5.0, 5.0));
    assert_eq!(bodies[1].position, v3(6.0, 6.0, 6.0));
}

#[test]
fn unknown_feed_ids_are_ignored() {
    let mut bodies = vec![body(7, RigidBodyType::Kinematic, v3(0.5, 0.5, 0.5))];
    let feed = vec![(9999u64, (v3(1.0, 1.0, 1.0), quat_identity()))];
    sync_kinematic_bodies(&mut bodies, &feed);
    assert_eq!(bodies[0].position, v3(0.5, 0.5, 0.5));
}

#[test]
fn duplicate_feed_entries_resolve_last_write_wins() {
    let mut bodies = vec![body(7, RigidBodyType::Kinematic, v3(0.0, 0.0, 0.0))];
    let feed = vec![
        (7u64, (v3(1.0, 1.0, 1.0), quat_identity())),
        (7u64, (v3(2.0, 2.0, 2.0), quat_identity())),
    ];
    sync_kinematic_bodies(&mut bodies, &feed);
    assert_eq!(bodies[0].position, v3(2.0, 2.0, 2.0));
}

#[test]
fn sync_touches_only_the_pose() {
    let mut bodies = vec![body(7, RigidBodyType::Kinematic, v3(0.0, 0.0, 0.0))];
    let before = bodies[0];
    let feed = vec![(7u64, (v3(1.0, 2.0, 3.0), quat_identity()))];
    sync_kinematic_bodies(&mut bodies, &feed);
    assert_eq!(bodies[0].id, before.id);
    assert_eq!(bodies[0].mass, before.mass);
    assert_eq!(bodies[0].linear_velocity, before.linear_velocity);
    assert_eq!(bodies[0].previous_position, before.previous_position);
}
