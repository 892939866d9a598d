use spacetime_physics::body::{Friction, Restitution, RigidBody, RigidBodyType};
use spacetime_physics::kinematic::sync_kinematic_bodies;
use spacetime_physics::math::{Mat3Bits, QuatBits, Vec3Bits, ONE_BITS};
use spacetime_physics::tick::{apply_motion_updates, zero_non_dynamic_velocities, MotionUpdate};
use spacetime_physics::solvers::find_body_index;
use spacetime_physics::writeback::dirty_indices;

fn v3(x: f32, y: f32, z: f32) -> Vec3Bits {
    Vec3Bits {
        x: x.to_bits(),
        y: y.to_bits(),
        z: z.to_bits(),
    }
}

fn quat_identity() -> QuatBits {
    QuatBits {
        x: 0,
        y: 0,
        z: 0,
        w: ONE_BITS,
    }
}

fn body(id: u64, body_type: RigidBodyType, position: Vec3Bits) -> RigidBody {
    RigidBody::new(
        id,
        1,
        1,
        body_type,
        position,
        quat_identity(),
        ONE_BITS,
        ONE_BITS,
        Mat3Bits::zero(),
        None,
        Friction::new(0, 0),
        Restitution::new(0),
    )
    .unwrap()
}

fn update_to(position: Vec3Bits) -> MotionUpdate {
    MotionUpdate {
        position,
        rotation: quat_identity(),
        linear_velocity: v3(0.0, -1.0, 0.0),
        angular_velocity: v3(0.0, 0.0, 0.0),
        force: v3(0.0, 0.0, 0.0),
        torque: v3(0.0, 0.0, 0.0),
        pre_solve_linear_velocity: v3(0.0, 0.0, 0.0),
        pre_solve_angular_velocity: v3(0.0, 0.0, 0.0),
        previous_position: v3(0.0, 0.0, 0.0),
        previous_rotation: quat_identity(),
    }
}

#[test]
fn updates_move_only_dynamic_bodies() {
    let mut bodies = vec![
        body(1, RigidBodyType::Dynamic, v3(0.0, 0.0, 0.0)),
        body(2, RigidBodyType::Static, v3(1.0, 1.0, 1.0)),
        body(3, RigidBodyType::Kinematic, v3(2.0, 2.0, 2.0)),
    ];
    let updates = vec![
        (0usize, update_to(v3(0.0, -0.5, 0.0))),
        (1usize, update_to(v3(9.0, 9.0, 9.0))),
        (2usize, update_to(v3(9.0, 9.0, 9.0))),
    ];
    apply_motion_updates(&mut bodies, &updates);
    assert_eq!(bodies[0].position, v3(0.0, -0.5, 0.0));
    assert_eq!(bodies[0].linear_velocity, v3(0.0, -1.0, 0.0));
    assert_eq!(bodies[1].position, v3(1.0, 1.0, 1.0));
    assert_eq!(bodies[2].position, v3(2.0, 2.0, 2.0));
}

#[test]
fn out_of_range_updates_are_discarded_and_last_wins() {
    let mut bodies = vec![body(1, RigidBodyType::Dynamic, v3(0.0, 0.0, 0.0))];
    let updates = vec![
        (5usize, update_to(v3(9.0, 9.0, 9.0))),
        (0usize, update_to(v3(1.0, 0.0, 0.0))),
        (0usize, update_to(v3(2.0, 0.0, 0.0))),
    ];
    apply_motion_updates(&mut bodies, &updates);
    assert_eq!(bodies.len(), 1);
    assert_eq!(bodies[0].position, v3(2.0, 0.0, 0.0));
}

#[test]
fn updates_never_touch_identity_fields() {
    let mut bodies = vec![body(1, RigidBodyType::Dynamic, v3(0.0, 0.0, 0.0))];
    let before = bodies[0];
    apply_motion_updates(&mut bodies, &vec![(0usize, update_to(v3(5.0, 0.0, 0.0)))]);
    assert_eq!(bodies[0].id, before.id);
    assert_eq!(bodies[0].mass, before.mass);
    assert_eq!(bodies[0].inv_mass, before.inv_mass);
    assert_eq!(bodies[0].collider_id, before.collider_id);
    assert_eq!(bodies[0].body_type, before.body_type);
    assert_eq!(bodies[0].friction, before.friction);
}

#[test]
fn velocity_zeroing_spares_dynamic_bodies_and_poses() {
    let mut bodies = vec![
        body(1, RigidBodyType::Dynamic, v3(0.0, 0.0, 0.0)),
        body(2, RigidBodyType::Kinematic, v3(1.0, 2.0, 3.0)),
    ];
    bodies[0].linear_velocity = v3(0.0, -5.0, 0.0);
    bodies[1].linear_velocity = v3(4.0, 4.0, 4.0);
    bodies[1].angular_velocity = v3(0.5, 0.0, 0.0);
    zero_non_dynamic_velocities(&mut bodies);
    assert_eq!(bodies[0].linear_velocity, v3(0.0, -5.0, 0.0));
    assert_eq!(bodies[1].linear_velocity, v3(0.0, 0.0, 0.0));
    assert_eq!(bodies[1].angular_velocity, v3(0.0, 0.0, 0.0));
    assert_eq!(bodies[1].position, v3(1.0, 2.0, 3.0));
}

#[test]
fn static_pose_is_bit_identical_across_a_tick() {
    // a full tick's worth of mutation: sync, then several solver passes
    let static_pos = v3(-2.0, -2.0, -2.0);
    let mut bodies = vec![
        body(1, RigidBodyType::Dynamic, v3(0.0, 10.0, 0.0)),
        body(2, RigidBodyType::Static, static_pos),
    ];
    let feed = vec![(1u64, (v3(0.0, 0.0, 0.0), quat_identity()))];
    sync_kinematic_bodies(&mut bodies, &feed);
    for step in 0..20u32 {
        let y = -(step as f32) * 0.01;
        apply_motion_updates(&mut bodies, &vec![(0usize, update_to(v3(0.0, y, 0.0)))]);
        zero_non_dynamic_velocities(&mut bodies);
    }
    assert_eq!(bodies[1].position, static_pos);
    assert_eq!(bodies[1].rotation, quat_identity());
    assert_eq!(bodies[1].previous_position, static_pos);
}

#[test]
fn kinematic_pose_survives_the_solver_passes() {
    let mut bodies = vec![
        body(1, RigidBodyType::Kinematic, v3(0.0, 0.0, 0.0)),
        body(2, RigidBodyType::Dynamic, v3(0.0, 10.0, 0.0)),
    ];
    let fed = v3(1.0, 2.0, 3.0);
    let feed = vec![(1u64, (fed, quat_identity()))];
    sync_kinematic_bodies(&mut bodies, &feed);
    for _ in 0..20u32 {
        apply_motion_updates(
            &mut bodies,
            &vec![
                (0usize, update_to(v3(8.0, 8.0, 8.0))),
                (1usize, update_to(v3(0.0, 9.5, 0.0))),
            ],
        );
        zero_non_dynamic_velocities(&mut bodies);
    }
    assert_eq!(bodies[0].position, fed);
    assert_eq!(bodies[0].rotation, quat_identity());
}

#[test]
fn body_lookup_by_id_is_first_match() {
    let bodies = vec![
        body(5, RigidBodyType::Dynamic, v3(0.0, 0.0, 0.0)),
        body(9, RigidBodyType::Static, v3(0.0, 0.0, 0.0)),
    ];
    assert_eq!(find_body_index(&bodies, 9), Some(1));
    assert_eq!(find_body_index(&bodies, 5), Some(0));
    assert_eq!(find_body_index(&bodies, 6), None);
}

#[test]
fn tick_without_dynamic_bodies_stays_clean() {
    let mut bodies = vec![
        body(1, RigidBodyType::Static, v3(0.0, 0.0, 0.0)),
        body(2, RigidBodyType::Kinematic, v3(1.0, 1.0, 1.0)),
    ];
    let feed: Vec<(u64, (Vec3Bits, QuatBits))> = Vec::new();
    sync_kinematic_bodies(&mut bodies, &feed);
    for _ in 0..20u32 {
        apply_motion_updates(&mut bodies, &vec![(0usize, update_to(v3(9.0, 9.0, 9.0)))]);
        zero_non_dynamic_velocities(&mut bodies);
    }
    assert!(dirty_indices(&bodies).is_empty());
}
