use spacetime_physics::body::{Friction, Restitution, RigidBody, RigidBodyType};
use spacetime_physics::constraint::{
    constraints_from_contacts, CollisionPoint, PenetrationConstraint,
};
use spacetime_physics::math::{Mat3Bits, QuatBits, Vec3Bits, ONE_BITS, POS_ZERO_BITS};

fn v3(x: f32, y: f32, z: f32) -> Vec3Bits {
    Vec3Bits {
        x: x.to_bits(),
        y: y.to_bits(),
        z: z.to_bits(),
    }
}

fn body(id: u64) -> RigidBody {
    RigidBody::new(
        id,
        1,
        1,
        RigidBodyType::Dynamic,
        v3(0.0, 0.0, 0.0),
        QuatBits {
            x: 0,
            y: 0,
            z: 0,
            w: ONE_BITS,
        },
        ONE_BITS,
        ONE_BITS,
        Mat3Bits::zero(),
        None,
        Friction::new(0, 0),
        Restitution::new(0),
    )
    .unwrap()
}

fn point(distance: f32) -> CollisionPoint {
    CollisionPoint {
        world_a: v3(0.0, 1.0, 0.0),
        world_b: v3(0.0, 0.9, 0.0),
        local_a: v3(0.0, -1.0, 0.0),
        local_b: v3(0.0, 0.0, 0.0),
        normal: v3(0.0, 1.0, 0.0),
        distance: distance.to_bits(),
    }
}

#[test]
fn penetrating_contact_yields_zero_initialised_constraint() {
    let bodies = vec![body(10), body(20)];
    let pairs: Vec<(usize, usize)> = vec![(0, 1)];
    let contacts = vec![Some(point(-0.1))];
    let out = constraints_from_contacts(&pairs, &contacts, &bodies, POS_ZERO_BITS);
    assert_eq!(out.len(), 1);
    let c: PenetrationConstraint = out[0];
    assert_eq!(c.a, 10);
    assert_eq!(c.b, 20);
    assert_eq!(c.normal, v3(0.0, 1.0, 0.0));
    assert_eq!(c.penetration_depth, (-0.1f32).to_bits());
    assert_eq!(c.normal_lagrange, POS_ZERO_BITS);
    assert_eq!(c.tangent_lagrange, POS_ZERO_BITS);
    assert_eq!(c.compliance, POS_ZERO_BITS);
    assert_eq!(c.normal_force, v3(0.0, 0.0, 0.0));
}

#[test]
fn separated_and_touching_contacts_are_discarded() {
    let bodies = vec![body(10), body(20)];
    let pairs: Vec<(usize, usize)> = vec![(0, 1), (0, 1), (0, 1), (0, 1)];
    let contacts = vec![
        Some(point(0.05)),
        Some(point(0.0)),
        Some(point(-0.0)),
        None,
    ];
    let out = constraints_from_contacts(&pairs, &contacts, &bodies, POS_ZERO_BITS);
    assert!(out.is_empty());
}

#[test]
fn constraints_preserve_pair_order() {
    let bodies = vec![body(10), body(20), body(30)];
    let pairs: Vec<(usize, usize)> = vec![(0, 1), (1, 2), (0, 2)];
    let contacts = vec![Some(point(-0.2)), None, Some(point(-0.3))];
    let out = constraints_from_contacts(&pairs, &contacts, &bodies, POS_ZERO_BITS);
    assert_eq!(out.len(), 2);
    assert_eq!((out[0].a, out[0].b), (10, 20));
    assert_eq!((out[1].a, out[1].b), (10, 30));
    assert_eq!(out[1].penetration_depth, (-0.3f32).to_bits());
}
