//! Narrow-phase output: penetration constraints.
//!
//! A shape query reports at most one contact per candidate pair. Exactly
//! the penetrating contacts — signed distance strictly negative — become
//! `PenetrationConstraint`s, with their Lagrange multipliers and forces
//! zero-initialised for the solver.

use vstd::prelude::*;

use crate::body::RigidBody;
use crate::math::{f32_bits_is_negative, Vec3Bits, POS_ZERO_BITS};

verus! {

/// One contact reported by a shape query, all scalars as bit patterns:
/// world-space points on either surface, the same points in each body's
/// local frame, the contact normal out of the first body, and the signed
/// distance (negative iff penetrating).
#[derive(Clone, Copy, PartialEq, Eq, Structural, Debug)]
pub struct CollisionPoint {
    pub world_a: Vec3Bits,
    pub world_b: Vec3Bits,
    pub local_a: Vec3Bits,
    pub local_b: Vec3Bits,
    pub normal: Vec3Bits,
    pub distance: u32,
}

/// A positional contact constraint between the bodies `a` and `b`, with
/// the solver's accumulated multipliers and forces.
#[derive(Clone, Copy, PartialEq, Eq, Structural, Debug)]
pub struct PenetrationConstraint {
    pub a: u64,
    pub b: u64,
    pub world_a: Vec3Bits,
    pub world_b: Vec3Bits,
    pub local_a: Vec3Bits,
    pub local_b: Vec3Bits,
    pub normal: Vec3Bits,
    pub penetration_depth: u32,
    pub compliance: u32,
    pub normal_lagrange: u32,
    pub normal_force: Vec3Bits,
    pub tangential_lagrange: u32,
    pub static_friction_force: Vec3Bits,
    pub tangent_lagrange: u32,
}

/// The constraint a fresh contact between `a` and `b` yields: contact data
/// copied bit for bit, every accumulator at its canonical zero.
pub open spec fn spec_constraint(
    a: RigidBody,
    b: RigidBody,
    point: CollisionPoint,
    compliance: u32,
) -> PenetrationConstraint {
    PenetrationConstraint {
        a: a.id,
        b: b.id,
        world_a: point.world_a,
        world_b: point.world_b,
        local_a: point.local_a,
        local_b: point.local_b,
        normal: point.normal,
        penetration_depth: point.distance,
        compliance,
        normal_lagrange: POS_ZERO_BITS,
        normal_force: Vec3Bits { x: POS_ZERO_BITS, y: POS_ZERO_BITS, z: POS_ZERO_BITS },
        tangential_lagrange: POS_ZERO_BITS,
        static_friction_force: Vec3Bits { x: POS_ZERO_BITS, y: POS_ZERO_BITS, z: POS_ZERO_BITS },
        tangent_lagrange: POS_ZERO_BITS,
    }
}

impl PenetrationConstraint {
    /// Initialises the constraint for one contact: ids and contact data
    /// are copied, the multipliers and forces start at zero.
    pub fn new(a: &RigidBody, b: &RigidBody, point: CollisionPoint, compliance: u32) -> (r:
        PenetrationConstraint)
        ensures
            r == spec_constraint(*a, *b, point, compliance),
    {
        PenetrationConstraint {
            a: a.id,
            b: b.id,
            world_a: point.world_a,
            world_b: point.world_b,
            local_a: point.local_a,
            local_b: point.local_b,
            normal: point.normal,
            penetration_depth: point.distance,
            compliance,
            normal_lagrange: POS_ZERO_BITS,
            normal_force: Vec3Bits::zero(),
            tangential_lagrange: POS_ZERO_BITS,
            static_friction_force: Vec3Bits::zero(),
            tangent_lagrange: POS_ZERO_BITS,
        }
    }
}

/// The constraints a substep emits, in pair order: one per body-body pair
/// whose query found a contact with strictly negative signed distance.
/// Contacts at or above zero distance — and pairs whose query found
/// nothing — yield no constraint.
pub open spec fn spec_constraints(
    body_pairs: Seq<(usize, usize)>,
    contacts: Seq<Option<CollisionPoint>>,
    bodies: Seq<RigidBody>,
    compliance: u32,
) -> Seq<PenetrationConstraint>
    decreases body_pairs.len(),
{
    if body_pairs.len() == 0 {
        Seq::empty()
    } else {
        let rest = spec_constraints(
            body_pairs.drop_last(),
            contacts.drop_last(),
            bodies,
            compliance,
        );
        let pair = body_pairs.last();
        match contacts.last() {
            Some(point) => if f32_bits_is_negative(point.distance) {
                rest.push(
                    spec_constraint(bodies[pair.0 as int], bodies[pair.1 as int], point, compliance),
                )
            } else {
                rest
            },
            None => rest,
        }
    }
}

/// Turns one substep's contact reports into its constraint list.
pub fn constraints_from_contacts(
    body_pairs: &Vec<(usize, usize)>,
    contacts: &Vec<Option<CollisionPoint>>,
    bodies: &Vec<RigidBody>,
    compliance: u32,
) -> (r: Vec<PenetrationConstraint>)
    requires
        contacts@.len() == body_pairs@.len(),
        forall|k: int|
            0 <= k < body_pairs@.len() ==> (#[trigger] body_pairs@[k]).0 < bodies@.len()
                && body_pairs@[k].1 < bodies@.len(),
    ensures
        r@ == spec_constraints(body_pairs@, contacts@, bodies@, compliance),
{
    let n = body_pairs.len();
    let mut out: Vec<PenetrationConstraint> = Vec::new();
    for i in 0..n
        invariant
            n == body_pairs@.len(),
            contacts@.len() == body_pairs@.len(),
            forall|k: int|
                0 <= k < body_pairs@.len() ==> (#[trigger] body_pairs@[k]).0 < bodies@.len()
                    && body_pairs@[k].1 < bodies@.len(),
            out@ == spec_constraints(
                body_pairs@.subrange(0, i as int),
                contacts@.subrange(0, i as int),
                bodies@,
                compliance,
            ),
    {
        proof {
            assert(body_pairs@.subrange(0, i + 1).drop_last() =~= body_pairs@.subrange(
                0,
                i as int,
            ));
            assert(contacts@.subrange(0, i + 1).drop_last() =~= contacts@.subrange(0, i as int));
            assert(body_pairs@.subrange(0, i + 1).last() == body_pairs@[i as int]);
            assert(contacts@.subrange(0, i + 1).last() == contacts@[i as int]);
        }
        let pair = body_pairs[i];
        match contacts[i] {
            Some(point) => {
                if crate::math::f32_bits_negative(point.distance) {
                    let c = PenetrationConstraint::new(&bodies[pair.0], &bodies[pair.1], point, compliance);
                    out.push(c);
                }
            },
            None => (),
        }
    }
    proof {
        assert(body_pairs@.subrange(0, n as int) =~= body_pairs@);
        assert(contacts@.subrange(0, n as int) =~= contacts@);
    }
    out
}

} // verus!
