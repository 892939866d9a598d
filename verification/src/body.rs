//! Persistent rigid-body rows and their bit-exact predicates.

use vstd::prelude::*;

use crate::error::PhysicsError;
use crate::math::{f32_bits_is_nonneg_finite, f32_bits_is_zero, Mat3Bits, QuatBits, Vec3Bits};
use crate::math::POS_ZERO_BITS;

verus! {

/// How the solver treats a body.
///
/// `Static` bodies never move; `Dynamic` bodies are integrated and solved;
/// `Kinematic` bodies collide but take their pose from an external feed.
#[derive(Clone, Copy, PartialEq, Eq, Structural, Debug)]
pub enum RigidBodyType {
    Static,
    Dynamic,
    Kinematic,
}

/// Static and dynamic friction coefficients, as stored bit patterns.
#[derive(Clone, Copy, PartialEq, Eq, Structural, Debug)]
pub struct Friction {
    pub static_coefficient: u32,
    pub dynamic_coefficient: u32,
}

impl Friction {
    /// Packs the two coefficients; no arithmetic is involved.
    pub fn new(static_friction: u32, dynamic_friction: u32) -> (r: Friction)
        ensures
            r == (Friction {
                static_coefficient: static_friction,
                dynamic_coefficient: dynamic_friction,
            }),
    {
        Friction { static_coefficient: static_friction, dynamic_coefficient: dynamic_friction }
    }
}

/// Restitution coefficient, as a stored bit pattern.
#[derive(Clone, Copy, PartialEq, Eq, Structural, Debug)]
pub struct Restitution {
    pub coefficient: u32,
}

impl Restitution {
    /// Packs the coefficient; no arithmetic is involved.
    pub fn new(coefficient: u32) -> (r: Restitution)
        ensures
            r == (Restitution { coefficient }),
    {
        Restitution { coefficient }
    }
}

/// A rigid-body row as the store persists it.
///
/// All scalar fields are single-precision bit patterns. The `previous_*`
/// fields hold the pose loaded at tick start (and, inside a tick, the pose
/// before the current substep's integration); the `pre_solve_*` fields are
/// scratch for the velocity pass.
#[derive(Clone, Copy, Debug)]
pub struct RigidBody {
    pub id: u64,
    pub world_id: u64,
    pub position: Vec3Bits,
    pub rotation: QuatBits,
    pub linear_velocity: Vec3Bits,
    pub angular_velocity: Vec3Bits,
    pub force: Vec3Bits,
    pub torque: Vec3Bits,
    pub mass: u32,
    pub inv_mass: u32,
    pub collider_id: u64,
    pub inertia_tensor: Mat3Bits,
    pub inv_inertia_tensor: Option<Mat3Bits>,
    pub friction: Friction,
    pub restitution: Restitution,
    pub pre_solve_linear_velocity: Vec3Bits,
    pub pre_solve_angular_velocity: Vec3Bits,
    pub previous_position: Vec3Bits,
    pub previous_rotation: QuatBits,
    pub body_type: RigidBodyType,
}

impl RigidBody {
    /// The inertial invariant every stored row keeps: a static body carries
    /// no inverse mass and no inverse inertia.
    pub open spec fn inertial_consistent(self) -> bool {
        self.body_type is Static ==> f32_bits_is_zero(self.inv_mass)
            && self.inv_inertia_tensor is None
    }

    /// True iff the current pose is bit-identical to the pose loaded at
    /// tick start.
    pub open spec fn spec_clean(self) -> bool {
        self.position == self.previous_position && self.rotation == self.previous_rotation
    }

    /// Builds a row from its inertial description, enforcing the
    /// configuration rules: the mass pattern must be finite and
    /// non-negative, and a static body is stripped of its inverse mass and
    /// inverse inertia. Velocities, forces and scratch fields start at
    /// their canonical zero values; the previous pose starts equal to the
    /// pose, so a freshly built row is clean.
    pub fn new(
        id: u64,
        world_id: u64,
        collider_id: u64,
        body_type: RigidBodyType,
        position: Vec3Bits,
        rotation: QuatBits,
        mass: u32,
        inv_mass: u32,
        inertia_tensor: Mat3Bits,
        inv_inertia_tensor: Option<Mat3Bits>,
        friction: Friction,
        restitution: Restitution,
    ) -> (r: Result<RigidBody, PhysicsError>)
        ensures
            r is Ok <==> f32_bits_is_nonneg_finite(mass),
            !f32_bits_is_nonneg_finite(mass) ==> r == Result::<RigidBody, PhysicsError>::Err(
                PhysicsError::MassInvalid,
            ),
            r matches Ok(b) ==> {
                &&& b.id == id
                &&& b.world_id == world_id
                &&& b.collider_id == collider_id
                &&& b.body_type == body_type
                &&& b.position == position
                &&& b.rotation == rotation
                &&& b.mass == mass
                &&& b.inv_mass == if body_type is Static { POS_ZERO_BITS } else { inv_mass }
                &&& b.inertia_tensor == inertia_tensor
                &&& b.inv_inertia_tensor == if body_type is Static {
                    Option::<Mat3Bits>::None
                } else {
                    inv_inertia_tensor
                }
                &&& b.friction == friction
                &&& b.restitution == restitution
                &&& b.linear_velocity.is_zero()
                &&& b.angular_velocity.is_zero()
                &&& b.force.is_zero()
                &&& b.torque.is_zero()
                &&& b.pre_solve_linear_velocity.is_zero()
                &&& b.pre_solve_angular_velocity.is_zero()
                &&& b.previous_position == position
                &&& b.previous_rotation == rotation
                &&& b.inertial_consistent()
                &&& b.spec_clean()
            },
    {
        if !(mass < crate::math::POS_INF_BITS) {
            return Err(PhysicsError::MassInvalid);
        }
        let is_static = matches!(body_type, RigidBodyType::Static);
        Ok(
            RigidBody {
                id,
                world_id,
                position,
                rotation,
                linear_velocity: Vec3Bits::zero(),
                angular_velocity: Vec3Bits::zero(),
                force: Vec3Bits::zero(),
                torque: Vec3Bits::zero(),
                mass,
                inv_mass: if is_static {
                    POS_ZERO_BITS
                } else {
                    inv_mass
                },
                collider_id,
                inertia_tensor,
                inv_inertia_tensor: if is_static {
                    None
                } else {
                    inv_inertia_tensor
                },
                friction,
                restitution,
                pre_solve_linear_velocity: Vec3Bits::zero(),
                pre_solve_angular_velocity: Vec3Bits::zero(),
                previous_position: position,
                previous_rotation: rotation,
                body_type,
            },
        )
    }

    /// True iff the solver integrates this body.
    pub fn is_dynamic(&self) -> (r: bool)
        ensures
            r == (self.body_type is Dynamic),
    {
        matches!(self.body_type, RigidBodyType::Dynamic)
    }

    /// True iff this body takes its pose from the external feed.
    pub fn is_kinematic(&self) -> (r: bool)
        ensures
            r == (self.body_type is Kinematic),
    {
        matches!(self.body_type, RigidBodyType::Kinematic)
    }

    /// True iff the pose differs — bit for bit — from the pose loaded at
    /// tick start; only such rows are written back.
    pub fn is_dirty(&self) -> (r: bool)
        ensures
            r == !self.spec_clean(),
    {
        self.position != self.previous_position || self.rotation != self.previous_rotation
    }

    /// The per-axis inverse mass the solver uses: the stored scalar
    /// replicated on all three axes.
    pub fn effective_inverse_mass(&self) -> (r: Vec3Bits)
        ensures
            r == (Vec3Bits { x: self.inv_mass, y: self.inv_mass, z: self.inv_mass }),
    {
        Vec3Bits::splat(self.inv_mass)
    }
}

} // verus!
