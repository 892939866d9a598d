//! Collider rows: one tabular record per convex primitive.

use vstd::prelude::*;

use crate::error::PhysicsError;
use crate::math::{f32_bits_is_positive_finite, Vec3Bits, POS_INF_BITS, POS_ZERO_BITS};

verus! {

/// The convex primitive a collider row describes.
#[derive(Clone, Copy, PartialEq, Eq, Structural, Debug)]
pub enum ColliderType {
    Sphere,
    Plane,
    Cuboid,
    Cylinder,
    Cone,
    Capsule,
    Triangle,
}

/// A collider row. Only the fields of the row's `collider_type` are
/// meaningful; the remaining dimension fields stay at their zero patterns.
#[derive(Clone, Copy, Debug)]
pub struct Collider {
    pub id: u64,
    pub world_id: u64,
    pub radius: u32,
    pub normal: Vec3Bits,
    pub height: u32,
    pub half_extents: Vec3Bits,
    pub half_height: u32,
    pub point_a: Vec3Bits,
    pub point_b: Vec3Bits,
    pub point_c: Vec3Bits,
    pub collider_type: ColliderType,
}

impl Collider {
    /// The dimensional invariant of a built row: every length that the
    /// row's shape actually reads is finite and strictly positive.
    pub open spec fn dimensions_ok(self) -> bool {
        match self.collider_type {
            ColliderType::Sphere => f32_bits_is_positive_finite(self.radius),
            ColliderType::Plane => true,
            ColliderType::Cuboid => self.half_extents.is_positive_finite(),
            ColliderType::Cylinder => f32_bits_is_positive_finite(self.radius)
                && f32_bits_is_positive_finite(self.half_height),
            ColliderType::Cone => f32_bits_is_positive_finite(self.radius)
                && f32_bits_is_positive_finite(self.half_height),
            ColliderType::Capsule => f32_bits_is_positive_finite(self.radius)
                && f32_bits_is_positive_finite(self.half_height),
            ColliderType::Triangle => true,
        }
    }

    /// A row with every dimension at its zero pattern and the given type.
    fn blank(world_id: u64, collider_type: ColliderType) -> (r: Collider)
        ensures
            r == (Collider {
                id: 0,
                world_id,
                radius: POS_ZERO_BITS,
                normal: Vec3Bits { x: POS_ZERO_BITS, y: POS_ZERO_BITS, z: POS_ZERO_BITS },
                height: POS_ZERO_BITS,
                half_extents: Vec3Bits { x: POS_ZERO_BITS, y: POS_ZERO_BITS, z: POS_ZERO_BITS },
                half_height: POS_ZERO_BITS,
                point_a: Vec3Bits { x: POS_ZERO_BITS, y: POS_ZERO_BITS, z: POS_ZERO_BITS },
                point_b: Vec3Bits { x: POS_ZERO_BITS, y: POS_ZERO_BITS, z: POS_ZERO_BITS },
                point_c: Vec3Bits { x: POS_ZERO_BITS, y: POS_ZERO_BITS, z: POS_ZERO_BITS },
                collider_type,
            }),
    {
        Collider {
            id: 0,
            world_id,
            radius: POS_ZERO_BITS,
            normal: Vec3Bits::zero(),
            height: POS_ZERO_BITS,
            half_extents: Vec3Bits::zero(),
            half_height: POS_ZERO_BITS,
            point_a: Vec3Bits::zero(),
            point_b: Vec3Bits::zero(),
            point_c: Vec3Bits::zero(),
            collider_type,
        }
    }

    /// Builds a sphere row, refusing a radius that is not finite and
    /// strictly positive.
    pub fn sphere(world_id: u64, radius: u32) -> (r: Result<Collider, PhysicsError>)
        ensures
            r is Ok <==> f32_bits_is_positive_finite(radius),
            r is Err ==> r == Result::<Collider, PhysicsError>::Err(PhysicsError::RadiusNotPositive),
            r matches Ok(c) ==> c == (Collider {
                radius,
                ..Self::blank_spec(world_id, ColliderType::Sphere)
            }) && c.dimensions_ok(),
    {
        if !crate::math::f32_bits_positive_finite(radius) {
            return Err(PhysicsError::RadiusNotPositive);
        }
        let mut c = Self::blank(world_id, ColliderType::Sphere);
        c.radius = radius;
        Ok(c)
    }

    /// Builds a half-space row. The normal is stored as given; keeping it
    /// unit length is the caller's obligation, since unit length is not a
    /// property of the bit patterns alone.
    pub fn plane(world_id: u64, normal: Vec3Bits) -> (r: Collider)
        ensures
            r == (Collider { normal, ..Self::blank_spec(world_id, ColliderType::Plane) }),
            r.dimensions_ok(),
    {
        let mut c = Self::blank(world_id, ColliderType::Plane);
        c.normal = normal;
        c
    }

    /// Builds a cuboid row, refusing half-extents with any component that
    /// is not finite and strictly positive.
    pub fn cuboid(world_id: u64, half_extents: Vec3Bits) -> (r: Result<Collider, PhysicsError>)
        ensures
            r is Ok <==> half_extents.is_positive_finite(),
            r is Err ==> r == Result::<Collider, PhysicsError>::Err(
                PhysicsError::HalfExtentsNotPositive,
            ),
            r matches Ok(c) ==> c == (Collider {
                half_extents,
                ..Self::blank_spec(world_id, ColliderType::Cuboid)
            }) && c.dimensions_ok(),
    {
        if !half_extents.test_positive_finite() {
            return Err(PhysicsError::HalfExtentsNotPositive);
        }
        let mut c = Self::blank(world_id, ColliderType::Cuboid);
        c.half_extents = half_extents;
        Ok(c)
    }

    /// Builds a cylinder row, refusing a radius or half-height that is not
    /// finite and strictly positive.
    pub fn cylinder(world_id: u64, radius: u32, half_height: u32) -> (r: Result<
        Collider,
        PhysicsError,
    >)
        ensures
            r is Ok <==> f32_bits_is_positive_finite(radius) && f32_bits_is_positive_finite(
                half_height,
            ),
            r matches Err(e) ==> if !f32_bits_is_positive_finite(radius) {
                e == PhysicsError::RadiusNotPositive
            } else {
                e == PhysicsError::HalfHeightNotPositive
            },
            r matches Ok(c) ==> c == (Collider {
                radius,
                half_height,
                ..Self::blank_spec(world_id, ColliderType::Cylinder)
            }) && c.dimensions_ok(),
    {
        Self::round_solid(world_id, radius, half_height, ColliderType::Cylinder)
    }

    /// Builds a cone row, with the cylinder's dimension checks.
    pub fn cone(world_id: u64, radius: u32, half_height: u32) -> (r: Result<
        Collider,
        PhysicsError,
    >)
        ensures
            r is Ok <==> f32_bits_is_positive_finite(radius) && f32_bits_is_positive_finite(
                half_height,
            ),
            r matches Err(e) ==> if !f32_bits_is_positive_finite(radius) {
                e == PhysicsError::RadiusNotPositive
            } else {
                e == PhysicsError::HalfHeightNotPositive
            },
            r matches Ok(c) ==> c == (Collider {
                radius,
                half_height,
                ..Self::blank_spec(world_id, ColliderType::Cone)
            }) && c.dimensions_ok(),
    {
        Self::round_solid(world_id, radius, half_height, ColliderType::Cone)
    }

    /// Builds a capsule row, with the cylinder's dimension checks.
    pub fn capsule(world_id: u64, radius: u32, half_height: u32) -> (r: Result<
        Collider,
        PhysicsError,
    >)
        ensures
            r is Ok <==> f32_bits_is_positive_finite(radius) && f32_bits_is_positive_finite(
                half_height,
            ),
            r matches Err(e) ==> if !f32_bits_is_positive_finite(radius) {
                e == PhysicsError::RadiusNotPositive
            } else {
                e == PhysicsError::HalfHeightNotPositive
            },
            r matches Ok(c) ==> c == (Collider {
                radius,
                half_height,
                ..Self::blank_spec(world_id, ColliderType::Capsule)
            }) && c.dimensions_ok(),
    {
        Self::round_solid(world_id, radius, half_height, ColliderType::Capsule)
    }

    /// Builds a triangle row from its three corners, stored as given.
    pub fn triangle(world_id: u64, point_a: Vec3Bits, point_b: Vec3Bits, point_c: Vec3Bits) -> (r:
        Collider)
        ensures
            r == (Collider {
                point_a,
                point_b,
                point_c,
                ..Self::blank_spec(world_id, ColliderType::Triangle)
            }),
            r.dimensions_ok(),
    {
        let mut c = Self::blank(world_id, ColliderType::Triangle);
        c.point_a = point_a;
        c.point_b = point_b;
        c.point_c = point_c;
        c
    }

    /// Spec-level picture of a blank row of the given type.
    pub open spec fn blank_spec(world_id: u64, collider_type: ColliderType) -> Collider {
        Collider {
            id: 0,
            world_id,
            radius: POS_ZERO_BITS,
            normal: Vec3Bits { x: POS_ZERO_BITS, y: POS_ZERO_BITS, z: POS_ZERO_BITS },
            height: POS_ZERO_BITS,
            half_extents: Vec3Bits { x: POS_ZERO_BITS, y: POS_ZERO_BITS, z: POS_ZERO_BITS },
            half_height: POS_ZERO_BITS,
            point_a: Vec3Bits { x: POS_ZERO_BITS, y: POS_ZERO_BITS, z: POS_ZERO_BITS },
            point_b: Vec3Bits { x: POS_ZERO_BITS, y: POS_ZERO_BITS, z: POS_ZERO_BITS },
            point_c: Vec3Bits { x: POS_ZERO_BITS, y: POS_ZERO_BITS, z: POS_ZERO_BITS },
            collider_type,
        }
    }

    /// Shared body of the cylinder, cone and capsule builders.
    fn round_solid(world_id: u64, radius: u32, half_height: u32, collider_type: ColliderType) -> (r:
        Result<Collider, PhysicsError>)
        ensures
            r is Ok <==> f32_bits_is_positive_finite(radius) && f32_bits_is_positive_finite(
                half_height,
            ),
            r matches Err(e) ==> if !f32_bits_is_positive_finite(radius) {
                e == PhysicsError::RadiusNotPositive
            } else {
                e == PhysicsError::HalfHeightNotPositive
            },
            r matches Ok(c) ==> c == (Collider {
                radius,
                half_height,
                ..Self::blank_spec(world_id, collider_type)
            }),
    {
        if !crate::math::f32_bits_positive_finite(radius) {
            return Err(PhysicsError::RadiusNotPositive);
        }
        if !crate::math::f32_bits_positive_finite(half_height) {
            return Err(PhysicsError::HalfHeightNotPositive);
        }
        let mut c = Self::blank(world_id, collider_type);
        c.radius = radius;
        c.half_height = half_height;
        Ok(c)
    }

    /// Finds the first row holding the collider with the given id, as the
    /// tick-local collider lookup; `None` iff no row does.
    pub fn find_index(colliders: &Vec<Collider>, id: u64) -> (r: Option<usize>)
        ensures
            r matches Some(i) ==> i < colliders@.len() && colliders@[i as int].id == id
                && forall|k: int| 0 <= k < i ==> colliders@[k].id != id,
            r is None ==> forall|k: int| 0 <= k < colliders@.len() ==> colliders@[k].id != id,
    {
        let n = colliders.len();
        for i in 0..n
            invariant
                n == colliders@.len(),
                forall|k: int| 0 <= k < i ==> colliders@[k].id != id,
        {
            if colliders[i].id == id {
                return Some(i);
            }
        }
        None
    }

    /// Overwrites the row id, as the store does after an insert.
    pub fn id(&mut self, id: u64)
        ensures
            *final(self) == (Collider { id, ..*old(self) }),
    {
        self.id = id;
    }
}

} // verus!
