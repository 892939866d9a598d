//! The tick's write gates.
//!
//! Every write the solver phases make to persistent body state passes
//! through the two functions here. Both preserve each row's identity
//! (id, world, mass, inertia, material, classification), and neither ever
//! moves a body that is not dynamic — so a static body's pose survives a
//! tick bit for bit, and a kinematic body keeps the pose the feed gave it,
//! whatever update batches the solver produces.

use vstd::prelude::*;

use crate::body::RigidBody;
use crate::math::{Vec3Bits, POS_ZERO_BITS};

verus! {

/// The motion state one solver pass may hand back for one dynamic body.
#[derive(Clone, Copy, PartialEq, Eq, Structural, Debug)]
pub struct MotionUpdate {
    pub position: Vec3Bits,
    pub rotation: crate::math::QuatBits,
    pub linear_velocity: Vec3Bits,
    pub angular_velocity: Vec3Bits,
    pub force: Vec3Bits,
    pub torque: Vec3Bits,
    pub pre_solve_linear_velocity: Vec3Bits,
    pub pre_solve_angular_velocity: Vec3Bits,
    pub previous_position: Vec3Bits,
    pub previous_rotation: crate::math::QuatBits,
}

/// The row after an update: motion fields replaced, identity kept.
pub open spec fn spec_apply_motion(b: RigidBody, u: MotionUpdate) -> RigidBody {
    RigidBody {
        position: u.position,
        rotation: u.rotation,
        linear_velocity: u.linear_velocity,
        angular_velocity: u.angular_velocity,
        force: u.force,
        torque: u.torque,
        pre_solve_linear_velocity: u.pre_solve_linear_velocity,
        pre_solve_angular_velocity: u.pre_solve_angular_velocity,
        previous_position: u.previous_position,
        previous_rotation: u.previous_rotation,
        ..b
    }
}

/// Row identity: everything a solver pass must not touch.
pub open spec fn same_identity(a: RigidBody, b: RigidBody) -> bool {
    &&& a.id == b.id
    &&& a.world_id == b.world_id
    &&& a.mass == b.mass
    &&& a.inv_mass == b.inv_mass
    &&& a.collider_id == b.collider_id
    &&& a.inertia_tensor == b.inertia_tensor
    &&& a.inv_inertia_tensor == b.inv_inertia_tensor
    &&& a.friction == b.friction
    &&& a.restitution == b.restitution
    &&& a.body_type == b.body_type
}

/// What any pass through a write gate guarantees: row count and row
/// identities are kept, and a body that is not dynamic keeps its pose and
/// its loaded pose.
pub open spec fn motion_step(pre: Seq<RigidBody>, post: Seq<RigidBody>) -> bool {
    &&& post.len() == pre.len()
    &&& forall|k: int| 0 <= k < pre.len() ==> same_identity(#[trigger] pre[k], post[k])
    &&& forall|k: int|
        0 <= k < pre.len() && !((#[trigger] pre[k]).body_type is Dynamic) ==> post[k].position
            == pre[k].position && post[k].rotation == pre[k].rotation && post[k].previous_position
            == pre[k].previous_position && post[k].previous_rotation == pre[k].previous_rotation
}

/// The update a batch carries for row `k`: the *last* entry aimed at `k`,
/// so duplicates resolve last-write-wins.
pub open spec fn updates_lookup(updates: Seq<(usize, MotionUpdate)>, k: int) -> Option<MotionUpdate>
    decreases updates.len(),
{
    if updates.len() == 0 {
        None
    } else if updates.last().0 == k {
        Some(updates.last().1)
    } else {
        updates_lookup(updates.drop_last(), k)
    }
}

/// What one batch does to one row: a dynamic body takes the last update
/// aimed at it (if any); every other row is untouched.
pub open spec fn spec_after_updates(
    b: RigidBody,
    updates: Seq<(usize, MotionUpdate)>,
    k: int,
) -> RigidBody {
    if b.body_type is Dynamic {
        match updates_lookup(updates, k) {
            Some(u) => spec_apply_motion(b, u),
            None => b,
        }
    } else {
        b
    }
}

/// Applies one solver pass's update batch. Updates aimed at rows that do
/// not exist, or at bodies that are not dynamic, are discarded; for each
/// dynamic body the last update aimed at it wins.
pub fn apply_motion_updates(bodies: &mut Vec<RigidBody>, updates: &Vec<(usize, MotionUpdate)>)
    ensures
        final(bodies)@.len() == old(bodies)@.len(),
        forall|k: int|
            0 <= k < old(bodies)@.len() ==> #[trigger] final(bodies)@[k] == spec_after_updates(
                old(bodies)@[k],
                updates@,
                k,
            ),
        motion_step(old(bodies)@, final(bodies)@),
{
    let m = updates.len();
    for j in 0..m
        invariant
            m == updates@.len(),
            bodies@.len() == old(bodies)@.len(),
            forall|k: int|
                0 <= k < old(bodies)@.len() ==> #[trigger] bodies@[k] == spec_after_updates(
                    old(bodies)@[k],
                    updates@.subrange(0, j as int),
                    k,
                ),
    {
        proof {
            assert(updates@.subrange(0, j + 1).drop_last() =~= updates@.subrange(0, j as int));
            assert(updates@.subrange(0, j + 1).last() == updates@[j as int]);
        }
        let (idx, u) = updates[j];
        if idx < bodies.len() {
            let b = bodies[idx];
            if b.is_dynamic() {
                let updated = RigidBody {
                    position: u.position,
                    rotation: u.rotation,
                    linear_velocity: u.linear_velocity,
                    angular_velocity: u.angular_velocity,
                    force: u.force,
                    torque: u.torque,
                    pre_solve_linear_velocity: u.pre_solve_linear_velocity,
                    pre_solve_angular_velocity: u.pre_solve_angular_velocity,
                    previous_position: u.previous_position,
                    previous_rotation: u.previous_rotation,
                    ..b
                };
                bodies.set(idx, updated);
            }
        }
    }
    proof {
        assert(updates@.subrange(0, m as int) =~= updates@);
    }
}

/// Zeroes the stored velocities of every body the solver does not
/// integrate, as the velocity recomputation pass does; dynamic bodies and
/// all poses are untouched.
pub fn zero_non_dynamic_velocities(bodies: &mut Vec<RigidBody>)
    ensures
        final(bodies)@.len() == old(bodies)@.len(),
        forall|k: int|
            0 <= k < old(bodies)@.len() ==> #[trigger] final(bodies)@[k] == (
            if old(bodies)@[k].body_type is Dynamic {
                old(bodies)@[k]
            } else {
                RigidBody {
                    linear_velocity: Vec3Bits {
                        x: POS_ZERO_BITS,
                        y: POS_ZERO_BITS,
                        z: POS_ZERO_BITS,
                    },
                    angular_velocity: Vec3Bits {
                        x: POS_ZERO_BITS,
                        y: POS_ZERO_BITS,
                        z: POS_ZERO_BITS,
                    },
                    ..old(bodies)@[k]
                }
            }),
        motion_step(old(bodies)@, final(bodies)@),
{
    let n = bodies.len();
    for i in 0..n
        invariant
            n == bodies@.len(),
            bodies@.len() == old(bodies)@.len(),
            forall|k: int|
                0 <= k < i ==> #[trigger] bodies@[k] == (
                if old(bodies)@[k].body_type is Dynamic {
                    old(bodies)@[k]
                } else {
                    RigidBody {
                        linear_velocity: Vec3Bits {
                            x: POS_ZERO_BITS,
                            y: POS_ZERO_BITS,
                            z: POS_ZERO_BITS,
                        },
                        angular_velocity: Vec3Bits {
                            x: POS_ZERO_BITS,
                            y: POS_ZERO_BITS,
                            z: POS_ZERO_BITS,
                        },
                        ..old(bodies)@[k]
                    }
                }),
            forall|k: int| i <= k < n ==> #[trigger] bodies@[k] == old(bodies)@[k],
    {
        let b = bodies[i];
        if !b.is_dynamic() {
            let mut updated = b;
            updated.linear_velocity = Vec3Bits::zero();
            updated.angular_velocity = Vec3Bits::zero();
            bodies.set(i, updated);
        }
    }
}

} // verus!
