//! Kinematic pose synchronisation: the external feed overwrites the pose
//! of every kinematic body before the broad phase runs.

use vstd::prelude::*;

use crate::body::RigidBody;
use crate::math::{QuatBits, Vec3Bits};

verus! {

/// One feed entry: a body id and the pose supplied for it.
pub type KinematicBody = (u64, (Vec3Bits, QuatBits));

/// The pose the feed supplies for `id`: the *last* entry with that id, so
/// duplicates resolve last-write-wins; `None` when the feed never mentions
/// the id.
pub open spec fn feed_lookup(feed: Seq<KinematicBody>, id: u64) -> Option<(Vec3Bits, QuatBits)>
    decreases feed.len(),
{
    if feed.len() == 0 {
        None
    } else if feed.last().0 == id {
        Some(feed.last().1)
    } else {
        feed_lookup(feed.drop_last(), id)
    }
}

/// What synchronisation does to a single row: a kinematic body with a feed
/// entry takes the fed pose, bit for bit; every other row — dynamic,
/// static, or kinematic without an entry — is untouched.
pub open spec fn spec_synced(b: RigidBody, feed: Seq<KinematicBody>) -> RigidBody {
    if b.body_type is Kinematic {
        match feed_lookup(feed, b.id) {
            Some(pose) => RigidBody { position: pose.0, rotation: pose.1, ..b },
            None => b,
        }
    } else {
        b
    }
}

/// Scans the feed for the last entry with the given id.
fn feed_find(feed: &Vec<KinematicBody>, id: u64) -> (r: Option<(Vec3Bits, QuatBits)>)
    ensures
        r == feed_lookup(feed@, id),
{
    let mut found: Option<(Vec3Bits, QuatBits)> = None;
    let n = feed.len();
    for j in 0..n
        invariant
            n == feed@.len(),
            found == feed_lookup(feed@.subrange(0, j as int), id),
    {
        proof {
            assert(feed@.subrange(0, j + 1).drop_last() =~= feed@.subrange(0, j as int));
            assert(feed@.subrange(0, j + 1).last() == feed@[j as int]);
        }
        if feed[j].0 == id {
            found = Some(feed[j].1);
        }
    }
    proof {
        assert(feed@.subrange(0, n as int) =~= feed@);
    }
    found
}

/// Overwrites the pose of every kinematic body that the feed mentions with
/// the last pose fed for it; ids the store does not know are ignored by
/// construction, and no other field of any row changes.
pub fn sync_kinematic_bodies(bodies: &mut Vec<RigidBody>, feed: &Vec<KinematicBody>)
    ensures
        final(bodies)@.len() == old(bodies)@.len(),
        forall|i: int|
            0 <= i < old(bodies)@.len() ==> #[trigger] final(bodies)@[i] == spec_synced(
                old(bodies)@[i],
                feed@,
            ),
{
    let n = bodies.len();
    for i in 0..n
        invariant
            n == bodies@.len(),
            bodies@.len() == old(bodies)@.len(),
            forall|k: int|
                0 <= k < i ==> #[trigger] bodies@[k] == spec_synced(old(bodies)@[k], feed@),
            forall|k: int| i <= k < n ==> #[trigger] bodies@[k] == old(bodies)@[k],
    {
        let b = bodies[i];
        if b.is_kinematic() {
            match feed_find(feed, b.id) {
                Some(pose) => {
                    let mut updated = b;
                    updated.position = pose.0;
                    updated.rotation = pose.1;
                    bodies.set(i, updated);
                },
                None => (),
            }
        }
    }
}

} // verus!
