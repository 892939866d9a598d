//! Trigger rows and per-tick overlap membership bookkeeping.
//!
//! Each trigger keeps the set of body ids currently inside it. During the
//! narrow phase the tick accumulates a tentative set from the overlap
//! reports; at tick end the tentative set is diffed against the previous
//! one, yielding the added/removed membership rows to persist.

use vstd::prelude::*;

use crate::math::{QuatBits, Vec3Bits};

verus! {

/// A trigger row: a posed volume that reports overlaps but exerts no
/// forces.
#[derive(Clone, Copy, Debug)]
pub struct PhysicsTrigger {
    pub id: u64,
    pub world_id: u64,
    pub position: Vec3Bits,
    pub rotation: QuatBits,
    pub collider_id: u64,
}

/// A persisted membership row: one body currently inside one trigger.
#[derive(Clone, Copy, PartialEq, Eq, Structural, Hash, Debug)]
pub struct PhysicsTriggerEntity {
    pub trigger_id: u64,
    pub world_id: u64,
    pub entity_id: u64,
}

/// Tick-local membership state of one trigger. The id vectors are sets:
/// they never hold a duplicate.
#[derive(Debug)]
pub struct TriggerState {
    pub trigger_id: u64,
    pub world_id: u64,
    pub collider_id: u64,
    pub position: Vec3Bits,
    pub rotation: QuatBits,
    pub current_entities_inside: Vec<u64>,
    pub new_entities_inside: Vec<u64>,
    pub added_entities: Vec<u64>,
    pub removed_entities: Vec<u64>,
}

impl TriggerState {
    /// Both membership vectors are duplicate-free.
    pub open spec fn sets_ok(self) -> bool {
        self.current_entities_inside@.no_duplicates()
            && self.new_entities_inside@.no_duplicates()
    }

    /// The identity and pose of the trigger, which membership bookkeeping
    /// never touches.
    pub open spec fn same_identity(self, other: TriggerState) -> bool {
        &&& self.trigger_id == other.trigger_id
        &&& self.world_id == other.world_id
        &&& self.collider_id == other.collider_id
        &&& self.position == other.position
        &&& self.rotation == other.rotation
    }

    /// Starts tracking a trigger whose persisted membership is `current`.
    pub fn new(
        trigger_id: u64,
        world_id: u64,
        collider_id: u64,
        position: Vec3Bits,
        rotation: QuatBits,
        current: Vec<u64>,
    ) -> (t: TriggerState)
        requires
            current@.no_duplicates(),
        ensures
            t.trigger_id == trigger_id,
            t.world_id == world_id,
            t.collider_id == collider_id,
            t.position == position,
            t.rotation == rotation,
            t.current_entities_inside@ == current@,
            t.new_entities_inside@.len() == 0,
            t.added_entities@.len() == 0,
            t.removed_entities@.len() == 0,
            t.sets_ok(),
    {
        TriggerState {
            trigger_id,
            world_id,
            collider_id,
            position,
            rotation,
            current_entities_inside: current,
            new_entities_inside: Vec::new(),
            added_entities: Vec::new(),
            removed_entities: Vec::new(),
        }
    }
}

/// Linear membership test on an id vector.
pub fn contains_id(ids: &Vec<u64>, id: u64) -> (r: bool)
    ensures
        r == ids@.contains(id),
{
    let n = ids.len();
    for i in 0..n
        invariant
            n == ids@.len(),
            forall|k: int| 0 <= k < i ==> ids@[k] != id,
    {
        if ids[i] == id {
            return true;
        }
    }
    false
}

/// Adds an id to a duplicate-free id vector, keeping it duplicate-free;
/// the vector afterwards holds exactly the old ids plus `id`.
pub fn insert_id(ids: &mut Vec<u64>, id: u64)
    requires
        old(ids)@.no_duplicates(),
    ensures
        final(ids)@.no_duplicates(),
        final(ids)@.to_set() == old(ids)@.to_set().insert(id),
{
    broadcast use vstd::seq_lib::group_seq_properties;

    if !contains_id(ids, id) {
        proof {
            assert(forall|k: int| 0 <= k < ids@.len() ==> ids@[k] != id);
        }
        ids.push(id);
    }
    proof {
        assert(ids@.to_set() =~= old(ids)@.to_set().insert(id));
    }
}

/// The ids of `src` that are not in `drop`, in their original order.
fn keep_not_in(src: &Vec<u64>, drop: &Vec<u64>) -> (r: Vec<u64>)
    requires
        src@.no_duplicates(),
    ensures
        r@.no_duplicates(),
        forall|y: u64| #[trigger] r@.contains(y) <==> src@.contains(y) && !drop@.contains(y),
{
    broadcast use vstd::seq_lib::group_seq_properties;

    let mut out: Vec<u64> = Vec::new();
    let n = src.len();
    for i in 0..n
        invariant
            n == src@.len(),
            src@.no_duplicates(),
            out@.no_duplicates(),
            forall|y: u64| #[trigger]
                out@.contains(y) ==> ((exists|k: int| 0 <= k < i && src@[k] == y)
                    && !drop@.contains(y)),
            forall|k: int|
                0 <= k < i && !drop@.contains(#[trigger] src@[k]) ==> out@.contains(src@[k]),
    {
        let ghost prev = out@;
        proof {
            // the source has no duplicates, so the element at `i` cannot
            // already be in the output
            assert(!out@.contains(src@[i as int])) by {
                if out@.contains(src@[i as int]) {
                    let k = choose|k: int| 0 <= k < i && src@[k] == src@[i as int];
                    assert(false);
                }
            }
        }
        let x = src[i];
        if !contains_id(drop, x) {
            out.push(x);
            proof {
                assert(out@.no_duplicates()) by {
                    assert(forall|k: int| 0 <= k < prev.len() ==> prev[k] != x);
                }
            }
        }
        proof {
            assert forall|y: u64| #[trigger] out@.contains(y) implies ((exists|k: int|
                0 <= k < i + 1 && src@[k] == y) && !drop@.contains(y)) by {
                if prev.contains(y) {
                    let k = choose|k: int| 0 <= k < i && src@[k] == y;
                    assert(0 <= k < i + 1 && src@[k] == y);
                } else {
                    assert(y == src@[i as int]);
                    assert(0 <= i < i + 1 && src@[i as int] == y);
                }
            }
            assert forall|k: int| 0 <= k < i + 1 && !drop@.contains(#[trigger] src@[k]) implies
                out@.contains(src@[k]) by {
                assert(out@.len() >= prev.len());
                if k < i {
                    assert(prev.contains(src@[k]));
                    let j = choose|j: int| 0 <= j < prev.len() && prev[j] == src@[k];
                    assert(out@[j] == src@[k]);
                } else {
                    assert(src@[k] == src@[i as int]);
                    assert(out@ == prev.push(src@[i as int]));
                    assert(out@[prev.len() as int] == src@[i as int]);
                }
            }
        }
    }
    proof {
        assert forall|y: u64| src@.contains(y) && !drop@.contains(y) implies #[trigger]
            out@.contains(y) by {
            let k = choose|k: int| 0 <= k < src@.len() && src@[k] == y;
            assert(out@.contains(src@[k]));
        }
    }
    out
}

/// Removes an id from a duplicate-free id vector (a no-op when absent);
/// the vector afterwards holds exactly the old ids minus `id`.
pub fn remove_id(ids: &mut Vec<u64>, id: u64)
    requires
        old(ids)@.no_duplicates(),
    ensures
        final(ids)@.no_duplicates(),
        final(ids)@.to_set() == old(ids)@.to_set().remove(id),
{
    broadcast use vstd::seq_lib::group_seq_properties;

    let mut single: Vec<u64> = Vec::new();
    single.push(id);
    let kept = keep_not_in(ids, &single);
    *ids = kept;
    proof {
        assert(forall|y: u64| #[trigger] single@.contains(y) <==> y == id);
        assert(ids@.to_set() =~= old(ids)@.to_set().remove(id));
    }
}

/// The ids of `a` that are not in `b`: set difference on duplicate-free
/// id vectors.
pub fn difference(a: &Vec<u64>, b: &Vec<u64>) -> (r: Vec<u64>)
    requires
        a@.no_duplicates(),
    ensures
        r@.no_duplicates(),
        r@.to_set() == a@.to_set().difference(b@.to_set()),
{
    let out = keep_not_in(a, b);
    proof {
        assert(out@.to_set() =~= a@.to_set().difference(b@.to_set()));
    }
    out
}

/// Records one overlap report: an intersecting body joins the trigger's
/// tentative set, and a body that does not intersect is dropped from it.
/// The rest of the trigger state is untouched.
pub fn record_trigger_overlap(t: &mut TriggerState, body_id: u64, intersecting: bool)
    requires
        old(t).sets_ok(),
    ensures
        final(t).sets_ok(),
        final(t).same_identity(*old(t)),
        final(t).new_entities_inside@.to_set() == if intersecting {
            old(t).new_entities_inside@.to_set().insert(body_id)
        } else {
            old(t).new_entities_inside@.to_set().remove(body_id)
        },
        final(t).current_entities_inside@ == old(t).current_entities_inside@,
        final(t).added_entities@ == old(t).added_entities@,
        final(t).removed_entities@ == old(t).removed_entities@,
{
    if intersecting {
        insert_id(&mut t.new_entities_inside, body_id);
    } else {
        remove_id(&mut t.new_entities_inside, body_id);
    }
}

/// What a sequence of overlap reports leaves of a tentative set: each
/// report in turn inserts its body id (intersecting) or removes it (not
/// intersecting).
pub open spec fn spec_record_overlaps(s: Set<u64>, vs: Seq<(u64, bool)>) -> Set<u64>
    decreases vs.len(),
{
    if vs.len() == 0 {
        s
    } else {
        let rest = spec_record_overlaps(s, vs.drop_last());
        if vs.last().1 {
            rest.insert(vs.last().0)
        } else {
            rest.remove(vs.last().0)
        }
    }
}

/// Records one narrow-phase pass worth of overlap reports for this
/// trigger, in order.
pub fn record_trigger_overlaps(t: &mut TriggerState, reports: &Vec<(u64, bool)>)
    requires
        old(t).sets_ok(),
    ensures
        final(t).sets_ok(),
        final(t).same_identity(*old(t)),
        final(t).new_entities_inside@.to_set() == spec_record_overlaps(
            old(t).new_entities_inside@.to_set(),
            reports@,
        ),
        final(t).current_entities_inside@ == old(t).current_entities_inside@,
        final(t).added_entities@ == old(t).added_entities@,
        final(t).removed_entities@ == old(t).removed_entities@,
{
    let n = reports.len();
    for i in 0..n
        invariant
            n == reports@.len(),
            t.sets_ok(),
            t.same_identity(*old(t)),
            t.new_entities_inside@.to_set() == spec_record_overlaps(
                old(t).new_entities_inside@.to_set(),
                reports@.subrange(0, i as int),
            ),
            t.current_entities_inside@ == old(t).current_entities_inside@,
            t.added_entities@ == old(t).added_entities@,
            t.removed_entities@ == old(t).removed_entities@,
    {
        proof {
            assert(reports@.subrange(0, i + 1).drop_last() =~= reports@.subrange(0, i as int));
            assert(reports@.subrange(0, i + 1).last() == reports@[i as int]);
        }
        let (body_id, intersecting) = reports[i];
        record_trigger_overlap(t, body_id, intersecting);
    }
    proof {
        assert(reports@.subrange(0, n as int) =~= reports@);
    }
}

/// Closes the tick for one trigger: the added set is what is tentatively
/// inside but was not inside before, the removed set the reverse; the
/// tentative set becomes the current one and is left empty for the next
/// tick.
pub fn finish_trigger_tick(t: &mut TriggerState)
    requires
        old(t).sets_ok(),
    ensures
        final(t).sets_ok(),
        final(t).same_identity(*old(t)),
        final(t).added_entities@.no_duplicates(),
        final(t).removed_entities@.no_duplicates(),
        final(t).added_entities@.to_set() == old(t).new_entities_inside@.to_set().difference(
            old(t).current_entities_inside@.to_set(),
        ),
        final(t).removed_entities@.to_set() == old(
            t,
        ).current_entities_inside@.to_set().difference(old(t).new_entities_inside@.to_set()),
        final(t).current_entities_inside@ == old(t).new_entities_inside@,
        final(t).new_entities_inside@.len() == 0,
{
    let mut tentative: Vec<u64> = Vec::new();
    core::mem::swap(&mut tentative, &mut t.new_entities_inside);
    let added = difference(&tentative, &t.current_entities_inside);
    let removed = difference(&t.current_entities_inside, &tentative);
    t.added_entities = added;
    t.removed_entities = removed;
    t.current_entities_inside = tentative;
}

/// The membership rows to insert for this trigger's added set.
pub fn added_rows(t: &TriggerState) -> (r: Vec<PhysicsTriggerEntity>)
    ensures
        r@.len() == t.added_entities@.len(),
        forall|i: int|
            0 <= i < r@.len() ==> #[trigger] r@[i] == (PhysicsTriggerEntity {
                trigger_id: t.trigger_id,
                world_id: t.world_id,
                entity_id: t.added_entities@[i],
            }),
{
    let mut out: Vec<PhysicsTriggerEntity> = Vec::new();
    let n = t.added_entities.len();
    for i in 0..n
        invariant
            n == t.added_entities@.len(),
            out@.len() == i,
            forall|k: int|
                0 <= k < i ==> #[trigger] out@[k] == (PhysicsTriggerEntity {
                    trigger_id: t.trigger_id,
                    world_id: t.world_id,
                    entity_id: t.added_entities@[k],
                }),
    {
        out.push(
            PhysicsTriggerEntity {
                trigger_id: t.trigger_id,
                world_id: t.world_id,
                entity_id: t.added_entities[i],
            },
        );
    }
    out
}

/// The membership rows to delete for this trigger's removed set.
pub fn removed_rows(t: &TriggerState) -> (r: Vec<PhysicsTriggerEntity>)
    ensures
        r@.len() == t.removed_entities@.len(),
        forall|i: int|
            0 <= i < r@.len() ==> #[trigger] r@[i] == (PhysicsTriggerEntity {
                trigger_id: t.trigger_id,
                world_id: t.world_id,
                entity_id: t.removed_entities@[i],
            }),
{
    let mut out: Vec<PhysicsTriggerEntity> = Vec::new();
    let n = t.removed_entities.len();
    for i in 0..n
        invariant
            n == t.removed_entities@.len(),
            out@.len() == i,
            forall|k: int|
                0 <= k < i ==> #[trigger] out@[k] == (PhysicsTriggerEntity {
                    trigger_id: t.trigger_id,
                    world_id: t.world_id,
                    entity_id: t.removed_entities@[k],
                }),
    {
        out.push(
            PhysicsTriggerEntity {
                trigger_id: t.trigger_id,
                world_id: t.world_id,
                entity_id: t.removed_entities[i],
            },
        );
    }
    out
}

/// Hydrates the tick-local state of one trigger from its row and the
/// persisted membership rows of its world.
pub fn trigger_state_of(trigger: &PhysicsTrigger, rows: &Vec<PhysicsTriggerEntity>) -> (t:
    TriggerState)
    ensures
        t.trigger_id == trigger.id,
        t.world_id == trigger.world_id,
        t.collider_id == trigger.collider_id,
        t.position == trigger.position,
        t.rotation == trigger.rotation,
        t.sets_ok(),
        forall|x: u64| #[trigger]
            t.current_entities_inside@.to_set().contains(x) <==> exists|i: int|
                0 <= i < rows@.len() && #[trigger] rows@[i].trigger_id == trigger.id
                    && rows@[i].entity_id == x,
        t.new_entities_inside@.len() == 0,
        t.added_entities@.len() == 0,
        t.removed_entities@.len() == 0,
{
    let current = group_memberships(rows, trigger.id);
    TriggerState::new(
        trigger.id,
        trigger.world_id,
        trigger.collider_id,
        trigger.position,
        trigger.rotation,
        current,
    )
}

/// Collects, without duplicates, the body ids that the persisted
/// membership rows record for one trigger.
pub fn group_memberships(rows: &Vec<PhysicsTriggerEntity>, trigger_id: u64) -> (r: Vec<u64>)
    ensures
        r@.no_duplicates(),
        forall|x: u64| #[trigger]
            r@.to_set().contains(x) <==> exists|i: int|
                0 <= i < rows@.len() && #[trigger] rows@[i].trigger_id == trigger_id
                    && rows@[i].entity_id == x,
{
    broadcast use vstd::seq_lib::group_seq_properties;

    let mut out: Vec<u64> = Vec::new();
    let n = rows.len();
    for i in 0..n
        invariant
            n == rows@.len(),
            out@.no_duplicates(),
            forall|x: u64| #[trigger]
                out@.contains(x) <==> exists|k: int|
                    0 <= k < i && #[trigger] rows@[k].trigger_id == trigger_id
                        && rows@[k].entity_id == x,
    {
        let ghost prev = out@;
        let row = rows[i];
        if row.trigger_id == trigger_id {
            insert_id(&mut out, row.entity_id);
            proof {
                assert(out@.to_set() == prev.to_set().insert(row.entity_id));
                assert(forall|x: u64| #[trigger]
                    out@.contains(x) <==> prev.contains(x) || x == row.entity_id) by {
                    assert(forall|x: u64| #[trigger] out@.contains(x) <==> out@.to_set().contains(
                        x,
                    ));
                    assert(forall|x: u64| #[trigger] prev.contains(x) <==> prev.to_set().contains(
                        x,
                    ));
                }
            }
        }
    }
    out
}

} // verus!
