use spacetime_physics::math::Vec3Bits;
use spacetime_physics::raycast::{assemble_ray_hits, sort_hits, RayHit};

fn v3(x: f32, y: f32, z: f32) -> Vec3Bits {
    Vec3Bits {
        x: x.to_bits(),
        y: y.to_bits(),
        z: z.to_bits(),
    }
}

fn hit(body_id: u64, t: f32) -> RayHit {
    RayHit {
        body_id,
        time_of_impact: t.to_bits(),
        point: v3(t, 0.0, 0.0),
        normal: v3(-1.0, 0.0, 0.0),
    }
}

#[test]
fn zero_direction_returns_no_hits() {
    let candidates = vec![hit(1, 4.0), hit(2, 9.0)];
    let out = assemble_ray_hits(v3(0.0, 0.0, 0.0), &candidates, 20.0f32.to_bits());
    assert!(out.is_empty());
    // the negative-zero encoding counts as zero too
    let out = assemble_ray_hits(v3(-0.0, 0.0, -0.0), &candidates, 20.0f32.to_bits());
    assert!(out.is_empty());
}

#[test]
fn hits_come_back_sorted_by_time_of_impact() {
    let candidates = vec![hit(2, 9.0), hit(3, 14.0), hit(1, 4.0)];
    let out = assemble_ray_hits(v3(1.0, 0.0, 0.0), &candidates, 20.0f32.to_bits());
    assert_eq!(out.len(), 3);
    assert_eq!(out[0].body_id, 1);
    assert_eq!(out[0].time_of_impact, 4.0f32.to_bits());
    assert_eq!(out[1].body_id, 2);
    assert_eq!(out[2].body_id, 3);
}

#[test]
fn hits_beyond_the_budget_are_dropped() {
    let candidates = vec![hit(1, 4.0), hit(2, 25.0), hit(3, 14.0)];
    let out = assemble_ray_hits(v3(1.0, 0.0, 0.0), &candidates, 20.0f32.to_bits());
    assert_eq!(out.len(), 2);
    assert_eq!(out[0].body_id, 1);
    assert_eq!(out[1].body_id, 3);
    // a hit exactly at the budget is kept
    let candidates = vec![hit(5, 20.0)];
    let out = assemble_ray_hits(v3(1.0, 0.0, 0.0), &candidates, 20.0f32.to_bits());
    assert_eq!(out.len(), 1);
}

#[test]
fn sort_hits_orders_and_keeps_everything() {
    let mut hits = vec![hit(3, 3.5), hit(1, 0.25), hit(2, 1.75), hit(4, 0.25)];
    sort_hits(&mut hits);
    assert_eq!(hits.len(), 4);
    let times: Vec<u32> = hits.iter().map(|h| h.time_of_impact).collect();
    let mut expected = times.clone();
    expected.sort_unstable();
    assert_eq!(times, expected);
    assert_eq!(hits[3].body_id, 3);
}
