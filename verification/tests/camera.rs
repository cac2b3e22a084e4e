use gridflow::camera::{reset_focus, CameraTracker, FocusPoint, DEAD_ZONE_SQ_MILLI};

fn sq_dist(a: FocusPoint, b: FocusPoint) -> i128 {
    let dx = (b.x - a.x) as i128;
    let dy = (b.y - a.y) as i128;
    let dz = (b.z - a.z) as i128;
    dx * dx + dy * dy + dz * dz
}

#[test]
fn reset_focus_is_the_board_center_constant() {
    // cols / 2.2 world units: for six columns, 2.727... units, i.e.
    // 2727 thousandths.
    let f = reset_focus(6);
    assert_eq!(f.x, 2727);
    assert_eq!(f.y, 0);
    assert_eq!(f.z, 0);
}

#[test]
fn one_tick_advances_by_the_speed_fraction() {
    let origin = FocusPoint { x: 0, y: 0, z: 0 };
    let target = FocusPoint { x: 2727, y: 0, z: 0 };
    let mut tracker = CameraTracker::new(origin);
    tracker.tick(target, 16);
    // 2727 * 2 * 16 / 1000, truncated.
    assert_eq!(tracker.current().x, 87);
    assert_eq!(tracker.desired(), target);
}

#[test]
fn inside_dead_zone_nothing_moves() {
    let near = FocusPoint { x: 2600, y: 0, z: 0 };
    let target = FocusPoint { x: 2727, y: 0, z: 0 };
    let mut tracker = CameraTracker::new(near);
    tracker.tick(target, 100);
    assert_eq!(tracker.current(), near);
    assert!(tracker.at_rest());
}

#[test]
fn dead_zone_boundary_is_inclusive() {
    let target = FocusPoint { x: 0, y: 0, z: 0 };
    let mut at_edge = CameraTracker::new(FocusPoint { x: 200, y: 0, z: 0 });
    at_edge.tick(target, 16);
    assert_eq!(at_edge.current().x, 200);
    assert!(at_edge.at_rest());

    let mut outside = CameraTracker::new(FocusPoint { x: 201, y: 0, z: 0 });
    outside.tick(target, 16);
    // One thousandth past the zone still moves: 201 * 2 * 16 / 1000,
    // truncated, toward zero — and that lands it inside the zone.
    assert_eq!(outside.current().x, 201 - 6);
    assert!(outside.at_rest());
}

#[test]
fn repeated_ticks_converge_then_stop() {
    let start = FocusPoint { x: -5_000, y: 3_000, z: 12_000 };
    let target = reset_focus(6);
    let mut tracker = CameraTracker::new(start);
    let mut last = sq_dist(tracker.current(), target);
    assert!(last > DEAD_ZONE_SQ_MILLI as i128);
    let mut ticks = 0u32;
    loop {
        tracker.tick(target, 16);
        let now = sq_dist(tracker.current(), target);
        assert!(now < last, "distance must fall on every tick outside the dead zone");
        last = now;
        if tracker.at_rest() {
            break;
        }
        ticks += 1;
        assert!(ticks < 100_000, "tracker failed to converge");
    }
    assert!(last <= DEAD_ZONE_SQ_MILLI as i128);
    // A fixed point: further ticks leave the focus exactly in place.
    let resting = tracker.current();
    for _ in 0..10 {
        tracker.tick(target, 16);
        assert_eq!(tracker.current(), resting);
    }
}

#[test]
fn zero_delta_time_holds_position() {
    let start = FocusPoint { x: 10_000, y: 0, z: 0 };
    let target = FocusPoint { x: 0, y: 0, z: 0 };
    let mut tracker = CameraTracker::new(start);
    tracker.tick(target, 0);
    assert_eq!(tracker.current(), start);
    assert_eq!(tracker.desired(), target);
}
