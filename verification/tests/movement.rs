use choreo::geom::Vec3i;
use choreo::movement::{
    do_moving, tick_mover, CurrentAnimation, MotionState, MoveEvent, MovementPath, Mover,
};

fn v(x: i64, y: i64, z: i64) -> Vec3i {
    Vec3i { x, y, z }
}

fn girl_mover(id: u64, position: Vec3i) -> Mover {
    Mover::spawn(id, position, v(1000, 0, 0), CurrentAnimation { index: 0, player: 100 + id })
}

/// Scenario: a two-stop path at five units per second from the origin ends
/// exactly on the last waypoint with the finish animation applied, after
/// exactly two waypoint arrivals and one completion.
#[test]
fn two_waypoint_path_exact_arrival() {
    let mut m = girl_mover(7, v(0, 0, 0));
    let points = vec![
        (v(10_000, 0, 0), 5_000i64, Some(1usize), None),
        (v(20_000, 0, 0), 5_000i64, None, None),
    ];
    let path = MovementPath::new(&points, 2, v(0, 0, 0));
    m.begin_movement(path, None);
    assert_eq!(m.animation.index, 1);
    assert_eq!(m.facing, v(10_000, 0, 0));

    let mut reached = 0;
    let mut done = 0;
    let mut positions = Vec::new();
    for tick in 0..6u64 {
        let events = tick_mover(&mut m, tick * 1000, 1000);
        for e in &events {
            match e {
                MoveEvent::WaypointReached(id) => {
                    assert_eq!(*id, 7);
                    reached += 1;
                }
                MoveEvent::PathDone(id) => {
                    assert_eq!(*id, 7);
                    done += 1;
                }
            }
        }
        positions.push(m.position);
    }
    // straight-line halves, then exact snaps: no drift, no overshoot
    assert_eq!(positions[0], v(5_000, 0, 0));
    assert_eq!(positions[1], v(10_000, 0, 0));
    assert_eq!(positions[2], v(15_000, 0, 0));
    assert_eq!(positions[3], v(20_000, 0, 0));
    assert_eq!(m.position, v(20_000, 0, 0));
    assert_eq!(m.animation.index, 2);
    assert_eq!(reached, 2);
    assert_eq!(done, 1);
    assert!(matches!(m.motion, MotionState::Idle));
}

/// Scenario: a delayed start gates all motion until the activation time has
/// passed, then motion begins on the first tick at or after it.
#[test]
fn delayed_start_gates_motion() {
    let mut m = girl_mover(3, v(0, 0, 0));
    let points = vec![(v(10_000, 0, 0), 5_000i64, Some(1usize), None)];
    let path = MovementPath::new(&points, 0, v(0, 0, 0));
    m.begin_movement(path, Some(1_000));

    let events = tick_mover(&mut m, 0, 500);
    assert!(events.is_empty());
    assert_eq!(m.position, v(0, 0, 0));
    let events = tick_mover(&mut m, 500, 500);
    assert!(events.is_empty());
    assert_eq!(m.position, v(0, 0, 0));
    // on the first tick at the activation time, motion starts
    let events = tick_mover(&mut m, 1_000, 500);
    assert!(events.is_empty());
    assert_eq!(m.position, v(2_500, 0, 0));
}

/// An externally cancelled path still fires exactly one completion event, and
/// cancelling an idle entity fires none.
#[test]
fn cancel_fires_exactly_one_completion() {
    let mut m = girl_mover(9, v(0, 0, 0));
    let points = vec![(v(10_000, 0, 0), 5_000i64, Some(1usize), None)];
    let path = MovementPath::new(&points, 0, v(0, 0, 0));
    m.begin_movement(path, None);
    let events = m.cancel_path();
    assert_eq!(events, vec![MoveEvent::PathDone(9)]);
    let events = m.cancel_path();
    assert!(events.is_empty());
}

/// The per-tick straight-line step never moves a coordinate past the waypoint
/// and never increases the distance to it.
#[test]
fn step_never_overshoots_waypoint() {
    let mut m = girl_mover(1, v(0, 0, 0));
    let goal = v(9_999, 3_333, -7_777);
    let points = vec![(goal, 3_000i64, Some(1usize), None)];
    let path = MovementPath::new(&points, 0, v(0, 0, 0));
    m.begin_movement(path, None);
    let mut last = dist_sq(m.position, goal);
    for tick in 0..200u64 {
        tick_mover(&mut m, tick * 100, 100);
        assert!(m.position.x <= goal.x && m.position.y <= goal.y && m.position.z >= goal.z);
        let d = dist_sq(m.position, goal);
        assert!(d <= last);
        last = d;
    }
    assert_eq!(m.position, goal);
}

fn dist_sq(a: Vec3i, b: Vec3i) -> i128 {
    let dx = (b.x - a.x) as i128;
    let dy = (b.y - a.y) as i128;
    let dz = (b.z - a.z) as i128;
    dx * dx + dy * dy + dz * dz
}

/// A whole-scene tick advances every mover and queues events in entity order.
#[test]
fn do_moving_ticks_every_mover() {
    let mut movers = Vec::new();
    let mut a = girl_mover(1, v(0, 0, 0));
    let points = vec![(v(1_000, 0, 0), 5_000i64, Some(1usize), None)];
    a.begin_movement(MovementPath::new(&points, 4, v(0, 0, 0)), None);
    movers.push(a);
    movers.push(girl_mover(2, v(5_000, 0, 0)));

    let events = do_moving(&mut movers, 0, 1000);
    // the first mover snaps onto its only waypoint and finishes; the second
    // one is idle and stays put
    assert_eq!(
        events,
        vec![MoveEvent::WaypointReached(1), MoveEvent::PathDone(1)]
    );
    assert_eq!(movers[0].position, v(1_000, 0, 0));
    assert_eq!(movers[0].animation.index, 4);
    assert_eq!(movers[1].position, v(5_000, 0, 0));
}

/// A half turn flips the horizontal facing components and keeps the rest.
#[test]
fn turn_around_flips_horizontal_facing() {
    let mut m = girl_mover(4, v(0, 0, 0));
    m.facing = v(1_000, 2_000, 3_000);
    choreo::movement::turn_around(&mut m);
    assert_eq!(m.facing, v(-1_000, 2_000, -3_000));
}

/// A group animation write touches exactly the listed entities.
#[test]
fn set_animation_all_touches_only_listed() {
    let mut movers = vec![girl_mover(1, v(0, 0, 0)), girl_mover(2, v(0, 0, 0))];
    choreo::movement::set_animation_all(&mut movers, &vec![2], 6);
    assert_eq!(movers[0].animation.index, 0);
    assert_eq!(movers[1].animation.index, 6);
    assert_eq!(movers[1].animation.player, 102);
}
