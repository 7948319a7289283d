use choreo::camera_target::{CameraTarget, TargetRef};
use choreo::geom::Vec3i;
use choreo::girls::{
    enter_idle, enter_running, enter_walking, move_done, music_event, nearest_point, GirlsState,
};
use choreo::intro;
use choreo::intro::AnimationKey;
use choreo::leader;
use choreo::men;
use choreo::movement::MoveEvent;
use choreo::music::MusicEvent;
use choreo::narrative::{check_ready, screws_on_enter, GameState, Narrative, ScrewState};
use choreo::shared::random_pos;

fn v(x: i64, y: i64, z: i64) -> Vec3i {
    Vec3i { x, y, z }
}

/// The nearest-point search takes squared distances and prefers the earliest
/// of equally near points.
#[test]
fn nearest_prefers_first_of_ties() {
    let pts = vec![v(0, 0, 0), v(1_000, 0, 0), v(1_000, 0, 0)];
    assert_eq!(nearest_point(&pts, v(900, 0, 0)), 1);
    assert_eq!(nearest_point(&pts, v(100, 0, 0)), 0);
}

/// Walking in: each girl gets the nearest seat still free, pausing four units
/// in front of it, and each seat is used at most once.
#[test]
fn walking_assigns_nearest_free_seats() {
    let girls = vec![(11u64, v(9_000, 0, 0)), (12u64, v(0, 0, 0))];
    let seat_pos = vec![v(10_000, 0, 0), v(1_000, 0, 0)];
    let seat_fwd = vec![v(0, 0, 1_000), v(1_000, 0, 0)];
    let (paths, state) = enter_walking(&girls, &seat_pos, &seat_fwd);
    assert_eq!(state, GirlsState::Moving);
    assert_eq!(paths.len(), 2);
    // girl 11 takes the near seat at x = 10; girl 12 the remaining one
    assert_eq!(paths[0].0, 11);
    let p = &paths[0].1;
    assert_eq!(p.points.len(), 2);
    assert_eq!(p.points[1].pos, v(10_000, 0, 0));
    assert_eq!(p.points[0].pos, v(10_000, 0, -4_000));
    assert_eq!(p.points[0].animation_index, Some(1));
    assert_eq!(p.points[1].animation_index, Some(5));
    assert_eq!(p.points[0].velocity, 2 * p.points[1].velocity);
    assert!((2_000..3_000).contains(&p.points[1].velocity));
    assert!(p.finish_animation == 9 || p.finish_animation == 10);
    assert_eq!(p.finish_look_at, p.points[0].pos);
    let q = &paths[1].1;
    assert_eq!(paths[1].0, 12);
    assert_eq!(q.points[1].pos, v(1_000, 0, 0));
    assert_eq!(q.points[0].pos, v(1_000 - 4_000, 0, 0));
}

/// Running out: three stops ending on the given ring spot, same pace all the
/// way, one of the four dance moves at the end.
#[test]
fn running_paths_end_on_ring() {
    let girls = vec![(5u64, v(2_000, 0, 0), v(0, 0, 1_000))];
    let ring = vec![v(6_000, 0, 0)];
    let (paths, state) = enter_running(&girls, &ring);
    assert_eq!(state, GirlsState::Moving);
    let p = &paths[0].1;
    assert_eq!(p.points.len(), 3);
    // the lunge is along the facing (z axis), between one and two units
    assert_eq!(p.points[0].pos.x, 2_000);
    assert!((1_000..2_000).contains(&p.points[0].pos.z));
    // the second stop is the lunge flipped and scaled by four
    assert_eq!(p.points[1].pos.x, 0);
    assert!((-8_000..=-4_000).contains(&p.points[1].pos.z));
    assert_eq!(p.points[2].pos, v(6_000, 0, 0));
    assert!([2usize, 3, 7, 8].contains(&p.finish_animation));
    assert_eq!(p.finish_look_at, v(0, 0, 0));
}

/// The idle aggregator reacts only to a girl's completion with nothing left
/// outstanding.
#[test]
fn girls_settle_when_all_paths_done() {
    let girls = vec![21u64, 22];
    let done = vec![MoveEvent::PathDone(22)];
    assert_eq!(move_done(&done, &girls, 0), Some(GirlsState::Idle));
    assert_eq!(move_done(&done, &girls, 1), None);
    assert_eq!(move_done(&vec![MoveEvent::PathDone(99)], &girls, 0), None);
    assert_eq!(move_done(&vec![MoveEvent::WaypointReached(22)], &girls, 0), None);
}

/// Sitting idles are handed out only during the speak phase, one of the two
/// per girl.
#[test]
fn idle_animations_only_while_speaking() {
    assert_eq!(enter_idle(GameState::Intro, 3), None);
    let v = enter_idle(GameState::Speak, 5).unwrap();
    assert_eq!(v.len(), 5);
    assert!(v.iter().all(|i| *i == 4 || *i == 6));
}

/// The sing-phase camera cues: exact targets per beat, nothing otherwise.
#[test]
fn girls_sing_cues() {
    let r = music_event(MusicEvent(GameState::Sing, 2), 70, 71).unwrap();
    assert_eq!(r.1, 0);
    assert_eq!(r.0.target, TargetRef::Position(v(60_000, 10_000, 0)));
    assert_eq!(r.0.direction, Some(v(-1_000, 0, 0)));
    let r = music_event(MusicEvent(GameState::Sing, 1), 70, 71).unwrap();
    assert_eq!(r.1, 1);
    assert_eq!(r.0.target, TargetRef::Entity(70));
    assert_eq!(r.0.translation_bias, v(0, 0, 2_000));
    let r = music_event(MusicEvent(GameState::Sing, 5), 70, 71).unwrap();
    assert_eq!(r.1, 2);
    assert_eq!(r.0.target, TargetRef::Entity(71));
    assert!(music_event(MusicEvent(GameState::Sing, 0), 70, 71).is_none());
    assert!(music_event(MusicEvent(GameState::Portal, 2), 70, 71).is_none());
}

/// Pairing men with girls: a stop behind her, a stop at her right side, and
/// the watching camera rises above the square.
#[test]
fn men_pair_and_walk_in() {
    let menv = vec![31u64];
    let girls = vec![(41u64, v(4_000, 0, 0), v(1_000, 0, 0))];
    let (paths, cam, state) = men::enter_moving(&menv, &girls);
    assert_eq!(state, men::MenState::Moving);
    assert_eq!(cam.target, TargetRef::Position(v(0, 20_000, 0)));
    assert_eq!(cam.direction, Some(v(0, 1_000, 0)));
    let (man, pair, path) = &paths[0];
    assert_eq!(*man, 31);
    assert_eq!(*pair, men::Pair(41));
    // ten units behind her along her facing, then one unit to her right
    assert_eq!(path.points[0].pos, v(4_000 - 10_000, 0, 0));
    assert_eq!(path.points[1].pos, v(4_000, 0, 1_000));
    assert_eq!(path.finish_animation, 0);
    assert_eq!(path.finish_look_at, v(4_000, 0, 0));
}

/// The take-off: both paths climb the lift line, heights fixed per stop, the
/// start staggered one second per pair already queued.
#[test]
fn takeoff_climbs_the_lift_line() {
    let lifts = vec![v(40_000, 0, 40_000)];
    let (man_path, girl_path, start) = men::takeoff(&lifts, v(1_000, 0, 0), 3, 10_000);
    assert_eq!(start, 13_000);
    assert_eq!(man_path.points.len(), 4);
    assert_eq!(girl_path.points.len(), 4);
    assert_eq!(man_path.points[1].pos.y, 7_000);
    assert_eq!(man_path.points[2].pos.y, 6_500);
    assert_eq!(man_path.points[3].pos.y, 200_000);
    assert_eq!(man_path.points[0].animation_index, Some(4));
    assert_eq!(man_path.points[3].animation_index, Some(1));
    assert_eq!(girl_path.points[0].animation_index, Some(5));
    assert_eq!(girl_path.points[3].animation_index, Some(12));
    assert_eq!(man_path.finish_animation, 2);
    assert_eq!(girl_path.finish_animation, 2);
    // the lift line runs diagonally: both x and z advance together
    let p0 = man_path.points[0].pos;
    assert_eq!(p0.x, p0.z);
    assert!(p0.x > 0);
}

/// The first man to meet his girl swings the camera and tips the story into
/// the take-off, exactly once.
#[test]
fn first_man_latch() {
    let r = men::first_man_cue(false, 31).unwrap();
    assert_eq!(r.1, GameState::TakeOff);
    assert_eq!((r.0).1, 0);
    assert_eq!((r.0).0.target, TargetRef::Entity(31));
    assert!(men::first_man_cue(true, 31).is_none());
}

/// The camera swings to the side only once a man has risen above it, and only
/// once.
#[test]
fn cam_rotate_latch() {
    assert!(men::cam_rotate(&vec![30_000], 20_000, false).is_none());
    let r = men::cam_rotate(&vec![30_000, 10_000], 20_000, false).unwrap();
    assert_eq!(r.1, 0);
    assert!(men::cam_rotate(&vec![10_000], 20_000, true).is_none());
}

/// The leader's scenes: the speak framing, the sing split, the finale.
#[test]
fn leader_scenes() {
    let speak = leader::enter_speak(50);
    assert_eq!(speak.1, 0);
    assert_eq!(speak.0.target, TargetRef::Entity(50));
    assert_eq!(speak.0.translation_bias, v(2_000, 5_000, 10_000));

    let cue = leader::music_event(MusicEvent(GameState::Portal, 1), 50).unwrap();
    assert_eq!(cue.0.velocity, 300);
    assert!(leader::music_event(MusicEvent(GameState::Portal, 2), 50).is_none());

    let sing = leader::enter_sing(50);
    assert_eq!(sing.0.len(), 3);
    assert_eq!(sing.0[0].1.size, (500, 1_000));
    assert_eq!(sing.0[2].0.translation_bias, v(-5_000, 3_000, 0));

    let (conf, paths) = leader::enter_finish(1, 2, 3);
    assert_eq!(conf.0.len(), 4);
    assert_eq!(conf.0[3].0.target, TargetRef::Position(v(0, 0, 0)));
    assert_eq!(paths.len(), 3);
    assert_eq!(paths[0].1.points[0].pos, v(89_000, 50_500, -9_700));
    assert_eq!(paths[2].1.points[0].pos, v(89_250, 50_500, -11_700));
    assert_eq!(paths[2].1.finish_animation, 9);

    assert!(leader::finish(&vec![MoveEvent::PathDone(3)], 3));
    assert!(!leader::finish(&vec![MoveEvent::PathDone(2)], 3));
    assert!(!leader::finish(&vec![MoveEvent::WaypointReached(3)], 3));

    let last = leader::super_finish(3);
    assert_eq!(last.0.translation_bias, v(0, 1_000, -6_000));
    assert_eq!(last.0.rotation_bias, v(0, 2_000, 0));
}

/// The intro: the split layout, the scripted exchange firing each line once,
/// to its speaker, in time order.
#[test]
fn intro_dialogue_fires_each_line_once() {
    let (conf, mut dialogue) = intro::enter_intro(1, 2, 1_000);
    assert_eq!(conf.0.len(), 3);
    assert_eq!(conf.0[2].0.velocity, 500);
    assert_eq!(dialogue.0.len(), 11);
    // nothing due yet
    assert_eq!(dialogue.next_line(4_000, AnimationKey::Director), None);
    // the first two of the director's lines, in order, each exactly once
    assert_eq!(dialogue.next_line(7_500, AnimationKey::Director), Some("Ok.."));
    assert_eq!(
        dialogue.next_line(7_500, AnimationKey::Director),
        Some("There is no rain in the forecast?")
    );
    assert_eq!(dialogue.next_line(7_500, AnimationKey::Director), None);
    // the red girl's first answer is due too, and only hers
    assert_eq!(dialogue.next_line(8_200, AnimationKey::RedGirl), Some("No"));
    assert_eq!(dialogue.next_line(8_200, AnimationKey::RedGirl), None);
}

/// The portal sends the red girl straight up, facing the origin.
#[test]
fn portal_sends_red_girl_up() {
    let (cam, path) = intro::enter_portal(2, v(40_000, 6_000, 40_000));
    assert_eq!(cam.1, 0);
    assert_eq!(cam.0.velocity, 5_000);
    assert_eq!(path.points.len(), 1);
    assert_eq!(path.points[0].pos, v(40_000, 100_000, 40_000));
    let look = path.points[0].look_to.unwrap();
    assert!(look.x < 0 && look.y < 0 && look.z < 0);
    assert_eq!(path.finish_look_at, v(0, 0, 0));
}

/// The intro's portal beats: the director turns on the first, the camera
/// walks the square on the rest.
#[test]
fn intro_portal_beats() {
    let quiet = intro::music_event(MusicEvent(GameState::Portal, 2), 1);
    assert!(quiet.camera.is_none() && !quiet.director_turn);
    let turn = intro::music_event(MusicEvent(GameState::Portal, 4), 1);
    assert!(turn.director_turn);
    assert_eq!(turn.director_animation, Some(1));
    let far = intro::music_event(MusicEvent(GameState::Portal, 6), 1);
    let cam = far.camera.unwrap();
    assert_eq!(cam.0.target, TargetRef::Position(v(100_000, 5_000, 0)));
    assert_eq!(cam.0.velocity, 2_000);
    let down = intro::music_event(MusicEvent(GameState::Portal, 8), 1);
    assert_eq!(down.camera.unwrap().0.direction, Some(v(0, -1_000, 0)));
    let other = intro::music_event(MusicEvent(GameState::Sing, 4), 1);
    assert!(other.camera.is_none());
}

/// The narrative machine: explicit transitions, last write wins, applied
/// between ticks.
#[test]
fn narrative_last_write_wins() {
    let mut n = Narrative::new();
    assert_eq!(n.current, GameState::Loading);
    assert_eq!(n.apply(), None);
    n.set(GameState::Intro);
    n.set(GameState::Thunder);
    assert_eq!(n.apply(), Some((GameState::Loading, GameState::Thunder)));
    assert_eq!(n.current, GameState::Thunder);
    assert_eq!(n.apply(), None);
}

/// Loading ends when nothing is left to wait for.
#[test]
fn loading_ends_when_ready() {
    assert_eq!(check_ready(2), None);
    assert_eq!(check_ready(0), Some(GameState::Intro));
}

/// The lift screws start spinning on the portal and keep their state
/// otherwise.
#[test]
fn screws_spin_from_portal_on() {
    assert_eq!(screws_on_enter(GameState::Portal, ScrewState::Idle), ScrewState::Moving);
    assert_eq!(screws_on_enter(GameState::Sing, ScrewState::Moving), ScrewState::Moving);
    assert_eq!(screws_on_enter(GameState::Sing, ScrewState::Idle), ScrewState::Idle);
}

/// Random placement jitters only the ground plane, within the quantum; a zero
/// quantum moves nothing at all.
#[test]
fn random_pos_stays_in_quantum() {
    let base = v(0, 50_000, 0);
    assert_eq!(random_pos(base, 0), base);
    for _ in 0..50 {
        let p = random_pos(base, 5_000);
        assert!((-5_000..=5_000).contains(&p.x));
        assert_eq!(p.y, 50_000);
        assert!((-5_000..=5_000).contains(&p.z));
    }
}

/// The base descriptor the builders start from: easing on, default rate.
#[test]
fn camera_target_builders() {
    let t = CameraTarget::from_entity(8);
    assert!(t.easing);
    assert_eq!(t.velocity, 5_000);
    assert_eq!(t.translation_bias, v(0, 0, 0));
    let t = t.with_velocity(200).with_easing(false);
    assert_eq!(t.velocity, 200);
    assert!(!t.easing);
    let mut t = CameraTarget::from_position(v(1, 2, 3));
    t.set_position(v(4, 5, 6));
    assert_eq!(t.target, TargetRef::Position(v(4, 5, 6)));
    t.set_direction(v(0, 0, 1_000));
    assert_eq!(t.direction, Some(v(0, 0, 1_000)));
}
