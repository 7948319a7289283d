use choreo::camera::{main_camera, scale, set_camera_viewports, split, unsplit, CameraSplitConf,
    CameraState, ViewportGeom};
use choreo::camera_target::{
    follow, follow_camera, set_target, CameraRig, CameraTarget, SetCameraTarget, TargetRef,
};
use choreo::geom::Vec3i;
use choreo::movement::{CurrentAnimation, Mover};

fn v(x: i64, y: i64, z: i64) -> Vec3i {
    Vec3i { x, y, z }
}

fn rig(order: isize, target: Option<CameraTarget>) -> CameraRig {
    CameraRig { order, position: v(0, 0, 0), facing: v(0, 0, -1_000), target }
}

/// Scenario: a targeting request to one slot replaces only that camera's
/// descriptor; the other slot keeps its own.
#[test]
fn request_changes_only_named_slot() {
    let t0 = CameraTarget::from_position(v(1_000, 0, 0));
    let t1 = CameraTarget::from_position(v(2_000, 0, 0));
    let mut cams = vec![rig(0, Some(t0)), rig(1, Some(t1))];
    let newt = CameraTarget::from_position(v(9_000, 0, 0)).with_easing(false);
    set_target(&mut cams, SetCameraTarget(newt, 1));
    assert_eq!(cams[0].target, Some(t0));
    assert_eq!(cams[1].target, Some(newt));
    // a request naming a slot no camera has changes nothing
    set_target(&mut cams, SetCameraTarget(newt, 7));
    assert_eq!(cams[0].target, Some(t0));
    assert_eq!(cams[1].target, Some(newt));
}

/// With easing on, the camera's distance to a fixed goal never increases and
/// the camera never passes the goal.
#[test]
fn easing_never_overshoots() {
    let mut cam = rig(0, Some(CameraTarget::from_position(v(10_000, 0, 0))));
    let movers: Vec<Mover> = Vec::new();
    let mut last = (10_000i128) * 10_000;
    for _ in 0..100 {
        follow_camera(&mut cam, &movers, 16);
        let d = (10_000 - cam.position.x) as i128;
        assert!(cam.position.x <= 10_000);
        assert!(d * d <= last);
        last = d * d;
    }
}

/// With easing off, the camera moves at constant speed and may overshoot.
#[test]
fn dash_can_overshoot() {
    let t = CameraTarget::from_position(v(10_000, 0, 0)).with_easing(false);
    let mut cam = rig(0, Some(t));
    let movers: Vec<Mover> = Vec::new();
    // velocity 5 units/s, dash factor 100: 50 units in one 100 ms tick
    follow_camera(&mut cam, &movers, 100);
    assert_eq!(cam.position, v(50_000, 0, 0));
}

/// Following an entity resolves the bias in the entity's local axes and the
/// camera settles exactly on the resolved goal when the rate saturates.
#[test]
fn entity_follow_uses_local_frame() {
    let mover = Mover::spawn(
        42,
        v(5_000, 0, 0),
        v(1_000, 0, 0),
        CurrentAnimation { index: 0, player: 1 },
    );
    let movers = vec![mover];
    let t = CameraTarget::from_entity(42)
        .with_translation_bias(v(0, 0, 2_000))
        .with_velocity(2_000);
    let mut cam = rig(0, Some(t));
    follow_camera(&mut cam, &movers, 1_000);
    // two units along the entity's forward axis (east): goal (7, 0, 0) units
    assert_eq!(cam.position, v(7_000, 0, 0));
    // aim point is the entity itself, west of the camera
    assert_eq!(cam.facing, v(-1_000, 0, 0));
}

/// A stale entity reference skips the camera for the tick.
#[test]
fn stale_target_is_skipped() {
    let movers: Vec<Mover> = Vec::new();
    let mut cam = rig(0, Some(CameraTarget::from_entity(99)));
    let before = cam.position;
    follow_camera(&mut cam, &movers, 100);
    assert_eq!(cam.position, before);
}

/// A camera with no descriptor does not move.
#[test]
fn no_target_no_motion() {
    let mut cams = vec![rig(0, None)];
    let movers: Vec<Mover> = Vec::new();
    follow(&mut cams, &movers, 100);
    assert_eq!(cams[0].position, v(0, 0, 0));
    assert_eq!(cams[0].facing, v(0, 0, -1_000));
}

/// A split builds one camera per entry, orders following the entry index, and
/// an unsplit brings the single main camera back.
#[test]
fn split_and_unsplit_roundtrip() {
    let t0 = CameraTarget::from_position(v(0, 0, 0));
    let t1 = CameraTarget::from_entity(5);
    let conf = CameraSplitConf(vec![
        (t0, ViewportGeom { start: (0, 0), size: (500, 1000) }),
        (t1, ViewportGeom { start: (500, 0), size: (500, 1000) }),
    ]);
    let mut cams = vec![main_camera()];
    let (state, viewports) = split(&mut cams, &conf, CameraState::Single);
    assert_eq!(state, CameraState::Splitted);
    assert_eq!(cams.len(), 2);
    assert_eq!(cams[0].order, 0);
    assert_eq!(cams[1].order, 1);
    assert_eq!(cams[0].target, Some(t0));
    assert_eq!(cams[1].target, Some(t1));
    assert_eq!(viewports.len(), 2);
    assert_eq!(viewports[1], ViewportGeom { start: (500, 0), size: (500, 1000) });

    let state = unsplit(&mut cams, state);
    assert_eq!(state, CameraState::Single);
    assert_eq!(cams.len(), 1);
    assert_eq!(cams[0].position, v(0, 50_000, 50_000));
    assert_eq!(cams[0].facing, v(0, -50_000, -50_000));
}

/// Viewport rectangles are the window size scaled by the permille fractions,
/// truncated to whole pixels.
#[test]
fn viewports_scale_exactly() {
    let g = ViewportGeom { start: (500, 0), size: (500, 1000) };
    let vp = scale((1_920, 1_080), g);
    assert_eq!(vp.pos, (960, 0));
    assert_eq!(vp.size, (960, 1_080));
    // truncation, never rounding up
    let g = ViewportGeom { start: (0, 0), size: (333, 333) };
    let vp = scale((1_001, 101), g);
    assert_eq!(vp.size, ((1_001 * 333) / 1000, (101 * 333) / 1000));
    let rects = set_camera_viewports(&vec![g], (1_001, 101));
    assert_eq!(rects[0].size, (333, 33));
}
