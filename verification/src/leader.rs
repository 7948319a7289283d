//! The leader's scenes: the spotlight speech, the three-way split while she
//! sings, and the finale where the director, the red girl and the leader meet
//! high above the square.

use vstd::prelude::*;

verus! {

use crate::camera::{CameraSplitConf, ViewportGeom};
use crate::camera_target::{CameraTarget, SetCameraTarget, TargetRef};
use crate::geom::Vec3i;
use crate::girls::GIRL_VELOCITY;
use crate::movement::{EntityId, MoveEvent, MovementPath};
use crate::music::MusicEvent;

/// On entering the speak phase the camera frames the leader from the front
/// right.  (Her spotlight also brightens; lighting stays with the host.)
pub fn enter_speak(leader: EntityId) -> (r: SetCameraTarget)
    ensures
        r == (SetCameraTarget(
            (CameraTarget {
                translation_bias: Vec3i { x: 2_000, y: 5_000, z: 10_000 },
                ..CameraTarget::base_spec(TargetRef::Entity(leader))
            }),
            0,
        )),
{
    SetCameraTarget(
        CameraTarget::from_entity(leader).with_translation_bias(
            Vec3i { x: 2_000, y: 5_000, z: 10_000 },
        ),
        0,
    )
}

/// The camera cue of the leader's portal beats: the first beat pulls the
/// camera slowly onto her; the later beats only change her spotlight, which
/// stays with the host.
pub fn music_event(ev: MusicEvent, leader: EntityId) -> (r: Option<SetCameraTarget>)
    ensures
        r == if ev.0 is Portal && ev.1 == 1 {
            Some(
                SetCameraTarget(
                    (CameraTarget {
                        translation_bias: Vec3i { x: 0, y: 5_000, z: 10_000 },
                        velocity: 300,
                        ..CameraTarget::base_spec(TargetRef::Entity(leader))
                    }),
                    0,
                ),
            )
        } else {
            None::<SetCameraTarget>
        },
{
    match ev.0 {
        crate::narrative::GameState::Portal => {
            if ev.1 == 1 {
                Some(
                    SetCameraTarget(
                        CameraTarget::from_entity(leader).with_translation_bias(
                            Vec3i { x: 0, y: 5_000, z: 10_000 },
                        ).with_velocity(300),
                        0,
                    ),
                )
            } else {
                None
            }
        },
        _ => None,
    }
}

/// While the leader sings, the screen splits three ways, every viewport
/// following her: a tall front view and two stacked side views.
pub fn enter_sing(leader: EntityId) -> (conf: CameraSplitConf)
    ensures
        conf.0@.len() == 3,
        conf.0@[0] == ((CameraTarget {
            translation_bias: Vec3i { x: 0, y: 2_000, z: 5_000 },
            rotation_bias: Vec3i { x: 0, y: 1_000, z: 0 },
            ..CameraTarget::base_spec(TargetRef::Entity(leader))
        }), (ViewportGeom { start: (0, 0), size: (500, 1000) })),
        conf.0@[1] == ((CameraTarget {
            translation_bias: Vec3i { x: 5_000, y: 3_000, z: 0 },
            rotation_bias: Vec3i { x: 0, y: 1_000, z: 0 },
            ..CameraTarget::base_spec(TargetRef::Entity(leader))
        }), (ViewportGeom { start: (500, 0), size: (500, 500) })),
        conf.0@[2] == ((CameraTarget {
            translation_bias: Vec3i { x: -5_000i64, y: 3_000, z: 0 },
            rotation_bias: Vec3i { x: 0, y: 1_000, z: 0 },
            ..CameraTarget::base_spec(TargetRef::Entity(leader))
        }), (ViewportGeom { start: (500, 500), size: (500, 500) })),
{
    let ct = CameraTarget::from_entity(leader);
    let mut entries: Vec<(CameraTarget, ViewportGeom)> = Vec::new();
    entries.push(
        (
            ct.with_translation_bias(Vec3i { x: 0, y: 2_000, z: 5_000 }).with_rotation_bias(
                Vec3i { x: 0, y: 1_000, z: 0 },
            ),
            ViewportGeom { start: (0, 0), size: (500, 1000) },
        ),
    );
    entries.push(
        (
            ct.with_translation_bias(Vec3i { x: 5_000, y: 3_000, z: 0 }).with_rotation_bias(
                Vec3i { x: 0, y: 1_000, z: 0 },
            ),
            ViewportGeom { start: (500, 0), size: (500, 500) },
        ),
    );
    entries.push(
        (
            ct.with_translation_bias(Vec3i { x: -5_000, y: 3_000, z: 0 }).with_rotation_bias(
                Vec3i { x: 0, y: 1_000, z: 0 },
            ),
            ViewportGeom { start: (500, 500), size: (500, 500) },
        ),
    );
    CameraSplitConf(entries)
}

/// The point high above the square where the three principals meet for the
/// finale.
pub const MEET_X: i64 = 89_000;

pub const MEET_Y: i64 = 50_500;

pub const MEET_Z: i64 = -10_700;

/// The finale: a four-way split (one viewport per principal and a wide view),
/// and a path for each principal to the meeting point, all facing west when
/// they arrive.
pub fn enter_finish(director: EntityId, red_girl: EntityId, leader: EntityId) -> (r: (
    CameraSplitConf,
    Vec<(EntityId, MovementPath)>,
))
    ensures
        r.0.0@.len() == 4,
        r.0.0@[0] == ((CameraTarget {
            translation_bias: Vec3i { x: 10_000, y: 6_000, z: 1_000 },
            ..CameraTarget::base_spec(TargetRef::Entity(director))
        }), (ViewportGeom { start: (0, 0), size: (350, 500) })),
        r.0.0@[1] == ((CameraTarget {
            translation_bias: Vec3i { x: 10_000, y: 2_000, z: 1_000 },
            ..CameraTarget::base_spec(TargetRef::Entity(red_girl))
        }), (ViewportGeom { start: (350, 0), size: (300, 500) })),
        r.0.0@[2] == ((CameraTarget {
            translation_bias: Vec3i { x: 10_000, y: 10_000, z: 1_000 },
            ..CameraTarget::base_spec(TargetRef::Entity(leader))
        }), (ViewportGeom { start: (650, 0), size: (350, 500) })),
        r.0.0@[3] == ((CameraTarget {
            translation_bias: Vec3i { x: 50_000, y: 50_000, z: 50_000 },
            ..CameraTarget::base_spec(TargetRef::Position(Vec3i { x: 0, y: 0, z: 0 }))
        }), (ViewportGeom { start: (0, 500), size: (1000, 500) })),
        r.1@.len() == 3,
        ({
            let velo = 3 * GIRL_VELOCITY;
            let west = Vec3i { x: -1_000i64, y: 0, z: 0 };
            &&& r.1@[0].0 == director
            &&& r.1@[0].1@.points =~= seq![
                crate::movement::PathElement {
                    pos: Vec3i { x: MEET_X, y: MEET_Y, z: -9_700i64 },
                    velocity: velo as i64,
                    animation_index: Some(4usize),
                    look_to: None,
                },
            ]
            &&& r.1@[0].1@.finish_animation == 5
            &&& r.1@[0].1@.finish_look_at == west
            &&& r.1@[1].0 == red_girl
            &&& r.1@[1].1@.points =~= seq![
                crate::movement::PathElement {
                    pos: Vec3i { x: 89_250i64, y: MEET_Y, z: MEET_Z },
                    velocity: velo as i64,
                    animation_index: Some(3usize),
                    look_to: None,
                },
            ]
            &&& r.1@[1].1@.finish_animation == 5
            &&& r.1@[1].1@.finish_look_at == west
            &&& r.1@[2].0 == leader
            &&& r.1@[2].1@.points =~= seq![
                crate::movement::PathElement {
                    pos: Vec3i { x: 89_250i64, y: MEET_Y, z: -11_700i64 },
                    velocity: velo as i64,
                    animation_index: Some(12usize),
                    look_to: None,
                },
            ]
            &&& r.1@[2].1@.finish_animation == 9
            &&& r.1@[2].1@.finish_look_at == west
            &&& r.1@[0].1@.attach_wf()
            &&& r.1@[1].1@.attach_wf()
            &&& r.1@[2].1@.attach_wf()
        }),
{
    let mut entries: Vec<(CameraTarget, ViewportGeom)> = Vec::new();
    entries.push(
        (
            CameraTarget::from_entity(director).with_translation_bias(
                Vec3i { x: 10_000, y: 6_000, z: 1_000 },
            ),
            ViewportGeom { start: (0, 0), size: (350, 500) },
        ),
    );
    entries.push(
        (
            CameraTarget::from_entity(red_girl).with_translation_bias(
                Vec3i { x: 10_000, y: 2_000, z: 1_000 },
            ),
            ViewportGeom { start: (350, 0), size: (300, 500) },
        ),
    );
    entries.push(
        (
            CameraTarget::from_entity(leader).with_translation_bias(
                Vec3i { x: 10_000, y: 10_000, z: 1_000 },
            ),
            ViewportGeom { start: (650, 0), size: (350, 500) },
        ),
    );
    entries.push(
        (
            CameraTarget::from_position(Vec3i { x: 0, y: 0, z: 0 }).with_translation_bias(
                Vec3i { x: 50_000, y: 50_000, z: 50_000 },
            ),
            ViewportGeom { start: (0, 500), size: (1000, 500) },
        ),
    );
    let velo = 3 * GIRL_VELOCITY;
    let west = Vec3i { x: -1_000, y: 0, z: 0 };
    let mut paths: Vec<(EntityId, MovementPath)> = Vec::new();
    let d_tuples: Vec<(Vec3i, i64, Option<usize>, Option<Vec3i>)> = vec![
        (Vec3i { x: MEET_X, y: MEET_Y, z: MEET_Z + 1_000 }, velo, Some(4usize), None),
    ];
    paths.push((director, MovementPath::new(&d_tuples, 5, west)));
    let r_tuples: Vec<(Vec3i, i64, Option<usize>, Option<Vec3i>)> = vec![
        (Vec3i { x: MEET_X + 250, y: MEET_Y, z: MEET_Z }, velo, Some(3usize), None),
    ];
    paths.push((red_girl, MovementPath::new(&r_tuples, 5, west)));
    let l_tuples: Vec<(Vec3i, i64, Option<usize>, Option<Vec3i>)> = vec![
        (Vec3i { x: MEET_X + 250, y: MEET_Y, z: MEET_Z - 1_000 }, velo, Some(12usize), None),
    ];
    paths.push((leader, MovementPath::new(&l_tuples, 9, west)));
    (CameraSplitConf(entries), paths)
}

/// The finale's split tears down once the leader reaches the meeting point:
/// true when her path-completion event is among the queued events.
pub fn finish(events: &Vec<MoveEvent>, leader: EntityId) -> (done: bool)
    ensures
        done == events@.contains(MoveEvent::PathDone(leader)),
{
    let mut i: usize = 0;
    while i < events.len()
        invariant
            i <= events@.len(),
            forall|j: int| 0 <= j < i ==> events@[j] != MoveEvent::PathDone(leader),
        decreases events@.len() - i,
    {
        if events[i] == MoveEvent::PathDone(leader) {
            proof {
                assert(events@[i as int] == MoveEvent::PathDone(leader));
            }
            return true;
        }
        i = i + 1;
    }
    false
}

/// After the split tears down, the last shot: the camera settles behind the
/// leader, aimed over her head.
pub fn super_finish(leader: EntityId) -> (r: SetCameraTarget)
    ensures
        r == (SetCameraTarget(
            (CameraTarget {
                translation_bias: Vec3i { x: 0, y: 1_000, z: -6_000i64 },
                rotation_bias: Vec3i { x: 0, y: 2_000, z: 0 },
                ..CameraTarget::base_spec(TargetRef::Entity(leader))
            }),
            0,
        )),
{
    SetCameraTarget(
        CameraTarget::from_entity(leader).with_translation_bias(
            Vec3i { x: 0, y: 1_000, z: -6_000 },
        ).with_rotation_bias(Vec3i { x: 0, y: 2_000, z: 0 }),
        0,
    )
}

} // verus!
