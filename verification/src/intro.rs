//! The intro scene: the director and the red girl on a split screen running
//! through their scripted exchange, and the portal beats that follow, sending
//! the red girl up and walking the camera across the set.

use vstd::prelude::*;

verus! {

use crate::camera::{CameraSplitConf, ViewportGeom};
use crate::camera_target::{CameraTarget, SetCameraTarget, TargetRef};
use crate::geom::{unit_dir, unit_dir_spec, Vec3i, POS_LIMIT};
use crate::movement::{EntityId, MovementPath};
use crate::music::MusicEvent;
use crate::narrative::GameState;

/// Which animation set an actor plays from; the dialogue also keys its
/// speakers by it.
#[derive(Clone, Copy, Debug, PartialEq, Eq, Hash, Structural)]
pub enum AnimationKey {
    Girl,
    Director,
    RedGirl,
    Man,
}

/// One line of the scripted exchange: its absolute time, its speaker, the
/// words, and the irreversible shown flag.
#[derive(Clone, Copy, Debug)]
pub struct DialogueLine {
    pub shown: bool,
    pub at: u64,
    pub speaker: AnimationKey,
    pub text: &'static str,
}

/// The scripted exchange, in order.
#[derive(Debug)]
pub struct Dialogue(pub Vec<DialogueLine>);

/// Index of the first line not yet shown whose speaker matches and whose time
/// has come.
pub open spec fn first_due(lines: Seq<DialogueLine>, elapsed: u64, speaker: AnimationKey) -> Option<
    int,
>
    decreases lines.len(),
{
    if lines.len() == 0 {
        None
    } else if !lines[0].shown && lines[0].speaker == speaker && elapsed >= lines[0].at {
        Some(0)
    } else {
        match first_due(lines.drop_first(), elapsed, speaker) {
            Some(i) => Some(i + 1),
            None => None,
        }
    }
}

proof fn lemma_first_due_found(lines: Seq<DialogueLine>, elapsed: u64, speaker: AnimationKey, i: int)
    requires
        0 <= i < lines.len(),
        !lines[i].shown && lines[i].speaker == speaker && elapsed >= lines[i].at,
        forall|j: int|
            0 <= j < i ==> !(!(#[trigger] lines[j]).shown && lines[j].speaker == speaker && elapsed
                >= lines[j].at),
    ensures
        first_due(lines, elapsed, speaker) == Some(i),
    decreases i,
{
    if i > 0 {
        assert(forall|j: int|
            0 <= j < i - 1 ==> !(!(#[trigger] lines.drop_first()[j]).shown
                && lines.drop_first()[j].speaker == speaker && elapsed
                >= lines.drop_first()[j].at));
        lemma_first_due_found(lines.drop_first(), elapsed, speaker, i - 1);
    }
}

proof fn lemma_first_due_none(lines: Seq<DialogueLine>, elapsed: u64, speaker: AnimationKey)
    requires
        forall|j: int|
            0 <= j < lines.len() ==> !(!(#[trigger] lines[j]).shown && lines[j].speaker == speaker
                && elapsed >= lines[j].at),
    ensures
        first_due(lines, elapsed, speaker) is None,
    decreases lines.len(),
{
    if lines.len() > 0 {
        assert(forall|j: int|
            0 <= j < lines.len() - 1 ==> !(!(#[trigger] lines.drop_first()[j]).shown
                && lines.drop_first()[j].speaker == speaker && elapsed
                >= lines.drop_first()[j].at));
        lemma_first_due_none(lines.drop_first(), elapsed, speaker);
    }
}

impl Dialogue {
    /// Hand a speaker their next due line, at most once per line: the first
    /// line of theirs whose time has come and that has not been shown is
    /// marked shown irreversibly and its words are returned.
    pub fn next_line(&mut self, elapsed: u64, speaker: AnimationKey) -> (line: Option<
        &'static str,
    >)
        ensures
            match first_due(old(self).0@, elapsed, speaker) {
                Some(i) => final(self).0@ == old(self).0@.update(
                    i,
                    (DialogueLine { shown: true, ..old(self).0@[i] }),
                ) && line == Some(old(self).0@[i].text),
                None => final(self).0@ == old(self).0@ && line is None,
            },
    {
        let mut i: usize = 0;
        while i < self.0.len()
            invariant
                i <= self.0@.len(),
                self.0@ == old(self).0@,
                forall|j: int|
                    0 <= j < i ==> !(!(#[trigger] self.0@[j]).shown && self.0@[j].speaker == speaker
                        && elapsed >= self.0@[j].at),
            decreases self.0@.len() - i,
        {
            let ln = self.0[i];
            if !ln.shown && ln.speaker == speaker && elapsed >= ln.at {
                proof {
                    lemma_first_due_found(self.0@, elapsed, speaker, i as int);
                }
                self.0.set(i, DialogueLine { shown: true, at: ln.at, speaker: ln.speaker, text: ln.text });
                return Some(ln.text);
            }
            i = i + 1;
        }
        proof {
            lemma_first_due_none(self.0@, elapsed, speaker);
        }
        None
    }
}

/// The intro's scripted exchange, relative to the moment the intro starts.
pub open spec fn intro_script_spec(start: u64) -> Seq<(u64, AnimationKey)> {
    seq![
        ((start + 4_000) as u64, AnimationKey::Director),
        ((start + 6_000) as u64, AnimationKey::Director),
        ((start + 7_000) as u64, AnimationKey::RedGirl),
        ((start + 8_000) as u64, AnimationKey::Director),
        ((start + 9_000) as u64, AnimationKey::RedGirl),
        ((start + 10_000) as u64, AnimationKey::Director),
        ((start + 11_000) as u64, AnimationKey::RedGirl),
        ((start + 12_000) as u64, AnimationKey::Director),
        ((start + 13_000) as u64, AnimationKey::RedGirl),
        ((start + 14_000) as u64, AnimationKey::Director),
        ((start + 14_200) as u64, AnimationKey::RedGirl),
    ]
}

/// The dialogue of the intro, none of it shown yet.
pub fn intro_dialogue(start: u64) -> (d: Dialogue)
    requires
        start <= 0x4000_0000_0000_0000,
    ensures
        d.0@.len() == intro_script_spec(start).len(),
        forall|i: int|
            0 <= i < d.0@.len() ==> !(#[trigger] d.0@[i]).shown && d.0@[i].at == intro_script_spec(
                start,
            )[i].0 && d.0@[i].speaker == intro_script_spec(start)[i].1,
{
    let mut lines: Vec<DialogueLine> = Vec::new();
    lines.push(
        DialogueLine {
            shown: false,
            at: start + 4_000,
            speaker: AnimationKey::Director,
            text: "Ok..",
        },
    );
    lines.push(
        DialogueLine {
            shown: false,
            at: start + 6_000,
            speaker: AnimationKey::Director,
            text: "There is no rain in the forecast?",
        },
    );
    lines.push(
        DialogueLine {
            shown: false,
            at: start + 7_000,
            speaker: AnimationKey::RedGirl,
            text: "No",
        },
    );
    lines.push(
        DialogueLine {
            shown: false,
            at: start + 8_000,
            speaker: AnimationKey::Director,
            text: "Girls on site?",
        },
    );
    lines.push(
        DialogueLine {
            shown: false,
            at: start + 9_000,
            speaker: AnimationKey::RedGirl,
            text: "Yup",
        },
    );
    lines.push(
        DialogueLine {
            shown: false,
            at: start + 10_000,
            speaker: AnimationKey::Director,
            text: "Are the propellers ready?",
        },
    );
    lines.push(
        DialogueLine {
            shown: false,
            at: start + 11_000,
            speaker: AnimationKey::RedGirl,
            text: "Sure",
        },
    );
    lines.push(
        DialogueLine {
            shown: false,
            at: start + 12_000,
            speaker: AnimationKey::Director,
            text: "By the way, be careful there, you might get carried away",
        },
    );
    lines.push(
        DialogueLine {
            shown: false,
            at: start + 13_000,
            speaker: AnimationKey::RedGirl,
            text: "Don't worry",
        },
    );
    lines.push(
        DialogueLine {
            shown: false,
            at: start + 14_000,
            speaker: AnimationKey::Director,
            text: "Let's  go!",
        },
    );
    lines.push(
        DialogueLine {
            shown: false,
            at: start + 14_200,
            speaker: AnimationKey::RedGirl,
            text: "Go!",
        },
    );
    Dialogue(lines)
}

/// On entering the intro: a three-way split (a close-up per principal and a
/// slow wide shot), and the scripted exchange armed relative to now.
pub fn enter_intro(director: EntityId, red_girl: EntityId, now: u64) -> (r: (
    CameraSplitConf,
    Dialogue,
))
    requires
        now <= 0x4000_0000_0000_0000,
    ensures
        r.0.0@.len() == 3,
        r.0.0@[0] == ((CameraTarget {
            translation_bias: Vec3i { x: 500, y: 3_000, z: 2_000 },
            rotation_bias: Vec3i { x: 0, y: 1_000, z: 0 },
            ..CameraTarget::base_spec(TargetRef::Entity(director))
        }), (ViewportGeom { start: (0, 0), size: (500, 500) })),
        r.0.0@[1] == ((CameraTarget {
            translation_bias: Vec3i { x: -1_000i64, y: 2_000, z: 8_000 },
            rotation_bias: Vec3i { x: 0, y: 1_000, z: 0 },
            ..CameraTarget::base_spec(TargetRef::Entity(red_girl))
        }), (ViewportGeom { start: (500, 0), size: (500, 500) })),
        r.0.0@[2] == ((CameraTarget {
            direction: Some(Vec3i { x: 0, y: 0, z: 1_000 }),
            velocity: 500,
            ..CameraTarget::base_spec(TargetRef::Position(Vec3i { x: 0, y: 3_000, z: 22_000 }))
        }), (ViewportGeom { start: (0, 500), size: (1000, 500) })),
        r.1.0@.len() == intro_script_spec(now).len(),
        forall|i: int|
            0 <= i < r.1.0@.len() ==> !(#[trigger] r.1.0@[i]).shown && r.1.0@[i].at
                == intro_script_spec(now)[i].0 && r.1.0@[i].speaker == intro_script_spec(now)[i].1,
{
    let mut entries: Vec<(CameraTarget, ViewportGeom)> = Vec::new();
    entries.push(
        (
            CameraTarget::from_entity(director).with_translation_bias(
                Vec3i { x: 500, y: 3_000, z: 2_000 },
            ).with_rotation_bias(Vec3i { x: 0, y: 1_000, z: 0 }),
            ViewportGeom { start: (0, 0), size: (500, 500) },
        ),
    );
    entries.push(
        (
            CameraTarget::from_entity(red_girl).with_translation_bias(
                Vec3i { x: -1_000, y: 2_000, z: 8_000 },
            ).with_rotation_bias(Vec3i { x: 0, y: 1_000, z: 0 }),
            ViewportGeom { start: (500, 0), size: (500, 500) },
        ),
    );
    entries.push(
        (
            CameraTarget::from_position(Vec3i { x: 0, y: 3_000, z: 22_000 }).with_direction(
                Vec3i { x: 0, y: 0, z: 1_000 },
            ).with_velocity(500),
            ViewportGeom { start: (0, 500), size: (1000, 500) },
        ),
    );
    (CameraSplitConf(entries), intro_dialogue(now))
}

/// Once the portal opens (and the split has torn down), the red girl rises
/// straight up, facing the origin, while the camera tracks her from behind.
pub fn enter_portal(red_girl: EntityId, red_pos: Vec3i) -> (r: (SetCameraTarget, MovementPath))
    requires
        red_pos.in_bounds(),
    ensures
        r.0 == (SetCameraTarget(
            (CameraTarget {
                translation_bias: Vec3i { x: -10_000i64, y: 10_000, z: 5_000 },
                velocity: 5_000,
                ..CameraTarget::base_spec(TargetRef::Entity(red_girl))
            }),
            0,
        )),
        r.1@.points =~= seq![
            crate::movement::PathElement {
                pos: Vec3i { x: red_pos.x, y: 100_000, z: red_pos.z },
                velocity: 5_000,
                animation_index: Some(3usize),
                look_to: Some(
                    unit_dir_spec(
                        Vec3i { x: (-red_pos.x) as i64, y: (-red_pos.y) as i64, z: (-red_pos.z) as i64 },
                    ),
                ),
            },
        ],
        r.1@.finish_animation == 0,
        r.1@.finish_look_at == (Vec3i { x: 0, y: 0, z: 0 }),
        r.1@.attach_wf(),
{
    let cam = SetCameraTarget(
        CameraTarget::from_entity(red_girl).with_translation_bias(
            Vec3i { x: -10_000, y: 10_000, z: 5_000 },
        ).with_velocity(5_000),
        0,
    );
    let dir = unit_dir(red_pos.neg());
    let tuples: Vec<(Vec3i, i64, Option<usize>, Option<Vec3i>)> = vec![
        (Vec3i { x: red_pos.x, y: 100_000, z: red_pos.z }, 5_000i64, Some(3usize), Some(dir)),
    ];
    let path = MovementPath::new(&tuples, 0, Vec3i { x: 0, y: 0, z: 0 });
    proof {
        assert(path@.points =~= seq![path@.points[0]]);
        assert(path@.attach_wf());
    }
    (cam, path)
}

/// What an intro-scene portal beat does: a camera cue, and on the first of
/// them the director turns on his heel and changes stance.
#[derive(Clone, Copy, Debug)]
pub struct IntroCue {
    pub camera: Option<SetCameraTarget>,
    pub director_turn: bool,
    pub director_animation: Option<usize>,
}

/// The portal beats seen from the intro set: the director reacts first, then
/// the camera walks across the square, climbs, and finally looks straight
/// down.
pub fn music_event(ev: MusicEvent, director: EntityId) -> (r: IntroCue)
    ensures
        !(ev.0 is Portal && ev.1 >= 4) ==> r == (IntroCue {
            camera: None::<SetCameraTarget>,
            director_turn: false,
            director_animation: None::<usize>,
        }),
        ev.0 is Portal && ev.1 == 4 ==> r == (IntroCue {
            camera: Some(
                SetCameraTarget(
                    (CameraTarget {
                        translation_bias: Vec3i { x: 1_000, y: 10_000, z: -8_000i64 },
                        ..CameraTarget::base_spec(TargetRef::Entity(director))
                    }),
                    0,
                ),
            ),
            director_turn: true,
            director_animation: Some(1usize),
        }),
        ev.0 is Portal && ev.1 == 5 ==> r == (IntroCue {
            camera: Some(
                SetCameraTarget(
                    (CameraTarget {
                        direction: Some(Vec3i { x: 0, y: 0, z: -1_000i64 }),
                        velocity: 400,
                        ..CameraTarget::base_spec(
                            TargetRef::Position(Vec3i { x: 0, y: 5_000, z: 40_000 }),
                        )
                    }),
                    0,
                ),
            ),
            director_turn: false,
            director_animation: None::<usize>,
        }),
        ev.0 is Portal && ev.1 == 6 ==> r == (IntroCue {
            camera: Some(
                SetCameraTarget(
                    (CameraTarget {
                        direction: Some(Vec3i { x: -1_000i64, y: 0, z: 0 }),
                        velocity: 2_000,
                        ..CameraTarget::base_spec(
                            TargetRef::Position(Vec3i { x: 100_000, y: 5_000, z: 0 }),
                        )
                    }),
                    0,
                ),
            ),
            director_turn: false,
            director_animation: None::<usize>,
        }),
        ev.0 is Portal && ev.1 == 7 ==> r == (IntroCue {
            camera: Some(
                SetCameraTarget(
                    (CameraTarget {
                        direction: Some(Vec3i { x: -1_000i64, y: 0, z: 0 }),
                        ..CameraTarget::base_spec(
                            TargetRef::Position(Vec3i { x: 100_000, y: 80_000, z: 0 }),
                        )
                    }),
                    0,
                ),
            ),
            director_turn: false,
            director_animation: None::<usize>,
        }),
        ev.0 is Portal && ev.1 >= 8 ==> r == (IntroCue {
            camera: Some(
                SetCameraTarget(
                    (CameraTarget {
                        direction: Some(Vec3i { x: 0, y: -1_000i64, z: 0 }),
                        ..CameraTarget::base_spec(
                            TargetRef::Position(Vec3i { x: 0, y: 50_000, z: 0 }),
                        )
                    }),
                    0,
                ),
            ),
            director_turn: false,
            director_animation: None::<usize>,
        }),
{
    let quiet = IntroCue { camera: None, director_turn: false, director_animation: None };
    match ev.0 {
        GameState::Portal => {
            if ev.1 < 4 {
                quiet
            } else if ev.1 == 4 {
                IntroCue {
                    camera: Some(
                        SetCameraTarget(
                            CameraTarget::from_entity(director).with_translation_bias(
                                Vec3i { x: 1_000, y: 10_000, z: -8_000 },
                            ),
                            0,
                        ),
                    ),
                    director_turn: true,
                    director_animation: Some(1),
                }
            } else if ev.1 == 5 {
                IntroCue {
                    camera: Some(
                        SetCameraTarget(
                            CameraTarget::from_position(
                                Vec3i { x: 0, y: 5_000, z: 40_000 },
                            ).with_direction(Vec3i { x: 0, y: 0, z: -1_000 }).with_velocity(400),
                            0,
                        ),
                    ),
                    director_turn: false,
                    director_animation: None,
                }
            } else if ev.1 == 6 {
                IntroCue {
                    camera: Some(
                        SetCameraTarget(
                            CameraTarget::from_position(
                                Vec3i { x: 100_000, y: 5_000, z: 0 },
                            ).with_direction(Vec3i { x: -1_000, y: 0, z: 0 }).with_velocity(2_000),
                            0,
                        ),
                    ),
                    director_turn: false,
                    director_animation: None,
                }
            } else if ev.1 == 7 {
                IntroCue {
                    camera: Some(
                        SetCameraTarget(
                            CameraTarget::from_position(
                                Vec3i { x: 100_000, y: 80_000, z: 0 },
                            ).with_direction(Vec3i { x: -1_000, y: 0, z: 0 }),
                            0,
                        ),
                    ),
                    director_turn: false,
                    director_animation: None,
                }
            } else {
                IntroCue {
                    camera: Some(
                        SetCameraTarget(
                            CameraTarget::from_position(
                                Vec3i { x: 0, y: 50_000, z: 0 },
                            ).with_direction(Vec3i { x: 0, y: -1_000, z: 0 }),
                            0,
                        ),
                    ),
                    director_turn: false,
                    director_animation: None,
                }
            }
        },
        _ => quiet,
    }
}

} // verus!
