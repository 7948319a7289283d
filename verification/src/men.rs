//! The men's choreography: pairing each man with a girl during the rain,
//! walking to her, and, once a pair has met, queuing both onto a lift for a
//! staggered take-off, with the camera latching onto the first man to meet.

use vstd::prelude::*;

verus! {

use crate::camera_target::{up_axis, CameraTarget, SetCameraTarget, TargetRef};
use crate::geom::{
    add_clamped, add_clamped_spec, cross, cross_spec, div_scale, div_scale_spec, scaled_spec,
    unit_dir, unit_dir_spec, Vec3i, SCALE,
};
use crate::girls::nearest_idx;
use crate::girls::nearest_point;
use crate::movement::{EntityId, MovementPath, PathElement};
use crate::narrative::GameState;
use crate::shared::rand_i64;

/// Whether the men are settled or following paths.
#[derive(Clone, Copy, Debug, PartialEq, Eq, Default, Structural)]
pub enum MenState {
    #[default]
    Idle,
    Moving,
}

/// The girl a man is paired with.
#[derive(Clone, Copy, Debug, PartialEq, Eq, Structural)]
pub struct Pair(pub EntityId);

/// Base walking speed of a man, in coordinate steps per second.
pub const MAN_VELOCITY: i64 = 2_000;

/// A point with its height replaced.
pub open spec fn with_y(v: Vec3i, y: i64) -> Vec3i {
    Vec3i { x: v.x, y, z: v.z }
}

/// A vector negated.
pub open spec fn neg_spec(v: Vec3i) -> Vec3i {
    Vec3i { x: (-v.x) as i64, y: (-v.y) as i64, z: (-v.z) as i64 }
}

/// The take-off choreography of one man-and-girl pair headed for a lift: the
/// waypoints both take, as functions of the lift position, the random crowd
/// spread `kb`, and the pair's parity (which side of the man the girl flies
/// on).  Both climb the lift line and rise to two hundred units.
pub open spec fn takeoff_plan(lift: Vec3i, kb: int, parity: int) -> (Seq<PathElement>, Seq<
    PathElement,
>) {
    let dir = unit_dir_spec(lift);
    let p0 = scaled_spec(dir, 25_500);
    let p1 = with_y(add_clamped_spec(p0, scaled_spec(dir, 16_000)), 7_000);
    let p2 = with_y(add_clamped_spec(p1, scaled_spec(dir, kb)), 6_500);
    let p3 = with_y(p2, 200_000);
    let ld = unit_dir_spec(neg_spec(p0));
    let shift = scaled_spec(
        div_scale_spec(cross_spec(dir, up_axis())),
        if parity == 0 {
            -2_000int
        } else {
            2_000int
        },
    );
    (
        seq![
            PathElement { pos: p0, velocity: MAN_VELOCITY, animation_index: Some(4), look_to: None },
            PathElement { pos: p1, velocity: MAN_VELOCITY, animation_index: None, look_to: None },
            PathElement { pos: p2, velocity: MAN_VELOCITY, animation_index: None, look_to: None },
            PathElement {
                pos: p3,
                velocity: MAN_VELOCITY,
                animation_index: Some(1),
                look_to: Some(neg_spec(ld)),
            },
        ],
        seq![
            PathElement {
                pos: add_clamped_spec(p0, shift),
                velocity: MAN_VELOCITY,
                animation_index: Some(5),
                look_to: None,
            },
            PathElement {
                pos: add_clamped_spec(p1, shift),
                velocity: MAN_VELOCITY,
                animation_index: None,
                look_to: None,
            },
            PathElement {
                pos: add_clamped_spec(p2, shift),
                velocity: MAN_VELOCITY,
                animation_index: None,
                look_to: None,
            },
            PathElement {
                pos: add_clamped_spec(p3, shift),
                velocity: MAN_VELOCITY,
                animation_index: Some(12),
                look_to: Some(ld),
            },
        ],
    )
}

/// Once a man reaches his girl, both are routed to the nearest lift and up:
/// his path and hers, gated behind a start time staggered one second per pair
/// already queued.
#[verifier::rlimit(100)]
pub fn takeoff(lifts: &Vec<Vec3i>, man_pos: Vec3i, count: usize, now: u64) -> (r: (
    MovementPath,
    MovementPath,
    u64,
))
    requires
        lifts@.len() > 0,
        forall|i: int| 0 <= i < lifts@.len() ==> (#[trigger] lifts@[i]).in_bounds(),
        man_pos.in_bounds(),
        count <= 1_000_000,
        now <= 0x4000_0000_0000_0000,
    ensures
        ({
            let lift = lifts@[nearest_idx(lifts@, man_pos)];
            &&& exists|kb: int, parity: int|
                2_000 <= kb < 6_000 && parity == count % 2 && r.0@.points == (
                #[trigger] takeoff_plan(lift, kb, parity)).0 && r.1@.points == takeoff_plan(
                    lift,
                    kb,
                    parity,
                ).1
            &&& r.0@.finish_animation == 2
            &&& r.0@.finish_look_at == (Vec3i { x: 1_000, y: 0, z: 0 })
            &&& r.1@.finish_animation == 2
            &&& r.1@.finish_look_at == (Vec3i { x: 0, y: 0, z: 0 })
            &&& r.0@.attach_wf()
            &&& r.1@.attach_wf()
            &&& r.2 == now + count * 1_000
        }),
{
    let li = nearest_point(lifts, man_pos);
    let lift = lifts[li];
    let dir = unit_dir(lift);
    let kb = rand_i64(2_000, 5_999);
    let p0 = dir.scaled_by(25_500);
    let p1r = add_clamped(p0, dir.scaled_by(16_000));
    let p1 = Vec3i { x: p1r.x, y: 7_000, z: p1r.z };
    let p2r = add_clamped(p1, dir.scaled_by(kb));
    let p2 = Vec3i { x: p2r.x, y: 6_500, z: p2r.z };
    let p3 = Vec3i { x: p2.x, y: 200_000, z: p2.z };
    let ld = unit_dir(p0.neg());
    let side: i64 = if count % 2 == 0 {
        -2_000
    } else {
        2_000
    };
    let shift = div_scale(cross(dir, Vec3i { x: 0, y: SCALE, z: 0 })).scaled_by(side);
    let man_tuples: Vec<(Vec3i, i64, Option<usize>, Option<Vec3i>)> = vec![
        (p0, MAN_VELOCITY, Some(4usize), None),
        (p1, MAN_VELOCITY, None, None),
        (p2, MAN_VELOCITY, None, None),
        (p3, MAN_VELOCITY, Some(1usize), Some(ld.neg())),
    ];
    let girl_tuples: Vec<(Vec3i, i64, Option<usize>, Option<Vec3i>)> = vec![
        (add_clamped(p0, shift), MAN_VELOCITY, Some(5usize), None),
        (add_clamped(p1, shift), MAN_VELOCITY, None, None),
        (add_clamped(p2, shift), MAN_VELOCITY, None, None),
        (add_clamped(p3, shift), MAN_VELOCITY, Some(12usize), Some(ld)),
    ];
    let man_path = MovementPath::new(&man_tuples, 2, Vec3i { x: 1_000, y: 0, z: 0 });
    let girl_path = MovementPath::new(&girl_tuples, 2, Vec3i { x: 0, y: 0, z: 0 });
    let start = now + (count as u64) * 1_000;
    proof {
        let lift_s = lifts@[nearest_idx(lifts@, man_pos)];
        let parity = (count as int) % 2;
        let plan = takeoff_plan(lift_s, kb as int, parity);
        assert(dir == unit_dir_spec(lift_s));
        assert(p0 == scaled_spec(dir, 25_500));
        assert(p1 == with_y(add_clamped_spec(p0, scaled_spec(dir, 16_000)), 7_000));
        assert(p2 == with_y(add_clamped_spec(p1, scaled_spec(dir, kb as int)), 6_500));
        assert(p3 == with_y(p2, 200_000));
        assert(ld == unit_dir_spec(neg_spec(p0)));
        assert(shift == scaled_spec(
            div_scale_spec(cross_spec(dir, up_axis())),
            if parity == 0 {
                -2_000int
            } else {
                2_000int
            },
        ));
        assert(man_path@.points[0] == plan.0[0]);
        assert(man_path@.points[1] == plan.0[1]);
        assert(man_path@.points[2] == plan.0[2]);
        assert(man_path@.points[3] == plan.0[3]);
        assert(man_path@.points =~= plan.0);
        assert(girl_path@.points[0] == plan.1[0]);
        assert(girl_path@.points[1] == plan.1[1]);
        assert(girl_path@.points[2] == plan.1[2]);
        assert(girl_path@.points[3] == plan.1[3]);
        assert(girl_path@.points =~= plan.1);
        assert(man_path@.attach_wf());
        assert(girl_path@.attach_wf());
    }
    (man_path, girl_path, start)
}

/// The first man to meet his girl pulls the camera onto himself and tips the
/// story into the take-off phase; the latch keeps it from happening twice.
pub fn first_man_cue(first_man_set: bool, man: EntityId) -> (r: Option<(
    SetCameraTarget,
    GameState,
)>)
    ensures
        r == if first_man_set {
            None::<(SetCameraTarget, GameState)>
        } else {
            Some(
                (
                    SetCameraTarget(
                        CameraTarget {
                            translation_bias: Vec3i { x: 2_000, y: 4_000, z: 10_000 },
                            ..CameraTarget::base_spec(TargetRef::Entity(man))
                        },
                        0,
                    ),
                    GameState::TakeOff,
                ),
            )
        },
{
    if first_man_set {
        None
    } else {
        Some(
            (
                SetCameraTarget(
                    CameraTarget::from_entity(man).with_translation_bias(
                        Vec3i { x: 2_000, y: 4_000, z: 10_000 },
                    ),
                    0,
                ),
                GameState::TakeOff,
            ),
        )
    }
}

/// Once any man has risen above the camera, swing the camera to watch the
/// take-off from the side; the latch keeps it from happening twice.
pub fn cam_rotate(men_heights: &Vec<i64>, cam_height: i64, rotated: bool) -> (r: Option<
    SetCameraTarget,
>)
    ensures
        r == if !rotated && (exists|i: int|
            0 <= i < men_heights@.len() && #[trigger] men_heights@[i] < cam_height) {
            Some(
                SetCameraTarget(
                    CameraTarget {
                        translation_bias: Vec3i { x: 10_000, y: 10_000, z: 0 },
                        ..CameraTarget::base_spec(
                            TargetRef::Position(Vec3i { x: 0, y: 2_000, z: 0 }),
                        )
                    },
                    0,
                ),
            )
        } else {
            None::<SetCameraTarget>
        },
{
    if rotated {
        return None;
    }
    let mut i: usize = 0;
    while i < men_heights.len()
        invariant
            !rotated,
            i <= men_heights@.len(),
            forall|j: int| 0 <= j < i ==> !(#[trigger] men_heights@[j] < cam_height),
        decreases men_heights@.len() - i,
    {
        if men_heights[i] < cam_height {
            proof {
                assert(men_heights@[i as int] < cam_height);
            }
            return Some(
                SetCameraTarget(
                    CameraTarget::from_position(Vec3i { x: 0, y: 2_000, z: 0 })
                        .with_translation_bias(Vec3i { x: 10_000, y: 10_000, z: 0 }),
                    0,
                ),
            );
        }
        i = i + 1;
    }
    None
}

/// When the rain starts, each man becomes visible and walks to his girl: a
/// pace toward a point behind her, then a step to her right side, pairing
/// them; the camera rises above the square to watch.
pub fn enter_moving(men: &Vec<EntityId>, girls: &Vec<(EntityId, Vec3i, Vec3i)>) -> (r: (
    Vec<(EntityId, Pair, MovementPath)>,
    CameraTarget,
    MenState,
))
    requires
        men@.len() <= girls@.len(),
        forall|i: int| 0 <= i < girls@.len() ==> (#[trigger] girls@[i]).1.in_bounds(),
        forall|i: int| 0 <= i < girls@.len() ==> (#[trigger] girls@[i]).2.norm_le(SCALE as int),
    ensures
        r.2 is Moving,
        r.1 == (CameraTarget {
            direction: Some(Vec3i { x: 0, y: 1_000, z: 0 }),
            ..CameraTarget::base_spec(TargetRef::Position(Vec3i { x: 0, y: 20_000, z: 0 }))
        }),
        r.0@.len() == men@.len(),
        forall|k: int|
            0 <= k < men@.len() ==> {
                let path = (#[trigger] r.0@[k]).2@;
                &&& r.0@[k].0 == men@[k]
                &&& r.0@[k].1 == Pair(girls@[k].0)
                &&& path.points.len() == 2
                &&& path.points[0].pos == add_clamped_spec(
                    girls@[k].1,
                    scaled_spec(girls@[k].2, -10_000),
                )
                &&& path.points[0].animation_index == Some(1usize)
                &&& path.points[1].pos == add_clamped_spec(
                    girls@[k].1,
                    div_scale_spec(cross_spec(girls@[k].2, up_axis())),
                )
                &&& path.points[1].animation_index == Some(3usize)
                &&& MAN_VELOCITY <= path.points[0].velocity / 2 < MAN_VELOCITY + SCALE
                &&& path.points[1].velocity == path.points[0].velocity
                &&& path.finish_animation == 0
                &&& path.finish_look_at == girls@[k].1
                &&& path.attach_wf()
            },
{
    let mut out: Vec<(EntityId, Pair, MovementPath)> = Vec::new();
    let mut k: usize = 0;
    while k < men.len()
        invariant
            k <= men@.len(),
            men@.len() <= girls@.len(),
            forall|i: int| 0 <= i < girls@.len() ==> (#[trigger] girls@[i]).1.in_bounds(),
            forall|i: int| 0 <= i < girls@.len() ==> (#[trigger] girls@[i]).2.norm_le(SCALE as int),
            out@.len() == k,
            forall|kk: int|
                0 <= kk < k ==> {
                    let path = (#[trigger] out@[kk]).2@;
                    &&& out@[kk].0 == men@[kk]
                    &&& out@[kk].1 == Pair(girls@[kk].0)
                    &&& path.points.len() == 2
                    &&& path.points[0].pos == add_clamped_spec(
                        girls@[kk].1,
                        scaled_spec(girls@[kk].2, -10_000),
                    )
                    &&& path.points[0].animation_index == Some(1usize)
                    &&& path.points[1].pos == add_clamped_spec(
                        girls@[kk].1,
                        div_scale_spec(cross_spec(girls@[kk].2, up_axis())),
                    )
                    &&& path.points[1].animation_index == Some(3usize)
                    &&& MAN_VELOCITY <= path.points[0].velocity / 2 < MAN_VELOCITY + SCALE
                    &&& path.points[1].velocity == path.points[0].velocity
                    &&& path.finish_animation == 0
                    &&& path.finish_look_at == girls@[kk].1
                    &&& path.attach_wf()
                },
        decreases men@.len() - k,
    {
        let man = men[k];
        let (girl_id, gp, gf) = girls[k];
        let v = rand_i64(MAN_VELOCITY, MAN_VELOCITY + SCALE - 1);
        let behind = add_clamped(gp, gf.scaled_by(-10_000));
        let beside = add_clamped(gp, div_scale(cross(gf, Vec3i { x: 0, y: SCALE, z: 0 })));
        let tuples: Vec<(Vec3i, i64, Option<usize>, Option<Vec3i>)> = vec![
            (behind, 2 * v, Some(1usize), None),
            (beside, 2 * v, Some(3usize), None),
        ];
        let path = MovementPath::new(&tuples, 0, gp);
        proof {
            assert(path@.attach_wf());
            assert(2 * v / 2 == v);
        }
        out.push((man, Pair(girl_id), path));
        k = k + 1;
    }
    let cam = CameraTarget::from_position(Vec3i { x: 0, y: 20_000, z: 0 }).with_direction(
        Vec3i { x: 0, y: 1_000, z: 0 },
    );
    (out, cam, MenState::Moving)
}

} // verus!
