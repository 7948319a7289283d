//! The girls' choreography: walking to the nearest free bench seat, running
//! to a ring around the origin, settling to idle when every path is done, and
//! the camera cues their part of the soundtrack asks for.

use vstd::prelude::*;

verus! {

use crate::camera_target::{CameraTarget, SetCameraTarget, TargetRef};
use crate::geom::{add_clamped, add_clamped_spec, div_trunc_spec, Vec3i, SCALE};
use crate::movement::{EntityId, MoveEvent, MovementPath};
use crate::music::MusicEvent;
use crate::narrative::GameState;
use crate::shared::{rand_i64, rand_index};

/// Whether the girls are settled or following paths.
#[derive(Clone, Copy, Debug, PartialEq, Eq, Default, Structural)]
pub enum GirlsState {
    #[default]
    Idle,
    Moving,
}

/// Base walking speed of a girl, in coordinate steps per second.
pub const GIRL_VELOCITY: i64 = 2_000;

/// Index of the first point closest to `p` (squared distance, earliest wins).
pub open spec fn nearest_idx(points: Seq<Vec3i>, p: Vec3i) -> int
    decreases points.len(),
{
    if points.len() <= 1 {
        0
    } else {
        let rest = 1 + nearest_idx(points.drop_first(), p);
        if points[0].dist_sq_spec(p) <= points[rest].dist_sq_spec(p) {
            0
        } else {
            rest
        }
    }
}

pub proof fn lemma_nearest_in_range(points: Seq<Vec3i>, p: Vec3i)
    requires
        points.len() > 0,
    ensures
        0 <= nearest_idx(points, p) < points.len(),
    decreases points.len(),
{
    if points.len() > 1 {
        lemma_nearest_in_range(points.drop_first(), p);
    }
}

/// The nearest point really is nearest: no other point is strictly closer.
pub proof fn lemma_nearest_is_min(points: Seq<Vec3i>, p: Vec3i, j: int)
    requires
        0 <= j < points.len(),
    ensures
        points[nearest_idx(points, p)].dist_sq_spec(p) <= points[j].dist_sq_spec(p),
    decreases points.len(),
{
    if points.len() > 1 {
        lemma_nearest_in_range(points.drop_first(), p);
        if j > 0 {
            lemma_nearest_is_min(points.drop_first(), p, j - 1);
        } else {
            lemma_nearest_is_min(points.drop_first(), p, nearest_idx(points.drop_first(), p));
        }
    }
}

/// First index of the point closest to `p`, exactly `nearest_idx`.
pub fn nearest_point(points: &Vec<Vec3i>, p: Vec3i) -> (idx: usize)
    requires
        points@.len() > 0,
        forall|i: int| 0 <= i < points@.len() ==> (#[trigger] points@[i]).in_bounds(),
        p.in_bounds(),
    ensures
        idx as int == nearest_idx(points@, p),
        idx < points@.len(),
{
    let len = points.len();
    let mut best: usize = len - 1;
    let mut i: usize = len - 1;
    proof {
        assert(points@.subrange(i as int, len as int).len() == 1);
    }
    while i > 0
        invariant
            points@.len() == len,
            forall|j: int| 0 <= j < points@.len() ==> (#[trigger] points@[j]).in_bounds(),
            p.in_bounds(),
            0 <= i < len,
            i <= best < len,
            best - i == nearest_idx(points@.subrange(i as int, len as int), p),
        decreases i,
    {
        i = i - 1;
        let d_i = points[i].dist_sq(p);
        let d_b = points[best].dist_sq(p);
        proof {
            let sub = points@.subrange(i as int, len as int);
            assert(sub.drop_first() =~= points@.subrange(i as int + 1, len as int));
            assert(sub[0] == points@[i as int]);
        }
        if d_i <= d_b {
            best = i;
        }
    }
    proof {
        assert(points@.subrange(0, len as int) =~= points@);
    }
    best
}

/// A sequence with the element at `i` swapped out for the last and dropped,
/// as `Vec::swap_remove` leaves it.
pub open spec fn swap_removed<T>(s: Seq<T>, i: int) -> Seq<T> {
    s.update(i, s.last()).drop_last()
}

/// The seat positions and facings still free after the first `k` girls chose,
/// each having taken the nearest remaining seat.
pub open spec fn seats_left(girls: Seq<Vec3i>, k: int, pts: Seq<Vec3i>, fwds: Seq<Vec3i>) -> (
    Seq<Vec3i>,
    Seq<Vec3i>,
)
    decreases k,
{
    if k <= 0 {
        (pts, fwds)
    } else {
        let prev = seats_left(girls, k - 1, pts, fwds);
        let i = nearest_idx(prev.0, girls[k - 1]);
        (swap_removed(prev.0, i), swap_removed(prev.1, i))
    }
}

/// The seat the `k`-th girl takes: the nearest seat still free.
pub open spec fn chosen_seat(girls: Seq<Vec3i>, k: int, pts: Seq<Vec3i>, fwds: Seq<Vec3i>) -> (
    Vec3i,
    Vec3i,
) {
    let left = seats_left(girls, k, pts, fwds);
    let i = nearest_idx(left.0, girls[k]);
    (left.0[i], left.1[i])
}

/// Where a girl pauses before sitting: four units in front of the seat.
pub open spec fn walk_start(seat_pos: Vec3i, seat_fwd: Vec3i) -> Vec3i {
    add_clamped_spec(
        seat_pos,
        Vec3i {
            x: div_trunc_spec(seat_fwd.x * -4_000, SCALE as int) as i64,
            y: div_trunc_spec(seat_fwd.y * -4_000, SCALE as int) as i64,
            z: div_trunc_spec(seat_fwd.z * -4_000, SCALE as int) as i64,
        },
    )
}

/// On entering the intro, every girl walks to the nearest bench seat still
/// free: a two-stop path, pacing toward a point in front of the seat, then
/// slowing onto the seat itself, ending in one of the two sitting idles.
pub fn enter_walking(girls: &Vec<(EntityId, Vec3i)>, seat_pos: &Vec<Vec3i>, seat_fwd: &Vec<Vec3i>)
    -> (r: (Vec<(EntityId, MovementPath)>, GirlsState))
    requires
        girls@.len() <= seat_pos@.len(),
        seat_pos@.len() == seat_fwd@.len(),
        forall|i: int| 0 <= i < girls@.len() ==> (#[trigger] girls@[i]).1.in_bounds(),
        forall|i: int| 0 <= i < seat_pos@.len() ==> (#[trigger] seat_pos@[i]).in_bounds(),
        forall|i: int| 0 <= i < seat_fwd@.len() ==> (#[trigger] seat_fwd@[i]).norm_le(SCALE as int),
    ensures
        r.1 is Moving,
        r.0@.len() == girls@.len(),
        forall|k: int|
            0 <= k < girls@.len() ==> {
                let seat = chosen_seat(
                    girls@.map_values(|g: (EntityId, Vec3i)| g.1),
                    k,
                    seat_pos@,
                    seat_fwd@,
                );
                let path = (#[trigger] r.0@[k]).1@;
                &&& r.0@[k].0 == girls@[k].0
                &&& path.points.len() == 2
                &&& path.points[0].pos == walk_start(seat.0, seat.1)
                &&& path.points[0].animation_index == Some(1usize)
                &&& path.points[0].look_to is None
                &&& path.points[1].pos == seat.0
                &&& path.points[1].animation_index == Some(5usize)
                &&& path.points[1].look_to is None
                &&& GIRL_VELOCITY <= path.points[1].velocity < GIRL_VELOCITY + SCALE
                &&& path.points[0].velocity == 2 * path.points[1].velocity
                &&& (path.finish_animation == 9 || path.finish_animation == 10)
                &&& path.finish_look_at == path.points[0].pos
                &&& path.attach_wf()
            },
{
    let ghost girl_pos = girls@.map_values(|g: (EntityId, Vec3i)| g.1);
    let mut pts: Vec<Vec3i> = Vec::new();
    let mut fwds: Vec<Vec3i> = Vec::new();
    let mut i: usize = 0;
    while i < seat_pos.len()
        invariant
            i <= seat_pos@.len(),
            seat_pos@.len() == seat_fwd@.len(),
            pts@ == seat_pos@.take(i as int),
            fwds@ == seat_fwd@.take(i as int),
        decreases seat_pos@.len() - i,
    {
        pts.push(seat_pos[i]);
        fwds.push(seat_fwd[i]);
        i = i + 1;
    }
    proof {
        assert(seat_pos@.take(seat_pos@.len() as int) =~= seat_pos@);
        assert(seat_fwd@.take(seat_fwd@.len() as int) =~= seat_fwd@);
    }
    let mut out: Vec<(EntityId, MovementPath)> = Vec::new();
    let mut k: usize = 0;
    while k < girls.len()
        invariant
            k <= girls@.len(),
            girls@.len() <= seat_pos@.len(),
            seat_pos@.len() == seat_fwd@.len(),
            girl_pos == girls@.map_values(|g: (EntityId, Vec3i)| g.1),
            forall|j: int| 0 <= j < girls@.len() ==> (#[trigger] girls@[j]).1.in_bounds(),
            pts@.len() == seat_pos@.len() - k,
            fwds@.len() == pts@.len(),
            (pts@, fwds@) == seats_left(girl_pos, k as int, seat_pos@, seat_fwd@),
            forall|j: int| 0 <= j < pts@.len() ==> (#[trigger] pts@[j]).in_bounds(),
            forall|j: int| 0 <= j < fwds@.len() ==> (#[trigger] fwds@[j]).norm_le(SCALE as int),
            out@.len() == k,
            forall|kk: int|
                0 <= kk < k ==> {
                    let seat = chosen_seat(girl_pos, kk, seat_pos@, seat_fwd@);
                    let path = (#[trigger] out@[kk]).1@;
                    &&& out@[kk].0 == girls@[kk].0
                    &&& path.points.len() == 2
                    &&& path.points[0].pos == walk_start(seat.0, seat.1)
                    &&& path.points[0].animation_index == Some(1usize)
                    &&& path.points[0].look_to is None
                    &&& path.points[1].pos == seat.0
                    &&& path.points[1].animation_index == Some(5usize)
                    &&& path.points[1].look_to is None
                    &&& GIRL_VELOCITY <= path.points[1].velocity < GIRL_VELOCITY + SCALE
                    &&& path.points[0].velocity == 2 * path.points[1].velocity
                    &&& (path.finish_animation == 9 || path.finish_animation == 10)
                    &&& path.finish_look_at == path.points[0].pos
                    &&& path.attach_wf()
                },
        decreases girls@.len() - k,
    {
        let (girl_id, gp) = girls[k];
        proof {
            assert(girl_pos[k as int] == gp);
        }
        let idx = nearest_point(&pts, gp);
        let spos = pts.swap_remove(idx);
        let sfwd = fwds.swap_remove(idx);
        let v = rand_i64(GIRL_VELOCITY, GIRL_VELOCITY + SCALE - 1);
        let start_pt = add_clamped(spos, sfwd.scaled_by(-4_000));
        let fin = if rand_index(2) == 0 {
            9
        } else {
            10
        };
        let tuples: Vec<(Vec3i, i64, Option<usize>, Option<Vec3i>)> = vec![
            (start_pt, 2 * v, Some(1usize), None),
            (spos, v, Some(5usize), None),
        ];
        let path = MovementPath::new(&tuples, fin, start_pt);
        proof {
            assert(path@.attach_wf());
        }
        out.push((girl_id, path));
        k = k + 1;
    }
    (out, GirlsState::Moving)
}


/// The two offsets a lunge factor yields: the forward lunge itself, and the
/// opposite point at four times the lunge.
pub open spec fn lunge_offsets(fwd: Vec3i, lunge: int) -> (Vec3i, Vec3i) {
    (
        Vec3i {
            x: div_trunc_spec(fwd.x * lunge, SCALE as int) as i64,
            y: div_trunc_spec(fwd.y * lunge, SCALE as int) as i64,
            z: div_trunc_spec(fwd.z * lunge, SCALE as int) as i64,
        },
        Vec3i {
            x: div_trunc_spec(fwd.x * (-4 * lunge), SCALE as int) as i64,
            y: div_trunc_spec(fwd.y * (-4 * lunge), SCALE as int) as i64,
            z: div_trunc_spec(fwd.z * (-4 * lunge), SCALE as int) as i64,
        },
    )
}

/// On entering the portal phase every girl sprints to a ring around the
/// origin: a lunge forward, a dash through a point opposite her lunge, then
/// her ring spot, ending in one of four dance moves.  The ring spot itself is
/// worked out by the host (it needs trigonometry) and handed in per girl.
pub fn enter_running(girls: &Vec<(EntityId, Vec3i, Vec3i)>, ring: &Vec<Vec3i>) -> (r: (
    Vec<(EntityId, MovementPath)>,
    GirlsState,
))
    requires
        girls@.len() == ring@.len(),
        forall|i: int| 0 <= i < girls@.len() ==> (#[trigger] girls@[i]).1.in_bounds(),
        forall|i: int| 0 <= i < girls@.len() ==> (#[trigger] girls@[i]).2.norm_le(SCALE as int),
        forall|i: int| 0 <= i < ring@.len() ==> (#[trigger] ring@[i]).in_bounds(),
    ensures
        r.1 is Moving,
        r.0@.len() == girls@.len(),
        forall|k: int|
            0 <= k < girls@.len() ==> {
                let path = (#[trigger] r.0@[k]).1@;
                &&& r.0@[k].0 == girls@[k].0
                &&& path.points.len() == 3
                &&& (exists|lunge: int|
                    1_000 <= lunge < 2_000 && path.points[0].pos == add_clamped_spec(
                        girls@[k].1,
                        (#[trigger] lunge_offsets(girls@[k].2, lunge)).0,
                    ) && path.points[1].pos == lunge_offsets(girls@[k].2, lunge).1)
                &&& path.points[0].animation_index == Some(1usize)
                &&& path.points[1].animation_index is None
                &&& path.points[2].animation_index is None
                &&& path.points[2].pos == ring@[k]
                &&& GIRL_VELOCITY <= path.points[0].velocity / 2 < GIRL_VELOCITY + SCALE
                &&& path.points[1].velocity == path.points[0].velocity
                &&& path.points[2].velocity == path.points[0].velocity
                &&& (path.finish_animation == 2 || path.finish_animation == 3
                    || path.finish_animation == 7 || path.finish_animation == 8)
                &&& path.finish_look_at == (Vec3i { x: 0, y: 0, z: 0 })
                &&& path.attach_wf()
            },
{
    let mut out: Vec<(EntityId, MovementPath)> = Vec::new();
    let mut k: usize = 0;
    while k < girls.len()
        invariant
            k <= girls@.len(),
            girls@.len() == ring@.len(),
            forall|i: int| 0 <= i < girls@.len() ==> (#[trigger] girls@[i]).1.in_bounds(),
            forall|i: int| 0 <= i < girls@.len() ==> (#[trigger] girls@[i]).2.norm_le(SCALE as int),
            forall|i: int| 0 <= i < ring@.len() ==> (#[trigger] ring@[i]).in_bounds(),
            out@.len() == k,
            forall|kk: int|
                0 <= kk < k ==> {
                    let path = (#[trigger] out@[kk]).1@;
                    &&& out@[kk].0 == girls@[kk].0
                    &&& path.points.len() == 3
                    &&& (exists|lunge: int|
                        1_000 <= lunge < 2_000 && path.points[0].pos == add_clamped_spec(
                            girls@[kk].1,
                            (#[trigger] lunge_offsets(girls@[kk].2, lunge)).0,
                        ) && path.points[1].pos == lunge_offsets(girls@[kk].2, lunge).1)
                    &&& path.points[0].animation_index == Some(1usize)
                    &&& path.points[1].animation_index is None
                    &&& path.points[2].animation_index is None
                    &&& path.points[2].pos == ring@[kk]
                    &&& GIRL_VELOCITY <= path.points[0].velocity / 2 < GIRL_VELOCITY + SCALE
                    &&& path.points[1].velocity == path.points[0].velocity
                    &&& path.points[2].velocity == path.points[0].velocity
                    &&& (path.finish_animation == 2 || path.finish_animation == 3
                        || path.finish_animation == 7 || path.finish_animation == 8)
                    &&& path.finish_look_at == (Vec3i { x: 0, y: 0, z: 0 })
                    &&& path.attach_wf()
                },
        decreases girls@.len() - k,
    {
        let (girl_id, gp, gf) = girls[k];
        let lunge = rand_i64(1_000, 1_999);
        proof {
            assert(-8_000 <= -4 * lunge <= -4_000) by (nonlinear_arith)
                requires
                    1_000 <= lunge <= 1_999,
            ;
        }
        let back: i64 = -4 * lunge;
        let p0 = add_clamped(gp, gf.scaled_by(lunge));
        let p1 = gf.scaled_by(back);
        let v = rand_i64(GIRL_VELOCITY, GIRL_VELOCITY + SCALE - 1);
        let fin: usize = match rand_index(4) {
            0 => 2,
            1 => 3,
            2 => 7,
            _ => 8,
        };
        let tuples: Vec<(Vec3i, i64, Option<usize>, Option<Vec3i>)> = vec![
            (p0, 2 * v, Some(1usize), None),
            (p1, 2 * v, None, None),
            (ring[k], 2 * v, None, None),
        ];
        let path = MovementPath::new(&tuples, fin, Vec3i { x: 0, y: 0, z: 0 });
        proof {
            assert(path@.attach_wf());
            assert(2 * v / 2 == v);
            assert(path@.points[0].pos == add_clamped_spec(
                gp,
                lunge_offsets(gf, lunge as int).0,
            ) && path@.points[1].pos == lunge_offsets(gf, lunge as int).1);
        }
        out.push((girl_id, path));
        k = k + 1;
    }
    (out, GirlsState::Moving)
}

/// Whether an id is among the given entity ids.
pub fn contains_id(ids: &Vec<EntityId>, id: EntityId) -> (r: bool)
    ensures
        r == ids@.contains(id),
{
    let mut i: usize = 0;
    while i < ids.len()
        invariant
            i <= ids@.len(),
            forall|j: int| 0 <= j < i ==> ids@[j] != id,
        decreases ids@.len() - i,
    {
        if ids[i] == id {
            return true;
        }
        i = i + 1;
    }
    false
}

/// The girls settle back to idle once a path-completion event arrives for one
/// of them while no girl still carries an outstanding path: a transition
/// derived from completion events, re-evaluated each time one arrives.
pub fn move_done(events: &Vec<MoveEvent>, girl_ids: &Vec<EntityId>, outstanding: usize) -> (next:
    Option<GirlsState>)
    ensures
        next == if (exists|i: int|
            0 <= i < events@.len() && ((#[trigger] events@[i]) matches MoveEvent::PathDone(e)
                && girl_ids@.contains(e))) && outstanding == 0 {
            Some(GirlsState::Idle)
        } else {
            None::<GirlsState>
        },
{
    let mut i: usize = 0;
    while i < events.len()
        invariant
            i <= events@.len(),
            forall|j: int|
                0 <= j < i ==> !((#[trigger] events@[j]) matches MoveEvent::PathDone(e)
                    && girl_ids@.contains(e) && outstanding == 0),
        decreases events@.len() - i,
    {
        match events[i] {
            MoveEvent::PathDone(e) => {
                if contains_id(girl_ids, e) && outstanding == 0 {
                    return Some(GirlsState::Idle);
                }
            },
            MoveEvent::WaypointReached(_) => {},
        }
        i = i + 1;
    }
    None
}

/// On settling to idle during the speak phase, each girl picks one of the two
/// sitting idles at random; outside that phase nothing changes.
pub fn enter_idle(state: GameState, count: usize) -> (r: Option<Vec<usize>>)
    ensures
        match r {
            Some(v) => state is Speak && v@.len() == count && forall|i: int|
                0 <= i < v@.len() ==> (#[trigger] v@[i] == 4 || v@[i] == 6),
            None => !(state is Speak),
        },
{
    if let GameState::Speak = state {
        let mut v: Vec<usize> = Vec::new();
        let mut i: usize = 0;
        while i < count
            invariant
                i <= count,
                v@.len() == i,
                forall|j: int| 0 <= j < i ==> (#[trigger] v@[j] == 4 || v@[j] == 6),
            decreases count - i,
        {
            let idx: usize = if rand_index(2) == 0 {
                4
            } else {
                6
            };
            v.push(idx);
            i = i + 1;
        }
        Some(v)
    } else {
        None
    }
}

/// The camera cue the girls' part of the soundtrack asks for at each beat of
/// the sing phase.
pub open spec fn girls_cue_spec(ev: MusicEvent, humidity: EntityId, history: EntityId) -> Option<
    SetCameraTarget,
> {
    if !(ev.0 is Sing) {
        None
    } else if ev.1 == 1 {
        Some(
            SetCameraTarget(
                CameraTarget {
                    translation_bias: Vec3i { x: 0, y: 0, z: 2_000 },
                    ..CameraTarget::base_spec(TargetRef::Entity(humidity))
                },
                1,
            ),
        )
    } else if ev.1 == 2 {
        Some(
            SetCameraTarget(
                CameraTarget {
                    direction: Some(Vec3i { x: -1_000i64, y: 0, z: 0 }),
                    ..CameraTarget::base_spec(TargetRef::Position(Vec3i { x: 60_000, y: 10_000, z: 0 }))
                },
                0,
            ),
        )
    } else if ev.1 == 3 {
        Some(
            SetCameraTarget(
                CameraTarget {
                    direction: Some(Vec3i { x: 0, y: 0, z: 1_000 }),
                    ..CameraTarget::base_spec(TargetRef::Position(Vec3i { x: 0, y: 2_000, z: -5_000i64 }))
                },
                0,
            ),
        )
    } else if ev.1 == 4 {
        Some(
            SetCameraTarget(
                CameraTarget {
                    direction: Some(Vec3i { x: -1_000i64, y: 0, z: 0 }),
                    ..CameraTarget::base_spec(
                        TargetRef::Position(Vec3i { x: -50_000i64, y: 40_000, z: 0 }),
                    )
                },
                0,
            ),
        )
    } else if ev.1 == 5 {
        Some(
            SetCameraTarget(
                CameraTarget {
                    translation_bias: Vec3i { x: 0, y: 3_000, z: 5_000 },
                    rotation_bias: Vec3i { x: 0, y: 3_000, z: 0 },
                    ..CameraTarget::base_spec(TargetRef::Entity(history))
                },
                2,
            ),
        )
    } else {
        None
    }
}

/// React to a sing-phase story beat with the camera cue it calls for: the
/// humidity sign, three street views, then the history sign.
pub fn music_event(ev: MusicEvent, humidity: EntityId, history: EntityId) -> (r: Option<
    SetCameraTarget,
>)
    ensures
        r == girls_cue_spec(ev, humidity, history),
{
    match ev.0 {
        GameState::Sing => {
            if ev.1 == 1 {
                Some(
                    SetCameraTarget(
                        CameraTarget::from_entity(humidity).with_translation_bias(
                            Vec3i { x: 0, y: 0, z: 2_000 },
                        ),
                        1,
                    ),
                )
            } else if ev.1 == 2 {
                Some(
                    SetCameraTarget(
                        CameraTarget::from_position(
                            Vec3i { x: 60_000, y: 10_000, z: 0 },
                        ).with_direction(Vec3i { x: -1_000, y: 0, z: 0 }),
                        0,
                    ),
                )
            } else if ev.1 == 3 {
                Some(
                    SetCameraTarget(
                        CameraTarget::from_position(
                            Vec3i { x: 0, y: 2_000, z: -5_000 },
                        ).with_direction(Vec3i { x: 0, y: 0, z: 1_000 }),
                        0,
                    ),
                )
            } else if ev.1 == 4 {
                Some(
                    SetCameraTarget(
                        CameraTarget::from_position(
                            Vec3i { x: -50_000, y: 40_000, z: 0 },
                        ).with_direction(Vec3i { x: -1_000, y: 0, z: 0 }),
                        0,
                    ),
                )
            } else if ev.1 == 5 {
                Some(
                    SetCameraTarget(
                        CameraTarget::from_entity(history).with_translation_bias(
                            Vec3i { x: 0, y: 3_000, z: 5_000 },
                        ).with_rotation_bias(Vec3i { x: 0, y: 3_000, z: 0 }),
                        2,
                    ),
                )
            } else {
                None
            }
        },
        _ => None,
    }
}

} // verus!
