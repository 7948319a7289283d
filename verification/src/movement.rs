//! The movement engine: advances entities along an ordered list of waypoints,
//! switching per-waypoint speed, animation and orientation, and emitting
//! completion events.  Each entity's motion is explicit tagged state: idle,
//! gated behind a delayed start, or actively following a path.

use vstd::prelude::*;

verus! {

use vstd::pervasive::VecAdditionalExecFns;

use crate::geom::{
    approach, approach_coord, between, isqrt, lemma_box_no_overshoot, lemma_scaled_within,
    lemma_sqrt_floor_bounds, lemma_step_below_dist, lemma_step_len_nonneg, sqrt_floor, step_len,
    step_len_spec, Vec3i, DT_LIMIT, POS_LIMIT, VEL_LIMIT,
};

/// Opaque handle of a scene entity.
pub type EntityId = u64;

/// One stop along a movement path: a target position, the speed used to reach
/// it, an optional animation cue and an optional fixed facing override.
#[derive(Clone, Copy, Debug)]
pub struct PathElement {
    pub pos: Vec3i,
    pub velocity: i64,
    pub animation_index: Option<usize>,
    pub look_to: Option<Vec3i>,
}

impl PathElement {
    pub open spec fn wf(self) -> bool {
        &&& self.pos.in_bounds()
        &&& 0 <= self.velocity <= VEL_LIMIT
        &&& match self.look_to {
            Some(d) => d.in_bounds(),
            None => true,
        }
    }
}

/// An ordered list of waypoints (front is the current target), the animation
/// applied on completion, and the point to face on completion.
#[derive(Debug)]
pub struct MovementPath {
    pub points: Vec<PathElement>,
    pub finish_animation: usize,
    pub finish_look_at: Vec3i,
}

/// Ghost model of a path.
pub struct PathModel {
    pub points: Seq<PathElement>,
    pub finish_animation: usize,
    pub finish_look_at: Vec3i,
}

impl PathModel {
    /// Well-formed while attached: never empty, every waypoint legal.
    pub open spec fn wf(self) -> bool {
        &&& self.points.len() > 0
        &&& (forall|i: int| 0 <= i < self.points.len() ==> (#[trigger] self.points[i]).wf())
        &&& self.finish_look_at.in_bounds()
    }

    /// Legal to attach: additionally the first waypoint carries the mandatory
    /// animation cue that is applied on attachment.
    pub open spec fn attach_wf(self) -> bool {
        &&& self.wf()
        &&& self.points[0].animation_index is Some
    }
}

impl View for MovementPath {
    type V = PathModel;

    open spec fn view(&self) -> PathModel {
        PathModel {
            points: self.points@,
            finish_animation: self.finish_animation,
            finish_look_at: self.finish_look_at,
        }
    }
}

impl MovementPath {
    /// Build a path from plain waypoint tuples, as scene scripts write them:
    /// position, velocity, optional animation cue, optional facing override.
    pub fn new(
        points: &Vec<(Vec3i, i64, Option<usize>, Option<Vec3i>)>,
        finish_animation: usize,
        finish_look_at: Vec3i,
    ) -> (path: MovementPath)
        ensures
            path@.points.len() == points@.len(),
            forall|i: int|
                0 <= i < points@.len() ==> #[trigger] path@.points[i] == (PathElement {
                    pos: points@[i].0,
                    velocity: points@[i].1,
                    animation_index: points@[i].2,
                    look_to: points@[i].3,
                }),
            path@.finish_animation == finish_animation,
            path@.finish_look_at == finish_look_at,
    {
        let mut elems: Vec<PathElement> = Vec::new();
        let mut i: usize = 0;
        while i < points.len()
            invariant
                i <= points@.len(),
                elems@.len() == i,
                forall|j: int|
                    0 <= j < i ==> #[trigger] elems@[j] == (PathElement {
                        pos: points@[j].0,
                        velocity: points@[j].1,
                        animation_index: points@[j].2,
                        look_to: points@[j].3,
                    }),
            decreases points@.len() - i,
        {
            let (p, v, a, l) = points[i];
            elems.push(PathElement { pos: p, velocity: v, animation_index: a, look_to: l });
            i = i + 1;
        }
        MovementPath { points: elems, finish_animation, finish_look_at }
    }
}

/// Motion of one entity: standing still, waiting behind a delayed-start gate,
/// or actively following a path.
#[derive(Debug)]
pub enum MotionState {
    Idle,
    Gated { activation_time: u64, path: MovementPath },
    Active { path: MovementPath },
}

/// Ghost model of a motion state.
pub enum MotionModel {
    Idle,
    Gated { activation_time: u64, path: PathModel },
    Active { path: PathModel },
}

impl View for MotionState {
    type V = MotionModel;

    open spec fn view(&self) -> MotionModel {
        match self {
            MotionState::Idle => MotionModel::Idle,
            MotionState::Gated { activation_time, path } => MotionModel::Gated {
                activation_time: *activation_time,
                path: path@,
            },
            MotionState::Active { path } => MotionModel::Active { path: path@ },
        }
    }
}

impl MotionModel {
    pub open spec fn wf(self) -> bool {
        match self {
            MotionModel::Idle => true,
            MotionModel::Gated { path, .. } => path.wf(),
            MotionModel::Active { path } => path.wf(),
        }
    }
}

/// The animation slot currently requested for an entity, and the node that
/// actually plays animations for it.
#[derive(Clone, Copy, Debug, PartialEq, Eq, Structural)]
pub struct CurrentAnimation {
    pub index: usize,
    pub player: EntityId,
}

/// A movement-capable entity: its transform (position and facing direction),
/// its animation slot, and its motion state.
#[derive(Debug)]
pub struct Mover {
    pub id: EntityId,
    pub position: Vec3i,
    pub facing: Vec3i,
    pub animation: CurrentAnimation,
    pub motion: MotionState,
}

/// Ghost model of a mover.
pub struct MoverModel {
    pub id: EntityId,
    pub position: Vec3i,
    pub facing: Vec3i,
    pub animation: CurrentAnimation,
    pub motion: MotionModel,
}

impl View for Mover {
    type V = MoverModel;

    open spec fn view(&self) -> MoverModel {
        MoverModel {
            id: self.id,
            position: self.position,
            facing: self.facing,
            animation: self.animation,
            motion: self.motion@,
        }
    }
}

impl MoverModel {
    pub open spec fn wf(self) -> bool {
        &&& self.position.in_bounds()
        &&& self.facing.norm_le(2 * POS_LIMIT as int)
        &&& self.motion.wf()
    }

    /// Waypoints left on the attached path, zero when idle.
    pub open spec fn remaining(self) -> int {
        match self.motion {
            MotionModel::Idle => 0,
            MotionModel::Gated { path, .. } => path.points.len() as int,
            MotionModel::Active { path } => path.points.len() as int,
        }
    }

    /// Whether a path is attached (gated or active).
    pub open spec fn attached(self) -> bool {
        !(self.motion is Idle)
    }
}

/// Notifications the movement engine emits: one `WaypointReached` per
/// consumed waypoint, and exactly one `PathDone` when the path detaches
/// (by exhaustion or by cancellation).
#[derive(Clone, Copy, Debug, PartialEq, Eq, Structural)]
pub enum MoveEvent {
    WaypointReached(EntityId),
    PathDone(EntityId),
}

/// Facing direction of a look toward `to` from `from`.
pub open spec fn look_dir_spec(from: Vec3i, to: Vec3i) -> Vec3i {
    Vec3i { x: (to.x - from.x) as i64, y: (to.y - from.y) as i64, z: (to.z - from.z) as i64 }
}

/// One tick of an entity that is (or just became) actively following `path`:
/// either a straight-line step toward the front waypoint, or an exact snap to
/// it, with the waypoint popped and cues applied.
pub open spec fn advance_model(m: MoverModel, path: PathModel, dt: u64) -> (MoverModel, Seq<
    MoveEvent,
>) {
    let front = path.points[0];
    let step = step_len_spec(front.velocity as int, dt as int);
    let dsq = m.position.dist_sq_spec(front.pos);
    if dsq <= step * step {
        if path.points.len() == 1 {
            (
                MoverModel {
                    position: front.pos,
                    facing: look_dir_spec(front.pos, path.finish_look_at),
                    animation: CurrentAnimation {
                        index: path.finish_animation,
                        player: m.animation.player,
                    },
                    motion: MotionModel::Idle,
                    id: m.id,
                },
                seq![MoveEvent::WaypointReached(m.id), MoveEvent::PathDone(m.id)],
            )
        } else {
            let nxt = path.points[1];
            (
                MoverModel {
                    position: front.pos,
                    facing: match nxt.look_to {
                        Some(d) => d,
                        None => look_dir_spec(front.pos, nxt.pos),
                    },
                    animation: match nxt.animation_index {
                        Some(a) => CurrentAnimation { index: a, player: m.animation.player },
                        None => m.animation,
                    },
                    motion: MotionModel::Active {
                        path: PathModel {
                            points: path.points.remove(0),
                            finish_animation: path.finish_animation,
                            finish_look_at: path.finish_look_at,
                        },
                    },
                    id: m.id,
                },
                seq![MoveEvent::WaypointReached(m.id)],
            )
        }
    } else {
        let dd = sqrt_floor(dsq as nat) as int;
        (
            MoverModel {
                position: Vec3i {
                    x: approach_coord(m.position.x as int, front.pos.x as int, step, dd) as i64,
                    y: approach_coord(m.position.y as int, front.pos.y as int, step, dd) as i64,
                    z: approach_coord(m.position.z as int, front.pos.z as int, step, dd) as i64,
                },
                facing: m.facing,
                animation: m.animation,
                motion: MotionModel::Active { path },
                id: m.id,
            },
            Seq::empty(),
        )
    }
}

/// One simulation tick of one entity: honour the delayed-start gate, then
/// advance along the attached path.
pub open spec fn mover_step_model(m: MoverModel, now: u64, dt: u64) -> (MoverModel, Seq<
    MoveEvent,
>) {
    match m.motion {
        MotionModel::Idle => (m, Seq::empty()),
        MotionModel::Gated { activation_time, path } => {
            if activation_time > now {
                (m, Seq::empty())
            } else {
                advance_model(m, path, dt)
            }
        },
        MotionModel::Active { path } => advance_model(m, path, dt),
    }
}

impl Mover {
    /// A mover standing at `position`, facing `facing`, with no path.
    pub fn spawn(id: EntityId, position: Vec3i, facing: Vec3i, animation: CurrentAnimation) -> (m:
        Mover)
        requires
            position.in_bounds(),
            facing.norm_le(2 * POS_LIMIT as int),
        ensures
            m@ == (MoverModel { id, position, facing, animation, motion: MotionModel::Idle }),
            m@.wf(),
    {
        Mover { id, position, facing, animation, motion: MotionState::Idle }
    }

    /// Attach a movement path (the `beginMovement` command).  Attachment is
    /// itself an event: the first waypoint's mandatory animation cue is
    /// applied at once and the entity turns toward the first waypoint.  With
    /// `start_at` given, motion itself waits behind the delayed-start gate.
    /// An already attached path is replaced wholesale, without an event.
    pub fn begin_movement(&mut self, path: MovementPath, start_at: Option<u64>)
        requires
            old(self)@.wf(),
            path@.attach_wf(),
        ensures
            final(self)@.id == old(self)@.id,
            final(self)@.position == old(self)@.position,
            final(self)@.facing == look_dir_spec(old(self)@.position, path@.points[0].pos),
            final(self)@.animation == (CurrentAnimation {
                index: path@.points[0].animation_index->Some_0,
                player: old(self)@.animation.player,
            }),
            final(self)@.motion == match start_at {
                Some(t) => MotionModel::Gated { activation_time: t, path: path@ },
                None => MotionModel::Active { path: path@ },
            },
            final(self)@.wf(),
    {
        let first_pos = path.points[0].pos;
        let idx: usize = match path.points[0].animation_index {
            Some(a) => a,
            None => {
                proof {
                    assert(false);
                }
                0
            },
        };
        self.animation = CurrentAnimation { index: idx, player: self.animation.player };
        self.facing = first_pos.sub(self.position);
        self.motion = match start_at {
            Some(t) => MotionState::Gated { activation_time: t, path },
            None => MotionState::Active { path },
        };
    }

    /// Cancel an attached path from outside (the external-removal case).
    /// Mirroring natural completion, this fires exactly one `PathDone`, so
    /// downstream aggregators never wait for an abandoned path.
    pub fn cancel_path(&mut self) -> (events: Vec<MoveEvent>)
        ensures
            final(self)@ == (MoverModel { motion: MotionModel::Idle, ..old(self)@ }),
            events@ == if old(self)@.attached() {
                seq![MoveEvent::PathDone(old(self)@.id)]
            } else {
                Seq::<MoveEvent>::empty()
            },
            old(self)@.wf() ==> final(self)@.wf(),
    {
        let mut events: Vec<MoveEvent> = Vec::new();
        let was_attached = match &self.motion {
            MotionState::Idle => false,
            _ => true,
        };
        if was_attached {
            events.push(MoveEvent::PathDone(self.id));
        }
        self.motion = MotionState::Idle;
        events
    }
}

/// One simulation tick of one entity, exactly as `mover_step_model` says.
pub fn tick_mover(m: &mut Mover, now: u64, dt: u64) -> (events: Vec<MoveEvent>)
    requires
        old(m)@.wf(),
        dt <= DT_LIMIT,
    ensures
        final(m)@ == mover_step_model(old(m)@, now, dt).0,
        events@ == mover_step_model(old(m)@, now, dt).1,
        final(m)@.wf(),
{
    let events: Vec<MoveEvent> = Vec::new();
    let mut motion = MotionState::Idle;
    core::mem::swap(&mut motion, &mut m.motion);
    match motion {
        MotionState::Idle => events,
        MotionState::Gated { activation_time, path } => {
            if activation_time > now {
                m.motion = MotionState::Gated { activation_time, path };
                events
            } else {
                advance_mover(m, path, dt)
            }
        },
        MotionState::Active { path } => advance_mover(m, path, dt),
    }
}

/// The actively-moving case of a tick: snap-and-pop on arrival, else a
/// truncated straight-line step toward the front waypoint.
fn advance_mover(m: &mut Mover, path: MovementPath, dt: u64) -> (events: Vec<MoveEvent>)
    requires
        old(m)@.position.in_bounds(),
        old(m)@.facing.norm_le(2 * POS_LIMIT as int),
        path@.wf(),
        old(m)@.motion is Idle,
        dt <= DT_LIMIT,
    ensures
        final(m)@ == advance_model(
            (MoverModel { motion: MotionModel::Active { path: path@ }, ..old(m)@ }),
            path@,
            dt,
        ).0,
        events@ == advance_model(
            (MoverModel { motion: MotionModel::Active { path: path@ }, ..old(m)@ }),
            path@,
            dt,
        ).1,
        final(m)@.wf(),
{
    let ghost m0 = MoverModel { motion: MotionModel::Active { path: path@ }, ..old(m)@ };
    let mut path = path;
    let mut events: Vec<MoveEvent> = Vec::new();
    let front = path.points[0];
    proof {
        assert(path@.points[0].wf());
    }
    let step = step_len(front.velocity, dt);
    let dsq = m.position.dist_sq(front.pos);
    proof {
        assert((step as i128) * (step as i128) <= 1_000_000_000_000_000_000_000_000
            && dsq <= 12_000_000_000_000_000_000_000_000) by (nonlinear_arith)
            requires
                0 <= step <= POS_LIMIT,
                dsq == (front.pos.x - m.position.x) * (front.pos.x - m.position.x) + (front.pos.y
                    - m.position.y) * (front.pos.y - m.position.y) + (front.pos.z - m.position.z)
                    * (front.pos.z - m.position.z),
                m.position.in_bounds(),
                front.pos.in_bounds(),
        ;
    }
    let step2: i128 = (step as i128) * (step as i128);
    if dsq <= step2 {
        m.position = front.pos;
        events.push(MoveEvent::WaypointReached(m.id));
        path.points.remove(0);
        if path.points.len() == 0 {
            m.animation = CurrentAnimation {
                index: path.finish_animation,
                player: m.animation.player,
            };
            m.facing = path.finish_look_at.sub(m.position);
            m.motion = MotionState::Idle;
            events.push(MoveEvent::PathDone(m.id));
        } else {
            let nxt = path.points[0];
            match nxt.animation_index {
                Some(a) => {
                    m.animation = CurrentAnimation { index: a, player: m.animation.player };
                },
                None => {},
            }
            match nxt.look_to {
                Some(d) => {
                    m.facing = d;
                },
                None => {
                    m.facing = nxt.pos.sub(m.position);
                },
            }
            m.motion = MotionState::Active { path };
        }
        events
    } else {
        proof {
            lemma_step_below_dist(step as int, dsq as nat);
            lemma_sqrt_floor_bounds(dsq as nat);
            if sqrt_floor(dsq as nat) == 0 {
                assert(0nat * 0nat == 0nat && (0nat + 1) * (0nat + 1) == 1nat)
                    by (nonlinear_arith);
                assert(false);
            }
            assert(sqrt_floor(dsq as nat) <= 4_000_000_000_000) by (nonlinear_arith)
                requires
                    (sqrt_floor(dsq as nat) as int) * (sqrt_floor(dsq as nat) as int) <= dsq,
                    dsq <= 12_000_000_000_000_000_000_000_000,
            ;
        }
        let dd = isqrt(dsq as u128);
        m.position = approach(m.position, front.pos, step, dd as i64);
        m.motion = MotionState::Active { path };
        events
    }
}


/// Number of waypoint-reached notifications in an event sequence.
pub open spec fn count_reached(evs: Seq<MoveEvent>) -> int
    decreases evs.len(),
{
    if evs.len() == 0 {
        0
    } else {
        (if evs[0] is WaypointReached {
            1int
        } else {
            0int
        }) + count_reached(evs.drop_first())
    }
}

/// Number of path-completion notifications in an event sequence.
pub open spec fn count_done(evs: Seq<MoveEvent>) -> int
    decreases evs.len(),
{
    if evs.len() == 0 {
        0
    } else {
        (if evs[0] is PathDone {
            1int
        } else {
            0int
        }) + count_done(evs.drop_first())
    }
}

pub proof fn lemma_count_concat(a: Seq<MoveEvent>, b: Seq<MoveEvent>)
    ensures
        count_reached(a + b) == count_reached(a) + count_reached(b),
        count_done(a + b) == count_done(a) + count_done(b),
    decreases a.len(),
{
    if a.len() == 0 {
        assert(a + b =~= b);
    } else {
        assert((a + b).drop_first() =~= a.drop_first() + b);
        lemma_count_concat(a.drop_first(), b);
    }
}

/// One tick never attaches a path, emits one `WaypointReached` per consumed
/// waypoint, and emits one `PathDone` exactly when the path detaches.
pub proof fn lemma_step_conservation(m: MoverModel, now: u64, dt: u64)
    requires
        m.motion.wf(),
    ensures
        ({
            let r = mover_step_model(m, now, dt);
            &&& count_reached(r.1) + r.0.remaining() == m.remaining()
            &&& count_done(r.1) == if m.attached() && !r.0.attached() {
                1int
            } else {
                0int
            }
            &&& r.0.attached() ==> m.attached()
            &&& r.0.id == m.id
            &&& r.0.motion.wf()
        }),
{
    let r = mover_step_model(m, now, dt);
    let empty = Seq::<MoveEvent>::empty();
    assert(count_reached(empty) == 0 && count_done(empty) == 0);
    match m.motion {
        MotionModel::Idle => {},
        MotionModel::Gated { activation_time, path } => {
            if activation_time > now {
            } else {
                lemma_advance_counts(m, path, dt);
            }
        },
        MotionModel::Active { path } => {
            lemma_advance_counts(m, path, dt);
        },
    }
}

proof fn lemma_advance_counts(m: MoverModel, path: PathModel, dt: u64)
    requires
        path.wf(),
    ensures
        ({
            let r = advance_model(m, path, dt);
            &&& count_reached(r.1) + r.0.remaining() == path.points.len()
            &&& count_done(r.1) == if r.0.attached() {
                0int
            } else {
                1int
            }
            &&& r.0.id == m.id
            &&& r.0.motion.wf()
        }),
{
    let r = advance_model(m, path, dt);
    let front = path.points[0];
    let step = step_len_spec(front.velocity as int, dt as int);
    let dsq = m.position.dist_sq_spec(front.pos);
    let empty = Seq::<MoveEvent>::empty();
    assert(count_reached(empty) == 0 && count_done(empty) == 0);
    if dsq <= step * step {
        reveal_with_fuel(count_reached, 3);
        reveal_with_fuel(count_done, 3);
        if path.points.len() == 1 {
            let evs = seq![MoveEvent::WaypointReached(m.id), MoveEvent::PathDone(m.id)];
            assert(evs.drop_first() =~= seq![MoveEvent::PathDone(m.id)]);
            assert(seq![MoveEvent::PathDone(m.id)].drop_first() =~= empty);
            assert(count_reached(evs) == 1);
            assert(count_done(evs) == 1);
        } else {
            let evs = seq![MoveEvent::WaypointReached(m.id)];
            assert(evs.drop_first() =~= empty);
            assert(count_reached(evs) == 1);
            assert(count_done(evs) == 0);
            let rest = PathModel {
                points: path.points.remove(0),
                finish_animation: path.finish_animation,
                finish_look_at: path.finish_look_at,
            };
            assert forall|i: int| 0 <= i < rest.points.len() implies (
            #[trigger] rest.points[i]).wf() by {
                assert(rest.points[i] == path.points[i + 1]);
            };
            assert(rest.wf());
        }
    }
}

/// A whole schedule of `(now, dt)` ticks, run in order.
pub open spec fn run_model(m: MoverModel, ticks: Seq<(u64, u64)>) -> (MoverModel, Seq<MoveEvent>)
    decreases ticks.len(),
{
    if ticks.len() == 0 {
        (m, Seq::empty())
    } else {
        let first = mover_step_model(m, ticks[0].0, ticks[0].1);
        let rest = run_model(first.0, ticks.drop_first());
        (rest.0, first.1 + rest.1)
    }
}

/// Waypoint pops and path completions are conserved over any run of ticks:
/// each consumed waypoint is announced exactly once, a path never grows, and
/// a completion is announced exactly when the path detaches.
pub proof fn lemma_run_conservation(m: MoverModel, ticks: Seq<(u64, u64)>)
    requires
        m.motion.wf(),
    ensures
        ({
            let r = run_model(m, ticks);
            &&& count_reached(r.1) + r.0.remaining() == m.remaining()
            &&& count_done(r.1) == if m.attached() && !r.0.attached() {
                1int
            } else {
                0int
            }
            &&& r.0.attached() ==> m.attached()
            &&& r.0.id == m.id
            &&& r.0.motion.wf()
        }),
    decreases ticks.len(),
{
    if ticks.len() == 0 {
        let empty = Seq::<MoveEvent>::empty();
        assert(count_reached(empty) == 0 && count_done(empty) == 0);
    } else {
        let first = mover_step_model(m, ticks[0].0, ticks[0].1);
        lemma_step_conservation(m, ticks[0].0, ticks[0].1);
        lemma_run_conservation(first.0, ticks.drop_first());
        lemma_count_concat(first.1, run_model(first.0, ticks.drop_first()).1);
    }
}

/// For a path of `N` waypoints, exactly `N` waypoint pops are announced
/// before detachment, and exactly one path-completion event fires per
/// attached path: any run of ticks that ends with the path detached has
/// emitted `N` `WaypointReached` events and one `PathDone` event.
pub proof fn lemma_path_completion_counts(m: MoverModel, ticks: Seq<(u64, u64)>)
    requires
        m.motion.wf(),
        m.attached(),
        !run_model(m, ticks).0.attached(),
    ensures
        count_reached(run_model(m, ticks).1) == m.remaining(),
        count_done(run_model(m, ticks).1) == 1,
{
    lemma_run_conservation(m, ticks);
}

/// Arrival is exact: once the remaining distance is within the step, the
/// position snaps to the front waypoint bit-for-bit; before that, a step
/// stays inside the axis-aligned box spanned by the old position and the
/// waypoint, so the entity never overshoots and never moves away from it.
pub proof fn lemma_arrival_exact(m: MoverModel, path: PathModel, dt: u64)
    requires
        m.position.in_bounds(),
        path.wf(),
        dt <= DT_LIMIT,
    ensures
        ({
            let front = path.points[0];
            let step = step_len_spec(front.velocity as int, dt as int);
            let m2 = advance_model(m, path, dt).0;
            &&& m.position.dist_sq_spec(front.pos) <= step * step ==> m2.position == front.pos
            &&& m.position.dist_sq_spec(front.pos) > step * step ==> {
                &&& between(m.position.x as int, m2.position.x as int, front.pos.x as int)
                &&& between(m.position.y as int, m2.position.y as int, front.pos.y as int)
                &&& between(m.position.z as int, m2.position.z as int, front.pos.z as int)
                &&& m2.position.dist_sq_spec(front.pos) <= m.position.dist_sq_spec(front.pos)
            }
        }),
{
    let front = path.points[0];
    let step = step_len_spec(front.velocity as int, dt as int);
    let dsq = m.position.dist_sq_spec(front.pos);
    let m2 = advance_model(m, path, dt).0;
    assert(path.points[0].wf());
    lemma_step_len_nonneg(front.velocity as int, dt as int);
    if dsq > step * step {
        let n = dsq as nat;
        lemma_sqrt_floor_bounds(n);
        if sqrt_floor(n) == 0 {
            assert(0nat * 0nat == 0nat && (0nat + 1) * (0nat + 1) == 1nat) by (nonlinear_arith);
            assert(false);
        }
        let dd = sqrt_floor(n) as int;
        lemma_step_below_dist(step, n);
        lemma_scaled_within(front.pos.x - m.position.x, step, dd);
        lemma_scaled_within(front.pos.y - m.position.y, step, dd);
        lemma_scaled_within(front.pos.z - m.position.z, step, dd);
        lemma_box_no_overshoot(m.position, m2.position, front.pos);
    }
}


/// Events queued by ticking every mover of a scene once, in entity order.
pub open spec fn queued_events(ms: Seq<Mover>, now: u64, dt: u64) -> Seq<MoveEvent>
    decreases ms.len(),
{
    if ms.len() == 0 {
        Seq::empty()
    } else {
        queued_events(ms.drop_last(), now, dt) + mover_step_model(ms.last()@, now, dt).1
    }
}

/// One simulation tick over every entity carrying (or gated on) a movement
/// path.  Completion events produced during the pass are queued in entity
/// order and handed back for delivery after the movement pass.
pub fn do_moving(movers: &mut Vec<Mover>, now: u64, dt: u64) -> (events: Vec<MoveEvent>)
    requires
        forall|i: int| 0 <= i < old(movers)@.len() ==> (#[trigger] old(movers)@[i])@.wf(),
        dt <= DT_LIMIT,
    ensures
        final(movers)@.len() == old(movers)@.len(),
        forall|i: int|
            0 <= i < old(movers)@.len() ==> (#[trigger] final(movers)@[i])@ == mover_step_model(
                old(movers)@[i]@,
                now,
                dt,
            ).0,
        forall|i: int| 0 <= i < old(movers)@.len() ==> (#[trigger] final(movers)@[i])@.wf(),
        events@ == queued_events(old(movers)@, now, dt),
{
    let ghost orig = movers@;
    let mut events: Vec<MoveEvent> = Vec::new();
    let mut i: usize = 0;
    while i < movers.len()
        invariant
            i <= orig.len(),
            movers@.len() == orig.len(),
            forall|j: int| 0 <= j < orig.len() ==> (#[trigger] orig[j])@.wf(),
            dt <= DT_LIMIT,
            forall|j: int| i <= j < orig.len() ==> #[trigger] movers@[j] == orig[j],
            forall|j: int|
                0 <= j < i ==> (#[trigger] movers@[j])@ == mover_step_model(orig[j]@, now, dt).0
                    && movers@[j]@.wf(),
            events@ == queued_events(orig.take(i as int), now, dt),
        decreases orig.len() - i,
    {
        let mut m = Mover {
            id: 0,
            position: Vec3i { x: 0, y: 0, z: 0 },
            facing: Vec3i { x: 0, y: 0, z: 0 },
            animation: CurrentAnimation { index: 0, player: 0 },
            motion: MotionState::Idle,
        };
        movers.set_and_swap(i, &mut m);
        let mut evs = tick_mover(&mut m, now, dt);
        movers.set_and_swap(i, &mut m);
        events.append(&mut evs);
        proof {
            assert(orig.take(i as int + 1).drop_last() =~= orig.take(i as int));
            assert(orig.take(i as int + 1).last() == orig[i as int]);
        }
        i = i + 1;
    }
    proof {
        assert(orig.take(orig.len() as int) =~= orig);
    }
    events
}


/// Turn an entity on its heel: a half turn about the vertical axis flips the
/// horizontal components of its facing.
pub fn turn_around(m: &mut Mover)
    requires
        old(m)@.facing.norm_le(2 * POS_LIMIT as int),
    ensures
        final(m)@ == (MoverModel {
            facing: (Vec3i {
                x: (-old(m)@.facing.x) as i64,
                y: old(m)@.facing.y,
                z: (-old(m)@.facing.z) as i64,
            }),
            ..old(m)@
        }),
{
    m.facing = Vec3i { x: -m.facing.x, y: m.facing.y, z: -m.facing.z };
}

/// Point the animation slot of every listed entity at the given index (how a
/// narrative beat changes a whole group's stance at once); everything else,
/// and everyone not listed, stays as it was.
pub fn set_animation_all(movers: &mut Vec<Mover>, ids: &Vec<EntityId>, index: usize)
    ensures
        final(movers)@.len() == old(movers)@.len(),
        forall|i: int|
            0 <= i < old(movers)@.len() ==> (#[trigger] final(movers)@[i])@ == if ids@.contains(
                old(movers)@[i].id,
            ) {
                MoverModel {
                    animation: (CurrentAnimation {
                        index,
                        player: old(movers)@[i]@.animation.player,
                    }),
                    ..old(movers)@[i]@
                }
            } else {
                old(movers)@[i]@
            },
{
    let ghost orig = movers@;
    let mut i: usize = 0;
    while i < movers.len()
        invariant
            i <= orig.len(),
            movers@.len() == orig.len(),
            forall|j: int| i <= j < orig.len() ==> #[trigger] movers@[j] == orig[j],
            forall|j: int|
                0 <= j < i ==> (#[trigger] movers@[j])@ == if ids@.contains(orig[j].id) {
                    MoverModel {
                        animation: (CurrentAnimation {
                            index,
                            player: orig[j]@.animation.player,
                        }),
                        ..orig[j]@
                    }
                } else {
                    orig[j]@
                },
        decreases orig.len() - i,
    {
        let id = movers[i].id;
        let mut found = false;
        let mut k: usize = 0;
        while k < ids.len()
            invariant
                k <= ids@.len(),
                found == exists|j: int| 0 <= j < k && ids@[j] == id,
            decreases ids@.len() - k,
        {
            if ids[k] == id {
                found = true;
            }
            k = k + 1;
        }
        if found {
            let mut m = Mover {
                id: 0,
                position: Vec3i { x: 0, y: 0, z: 0 },
                facing: Vec3i { x: 0, y: 0, z: 0 },
                animation: CurrentAnimation { index: 0, player: 0 },
                motion: MotionState::Idle,
            };
            movers.set_and_swap(i, &mut m);
            m.animation = CurrentAnimation { index, player: m.animation.player };
            movers.set_and_swap(i, &mut m);
        }
        i = i + 1;
    }
}

} // verus!
