//! Declarative camera targeting: each camera carries a target descriptor
//! (follow an entity or a fixed point, with bias offsets and an optional
//! fixed look direction) and is steered toward the resolved goal every tick,
//! with easing or at constant speed, while its facing blends toward the aim.

use vstd::prelude::*;

verus! {

use vstd::pervasive::VecAdditionalExecFns;

use crate::geom::{
    add_clamped, add_clamped_spec, approach, approach_vec_spec, cross, cross_spec, dash,
    dash_spec, dash_step, dash_step_spec, div_scale, div_scale_spec, div_trunc, div_trunc_spec,
    lemma_box_no_overshoot, lemma_cross_bound, lemma_div_trunc_mag, lemma_scaled_within,
    lemma_step_len_nonneg, step_len, step_len_spec, unit_dir, unit_dir_spec, Vec3i, DIR_LIMIT,
    DT_LIMIT, POS_LIMIT, SCALE, VEL_LIMIT,
};
use crate::movement::{EntityId, Mover};

/// What a camera follows: a live entity or a fixed world point.  Exactly one
/// of the two, by construction.
#[derive(Clone, Copy, Debug, PartialEq, Eq, Structural)]
pub enum TargetRef {
    Entity(EntityId),
    Position(Vec3i),
}

/// A camera's target descriptor.  Replaced wholesale whenever a new targeting
/// request is issued; a camera with no descriptor simply does not move.
#[derive(Clone, Copy, Debug, PartialEq, Eq, Structural)]
pub struct CameraTarget {
    pub easing: bool,
    pub target: TargetRef,
    pub direction: Option<Vec3i>,
    pub translation_bias: Vec3i,
    pub rotation_bias: Vec3i,
    pub velocity: i64,
}

/// Default follow rate: five units per second.
pub const DEFAULT_FOLLOW_VELOCITY: i64 = 5_000;

impl CameraTarget {
    pub open spec fn wf(self) -> bool {
        &&& 0 <= self.velocity <= VEL_LIMIT
        &&& self.translation_bias.norm_le(DIR_LIMIT as int)
        &&& self.rotation_bias.norm_le(DIR_LIMIT as int)
        &&& match self.direction {
            Some(d) => d.in_bounds(),
            None => true,
        }
        &&& match self.target {
            TargetRef::Position(p) => p.in_bounds(),
            TargetRef::Entity(_) => true,
        }
    }

    /// The base descriptor every builder starts from: easing on, no fixed
    /// look direction, no biases, default follow rate.
    pub open spec fn base_spec(target: TargetRef) -> CameraTarget {
        CameraTarget {
            easing: true,
            target,
            direction: None,
            translation_bias: Vec3i { x: 0, y: 0, z: 0 },
            rotation_bias: Vec3i { x: 0, y: 0, z: 0 },
            velocity: DEFAULT_FOLLOW_VELOCITY,
        }
    }

    pub fn from_entity(e: EntityId) -> (t: CameraTarget)
        ensures
            t == Self::base_spec(TargetRef::Entity(e)),
    {
        CameraTarget {
            easing: true,
            target: TargetRef::Entity(e),
            direction: None,
            translation_bias: Vec3i { x: 0, y: 0, z: 0 },
            rotation_bias: Vec3i { x: 0, y: 0, z: 0 },
            velocity: DEFAULT_FOLLOW_VELOCITY,
        }
    }

    pub fn from_position(p: Vec3i) -> (t: CameraTarget)
        ensures
            t == Self::base_spec(TargetRef::Position(p)),
    {
        CameraTarget {
            easing: true,
            target: TargetRef::Position(p),
            direction: None,
            translation_bias: Vec3i { x: 0, y: 0, z: 0 },
            rotation_bias: Vec3i { x: 0, y: 0, z: 0 },
            velocity: DEFAULT_FOLLOW_VELOCITY,
        }
    }

    pub fn set_position(&mut self, p: Vec3i)
        ensures
            *final(self) == (CameraTarget { target: TargetRef::Position(p), ..*old(self) }),
    {
        self.target = TargetRef::Position(p);
    }

    pub fn with_direction(self, d: Vec3i) -> (t: CameraTarget)
        ensures
            t == (CameraTarget { direction: Some(d), ..self }),
    {
        CameraTarget { direction: Some(d), ..self }
    }

    pub fn set_direction(&mut self, d: Vec3i)
        ensures
            *final(self) == (CameraTarget { direction: Some(d), ..*old(self) }),
    {
        self.direction = Some(d);
    }

    pub fn with_translation_bias(self, b: Vec3i) -> (t: CameraTarget)
        ensures
            t == (CameraTarget { translation_bias: b, ..self }),
    {
        CameraTarget { translation_bias: b, ..self }
    }

    pub fn with_rotation_bias(self, b: Vec3i) -> (t: CameraTarget)
        ensures
            t == (CameraTarget { rotation_bias: b, ..self }),
    {
        CameraTarget { rotation_bias: b, ..self }
    }

    pub fn with_velocity(self, v: i64) -> (t: CameraTarget)
        ensures
            t == (CameraTarget { velocity: v, ..self }),
    {
        CameraTarget { velocity: v, ..self }
    }

    pub fn with_easing(self, e: bool) -> (t: CameraTarget)
        ensures
            t == (CameraTarget { easing: e, ..self }),
    {
        CameraTarget { easing: e, ..self }
    }
}

/// A point-in-time targeting request: the descriptor and the ordinal slot
/// (render order) of the camera it is for.
#[derive(Clone, Copy, Debug)]
pub struct SetCameraTarget(pub CameraTarget, pub isize);

/// A camera of the scene: its render order (the slot targeting requests
/// name), its transform, and the descriptor currently attached to it.
#[derive(Clone, Copy, Debug)]
pub struct CameraRig {
    pub order: isize,
    pub position: Vec3i,
    pub facing: Vec3i,
    pub target: Option<CameraTarget>,
}

impl CameraRig {
    pub open spec fn wf(self) -> bool {
        &&& self.position.in_bounds()
        &&& self.facing.norm_le(4 * POS_LIMIT as int)
        &&& match self.target {
            Some(t) => t.wf(),
            None => true,
        }
    }
}

/// Index of the first camera with the given render order.
pub open spec fn first_with_order(cams: Seq<CameraRig>, slot: isize) -> Option<int>
    decreases cams.len(),
{
    if cams.len() == 0 {
        None
    } else if cams[0].order == slot {
        Some(0)
    } else {
        match first_with_order(cams.drop_first(), slot) {
            Some(i) => Some(i + 1),
            None => None,
        }
    }
}

proof fn lemma_first_with_order_found(cams: Seq<CameraRig>, slot: isize, i: int)
    requires
        0 <= i < cams.len(),
        cams[i].order == slot,
        forall|j: int| 0 <= j < i ==> (#[trigger] cams[j]).order != slot,
    ensures
        first_with_order(cams, slot) == Some(i),
    decreases i,
{
    if i == 0 {
    } else {
        assert(forall|j: int|
            0 <= j < i - 1 ==> (#[trigger] cams.drop_first()[j]).order != slot);
        lemma_first_with_order_found(cams.drop_first(), slot, i - 1);
    }
}

proof fn lemma_first_with_order_none(cams: Seq<CameraRig>, slot: isize)
    requires
        forall|j: int| 0 <= j < cams.len() ==> (#[trigger] cams[j]).order != slot,
    ensures
        first_with_order(cams, slot) is None,
    decreases cams.len(),
{
    if cams.len() > 0 {
        assert(forall|j: int|
            0 <= j < cams.len() - 1 ==> (#[trigger] cams.drop_first()[j]).order != slot);
        lemma_first_with_order_none(cams.drop_first(), slot);
    }
}

/// Resolve a targeting request (the `requestCameraTarget` command): the first
/// camera whose render order equals the requested slot gets the descriptor,
/// replaced wholesale; every other camera is untouched.  A request naming a
/// slot no camera has is dropped.
pub fn set_target(cams: &mut Vec<CameraRig>, req: SetCameraTarget)
    ensures
        final(cams)@.len() == old(cams)@.len(),
        forall|i: int|
            0 <= i < old(cams)@.len() ==> #[trigger] final(cams)@[i] == if Some(i)
                == first_with_order(old(cams)@, req.1) {
                (CameraRig { target: Some(req.0), ..old(cams)@[i] })
            } else {
                old(cams)@[i]
            },
{
    let ghost orig = cams@;
    let mut i: usize = 0;
    while i < cams.len()
        invariant
            i <= orig.len(),
            orig == old(cams)@,
            cams@ == orig,
            forall|j: int| 0 <= j < i ==> (#[trigger] orig[j]).order != req.1,
        decreases orig.len() - i,
    {
        let cur = cams[i];
        if cur.order == req.1 {
            cams.set(i, CameraRig { target: Some(req.0), ..cur });
            proof {
                lemma_first_with_order_found(orig, req.1, i as int);
            }
            return ;
        }
        i = i + 1;
    }
    proof {
        lemma_first_with_order_none(orig, req.1);
    }
}

/// Index of the first mover with the given entity id.
pub open spec fn first_with_id(movers: Seq<Mover>, id: EntityId) -> Option<int>
    decreases movers.len(),
{
    if movers.len() == 0 {
        None
    } else if movers[0].id == id {
        Some(0)
    } else {
        match first_with_id(movers.drop_first(), id) {
            Some(i) => Some(i + 1),
            None => None,
        }
    }
}

proof fn lemma_first_with_id_found(movers: Seq<Mover>, id: EntityId, i: int)
    requires
        0 <= i < movers.len(),
        movers[i].id == id,
        forall|j: int| 0 <= j < i ==> (#[trigger] movers[j]).id != id,
    ensures
        first_with_id(movers, id) == Some(i),
    decreases i,
{
    if i > 0 {
        assert(forall|j: int| 0 <= j < i - 1 ==> (#[trigger] movers.drop_first()[j]).id != id);
        lemma_first_with_id_found(movers.drop_first(), id, i - 1);
    }
}

proof fn lemma_first_with_id_none(movers: Seq<Mover>, id: EntityId)
    requires
        forall|j: int| 0 <= j < movers.len() ==> (#[trigger] movers[j]).id != id,
    ensures
        first_with_id(movers, id) is None,
    decreases movers.len(),
{
    if movers.len() > 0 {
        assert(forall|j: int|
            0 <= j < movers.len() - 1 ==> (#[trigger] movers.drop_first()[j]).id != id);
        lemma_first_with_id_none(movers.drop_first(), id);
    }
}

proof fn lemma_first_with_id_range(movers: Seq<Mover>, id: EntityId)
    ensures
        match first_with_id(movers, id) {
            Some(i) => 0 <= i < movers.len(),
            None => true,
        },
    decreases movers.len(),
{
    if movers.len() > 0 && movers[0].id != id {
        lemma_first_with_id_range(movers.drop_first(), id);
    }
}

/// Transform of the first mover with the given id, if it still exists.
fn find_transform(movers: &Vec<Mover>, id: EntityId) -> (r: Option<(Vec3i, Vec3i)>)
    ensures
        r == match first_with_id(movers@, id) {
            Some(i) => Some((movers@[i].position, movers@[i].facing)),
            None => None::<(Vec3i, Vec3i)>,
        },
{
    let mut i: usize = 0;
    while i < movers.len()
        invariant
            i <= movers@.len(),
            forall|j: int| 0 <= j < i ==> (#[trigger] movers@[j]).id != id,
        decreases movers@.len() - i,
    {
        if movers[i].id == id {
            proof {
                lemma_first_with_id_found(movers@, id, i as int);
            }
            return Some((movers[i].position, movers[i].facing));
        }
        i = i + 1;
    }
    proof {
        lemma_first_with_id_none(movers@, id);
    }
    None
}

/// A bias expressed in an entity's local axes, as a world offset.  The local
/// frame is derived from the facing direction and the world up axis: forward
/// is the unit facing, right is `forward x up`, up is `right x forward`, each
/// at unit scale; the offset is the bias-weighted sum of the axes.  An entity
/// with no facing direction has no frame, and the bias vanishes.
pub open spec fn frame_offset_spec(facing: Vec3i, bias: Vec3i) -> Vec3i {
    let f = unit_dir_spec(facing);
    let r = div_scale_spec(cross_spec(f, up_axis()));
    let u = div_scale_spec(cross_spec(r, f));
    Vec3i {
        x: div_trunc_spec(r.x * bias.x + u.x * bias.y + f.x * bias.z, SCALE as int) as i64,
        y: div_trunc_spec(r.y * bias.x + u.y * bias.y + f.y * bias.z, SCALE as int) as i64,
        z: div_trunc_spec(r.z * bias.x + u.z * bias.y + f.z * bias.z, SCALE as int) as i64,
    }
}

/// The world up direction, at unit scale.
pub open spec fn up_axis() -> Vec3i {
    Vec3i { x: 0, y: SCALE, z: 0 }
}

fn combine_axis(r: i64, u: i64, f: i64, bias: Vec3i) -> (c: i64)
    requires
        -100_000 <= r <= 100_000,
        -100_000 <= u <= 100_000,
        -100_000 <= f <= 100_000,
        bias.norm_le(DIR_LIMIT as int),
    ensures
        c == div_trunc_spec(r * bias.x + u * bias.y + f * bias.z, SCALE as int) as i64,
        -100_000_000_000 <= c <= 100_000_000_000,
{
    proof {
        assert(-300_000_000_000 <= r * bias.x + u * bias.y + f * bias.z <= 300_000_000_000
            && -100_000_000_000 <= r * bias.x <= 100_000_000_000 && -100_000_000_000 <= u * bias.y
            <= 100_000_000_000 && -100_000_000_000 <= f * bias.z <= 100_000_000_000)
            by (nonlinear_arith)
            requires
                -100_000 <= r <= 100_000,
                -100_000 <= u <= 100_000,
                -100_000 <= f <= 100_000,
                bias.norm_le(DIR_LIMIT as int),
        ;
        lemma_div_trunc_mag(
            r as int * bias.x + u as int * bias.y + f as int * bias.z,
            300_000_000_000,
            SCALE as int,
        );
    }
    let s: i128 = r as i128 * bias.x as i128 + u as i128 * bias.y as i128 + f as i128
        * bias.z as i128;
    div_trunc(s, SCALE as i128) as i64
}

fn frame_offset(facing: Vec3i, bias: Vec3i) -> (o: Vec3i)
    requires
        facing.norm_le(4 * POS_LIMIT as int),
        bias.norm_le(DIR_LIMIT as int),
    ensures
        o == frame_offset_spec(facing, bias),
        o.norm_le(100_000_000_000),
{
    let f = unit_dir(facing);
    let up = Vec3i { x: 0, y: SCALE, z: 0 };
    let r_raw = cross(f, up);
    proof {
        lemma_cross_bound(f, up, SCALE as int);
        lemma_div_trunc_mag(r_raw.x as int, 2_000_000, SCALE as int);
        lemma_div_trunc_mag(r_raw.y as int, 2_000_000, SCALE as int);
        lemma_div_trunc_mag(r_raw.z as int, 2_000_000, SCALE as int);
    }
    let r = div_scale(r_raw);
    let u_raw = cross(r, f);
    proof {
        lemma_cross_bound(r, f, 2_000);
        lemma_div_trunc_mag(u_raw.x as int, 8_000_000, SCALE as int);
        lemma_div_trunc_mag(u_raw.y as int, 8_000_000, SCALE as int);
        lemma_div_trunc_mag(u_raw.z as int, 8_000_000, SCALE as int);
    }
    let u = div_scale(u_raw);
    Vec3i {
        x: combine_axis(r.x, u.x, f.x, bias),
        y: combine_axis(r.y, u.y, f.y, bias),
        z: combine_axis(r.z, u.z, f.z, bias),
    }
}

/// The goal position and aim point a descriptor resolves to this tick:
/// an entity's transform with the biases in its local axes, or a fixed point
/// with the biases in world axes.  A stale entity reference resolves to
/// nothing and the camera is skipped for the tick.
pub open spec fn resolve_spec(t: CameraTarget, movers: Seq<Mover>) -> Option<(Vec3i, Vec3i)> {
    match t.target {
        TargetRef::Position(p) => Some(
            (add_clamped_spec(p, t.translation_bias), add_clamped_spec(p, t.rotation_bias)),
        ),
        TargetRef::Entity(e) => match first_with_id(movers, e) {
            Some(i) => Some(
                (
                    add_clamped_spec(
                        movers[i].position,
                        frame_offset_spec(movers[i].facing, t.translation_bias),
                    ),
                    add_clamped_spec(
                        movers[i].position,
                        frame_offset_spec(movers[i].facing, t.rotation_bias),
                    ),
                ),
            ),
            None => None,
        },
    }
}

/// Easing follow rate for one tick, as a fraction of `SCALE`, saturated at
/// one: the exponential-decay-style approach never overshoots.
pub open spec fn ease_rate_spec(velocity: int, dt: int) -> int {
    let r = step_len_spec(velocity, dt);
    if r > SCALE {
        SCALE as int
    } else {
        r
    }
}

/// Orientation blend rate for one tick, a fixed five units per second,
/// saturated at one.
pub open spec fn orient_rate_spec(dt: int) -> int {
    if 5 * dt > SCALE {
        SCALE as int
    } else {
        5 * dt
    }
}

/// One follow tick of one camera: where it ends up and where it faces.
pub open spec fn follow_model(cam: CameraRig, movers: Seq<Mover>, dt: u64) -> CameraRig {
    match cam.target {
        None => cam,
        Some(t) => match resolve_spec(t, movers) {
            None => cam,
            Some(goal_aim) => {
                let goal = goal_aim.0;
                let aim = goal_aim.1;
                let pos2 = if t.easing {
                    approach_vec_spec(
                        cam.position,
                        goal,
                        ease_rate_spec(t.velocity as int, dt as int),
                        SCALE as int,
                    )
                } else {
                    dash_spec(cam.position, goal, dash_step_spec(t.velocity as int, dt as int))
                };
                let aim_dir = match t.direction {
                    Some(d) => unit_dir_spec(d),
                    None => unit_dir_spec(
                        Vec3i {
                            x: (aim.x - pos2.x) as i64,
                            y: (aim.y - pos2.y) as i64,
                            z: (aim.z - pos2.z) as i64,
                        },
                    ),
                };
                let facing2 = approach_vec_spec(
                    unit_dir_spec(cam.facing),
                    aim_dir,
                    orient_rate_spec(dt as int),
                    SCALE as int,
                );
                CameraRig { position: pos2, facing: facing2, ..cam }
            },
        },
    }
}

/// One follow tick of one camera, exactly as `follow_model` says.
pub fn follow_camera(cam: &mut CameraRig, movers: &Vec<Mover>, dt: u64)
    requires
        old(cam).wf(),
        forall|i: int| 0 <= i < movers@.len() ==> (#[trigger] movers@[i])@.wf(),
        dt <= DT_LIMIT,
    ensures
        *final(cam) == follow_model(*old(cam), movers@, dt),
        final(cam).wf(),
{
    let t = match &cam.target {
        None => {
            return ;
        },
        Some(t) => *t,
    };
    let resolved: (Vec3i, Vec3i) = match t.target {
        TargetRef::Position(p) => {
            (add_clamped(p, t.translation_bias), add_clamped(p, t.rotation_bias))
        },
        TargetRef::Entity(e) => {
            match find_transform(movers, e) {
                None => {
                    return ;
                },
                Some((pos, facing)) => {
                    proof {
                        lemma_first_with_id_range(movers@, e);
                    }
                    (
                        add_clamped(pos, frame_offset(facing, t.translation_bias)),
                        add_clamped(pos, frame_offset(facing, t.rotation_bias)),
                    )
                },
            }
        },
    };
    let goal = resolved.0;
    let aim = resolved.1;
    let pos2 = if t.easing {
        let r = step_len(t.velocity, dt);
        let rate = if r > SCALE {
            SCALE
        } else {
            r
        };
        approach(cam.position, goal, rate, SCALE)
    } else {
        let stp = dash_step(t.velocity, dt);
        dash(cam.position, goal, stp)
    };
    let aim_dir = match t.direction {
        Some(d) => unit_dir(d),
        None => unit_dir(aim.sub(pos2)),
    };
    let rate = if 5 * (dt as i64) > SCALE {
        SCALE
    } else {
        5 * (dt as i64)
    };
    let facing2 = approach(unit_dir(cam.facing), aim_dir, rate, SCALE);
    cam.position = pos2;
    cam.facing = facing2;
}

/// One follow tick over every camera; each camera updates independently from
/// whatever descriptor is currently attached to it.
pub fn follow(cams: &mut Vec<CameraRig>, movers: &Vec<Mover>, dt: u64)
    requires
        forall|i: int| 0 <= i < old(cams)@.len() ==> (#[trigger] old(cams)@[i]).wf(),
        forall|i: int| 0 <= i < movers@.len() ==> (#[trigger] movers@[i])@.wf(),
        dt <= DT_LIMIT,
    ensures
        final(cams)@.len() == old(cams)@.len(),
        forall|i: int|
            0 <= i < old(cams)@.len() ==> #[trigger] final(cams)@[i] == follow_model(
                old(cams)@[i],
                movers@,
                dt,
            ),
        forall|i: int| 0 <= i < old(cams)@.len() ==> (#[trigger] final(cams)@[i]).wf(),
{
    let ghost orig = cams@;
    let mut i: usize = 0;
    while i < cams.len()
        invariant
            i <= orig.len(),
            cams@.len() == orig.len(),
            dt <= DT_LIMIT,
            forall|j: int| 0 <= j < movers@.len() ==> (#[trigger] movers@[j])@.wf(),
            forall|j: int| 0 <= j < orig.len() ==> (#[trigger] orig[j]).wf(),
            forall|j: int| i <= j < orig.len() ==> #[trigger] cams@[j] == orig[j],
            forall|j: int|
                0 <= j < i ==> #[trigger] cams@[j] == follow_model(orig[j], movers@, dt)
                    && cams@[j].wf(),
        decreases orig.len() - i,
    {
        let mut cam = cams[i];
        follow_camera(&mut cam, movers, dt);
        cams.set(i, cam);
        i = i + 1;
    }
}

/// With easing on, a follow tick never overshoots: the camera's distance to
/// the resolved goal position never increases while the target stands still.
pub proof fn lemma_easing_never_overshoots(cam: CameraRig, movers: Seq<Mover>, dt: u64)
    requires
        cam.wf(),
        cam.target is Some,
        cam.target->Some_0.easing,
        resolve_spec(cam.target->Some_0, movers) is Some,
    ensures
        ({
            let goal = resolve_spec(cam.target->Some_0, movers)->Some_0.0;
            follow_model(cam, movers, dt).position.dist_sq_spec(goal)
                <= cam.position.dist_sq_spec(goal)
        }),
{
    let t = cam.target->Some_0;
    let goal = resolve_spec(t, movers)->Some_0.0;
    let rate = ease_rate_spec(t.velocity as int, dt as int);
    lemma_step_len_nonneg(t.velocity as int, dt as int);
    lemma_scaled_within(goal.x - cam.position.x, rate, SCALE as int);
    lemma_scaled_within(goal.y - cam.position.y, rate, SCALE as int);
    lemma_scaled_within(goal.z - cam.position.z, rate, SCALE as int);
    let pos2 = follow_model(cam, movers, dt).position;
    lemma_box_no_overshoot(cam.position, pos2, goal);
}

} // verus!
