//! Split-screen camera layout: a single main camera, or one camera per
//! viewport of a split configuration.  Viewport geometry is kept in permille
//! of the window so the pixel mapping is exact.

use vstd::prelude::*;

verus! {

use crate::camera_target::{CameraRig, CameraTarget};
use crate::geom::{Vec3i, SCALE};

/// Whether the scene is rendered through one camera or a split layout.
#[derive(Clone, Copy, Debug, PartialEq, Eq, Hash, Default, Structural)]
pub enum CameraState {
    #[default]
    Single,
    Splitted,
}

/// A viewport's normalized start offset and size, in permille of the window.
#[derive(Clone, Copy, Debug, PartialEq, Eq)]
pub struct ViewportGeom {
    pub start: (u32, u32),
    pub size: (u32, u32),
}

impl ViewportGeom {
    pub open spec fn wf(self) -> bool {
        &&& self.start.0 <= 1000 && self.start.1 <= 1000
        &&& self.size.0 <= 1000 && self.size.1 <= 1000
    }
}

/// A pixel-space viewport: physical position and size.
#[derive(Clone, Copy, Debug, PartialEq, Eq)]
pub struct Viewport {
    pub pos: (u32, u32),
    pub size: (u32, u32),
}

/// A requested split layout: one camera per entry, each with its target
/// descriptor and its share of the window.
#[derive(Debug)]
pub struct CameraSplitConf(pub Vec<(CameraTarget, ViewportGeom)>);

/// A window dimension scaled by a permille fraction, truncated to whole
/// pixels.
pub open spec fn scale_dim_spec(a: u32, b: u32) -> u32 {
    ((a * b) / 1000) as u32
}

fn scale_dim(a: u32, b: u32) -> (r: u32)
    requires
        b <= 1000,
    ensures
        r == scale_dim_spec(a, b),
{
    proof {
        assert(a as u64 * b as u64 <= 0xffffffffu64 * 1000) by (nonlinear_arith)
            requires
                0 <= a <= 0xffffffffu64,
                0 <= b <= 1000,
        ;
        assert((a as int * b as int) / 1000 <= a as int) by (nonlinear_arith)
            requires
                0 <= a,
                0 <= b <= 1000,
        ;
    }
    ((a as u64 * b as u64) / 1000) as u32
}

/// A viewport's pixel rectangle inside a window of the given physical size.
pub open spec fn scale_spec(wsize: (u32, u32), g: ViewportGeom) -> Viewport {
    Viewport {
        pos: (scale_dim_spec(wsize.0, g.start.0), scale_dim_spec(wsize.1, g.start.1)),
        size: (scale_dim_spec(wsize.0, g.size.0), scale_dim_spec(wsize.1, g.size.1)),
    }
}

pub fn scale(wsize: (u32, u32), g: ViewportGeom) -> (v: Viewport)
    requires
        g.wf(),
    ensures
        v == scale_spec(wsize, g),
{
    Viewport {
        pos: (scale_dim(wsize.0, g.start.0), scale_dim(wsize.1, g.start.1)),
        size: (scale_dim(wsize.0, g.size.0), scale_dim(wsize.1, g.size.1)),
    }
}

/// The single main camera of the unsplit scene, perched above the origin and
/// looking down at it.
pub fn main_camera() -> (cam: CameraRig)
    ensures
        cam == (CameraRig {
            order: 0isize,
            position: Vec3i { x: 0, y: 50_000, z: 50_000 },
            facing: Vec3i { x: 0, y: -50_000i64, z: -50_000i64 },
            target: None,
        }),
        cam.wf(),
{
    CameraRig {
        order: 0,
        position: Vec3i { x: 0, y: 50_000, z: 50_000 },
        facing: Vec3i { x: 0, y: -50_000i64, z: -50_000i64 },
        target: None,
    }
}

/// Apply a split configuration: the current cameras are torn down and one
/// camera per entry takes their place, its render order the entry index and
/// its descriptor attached; the viewports are handed back alongside.  A split
/// on an already split scene is a scene-authoring error, ruled out here.
pub fn split(cams: &mut Vec<CameraRig>, conf: &CameraSplitConf, state: CameraState) -> (r: (
    CameraState,
    Vec<ViewportGeom>,
))
    requires
        state is Single,
        conf.0@.len() <= 0x7fff_ffff,
    ensures
        r.0 is Splitted,
        final(cams)@.len() == conf.0@.len(),
        r.1@.len() == conf.0@.len(),
        forall|i: int|
            0 <= i < conf.0@.len() ==> #[trigger] final(cams)@[i] == (CameraRig {
                order: i as isize,
                position: Vec3i { x: 0, y: 0, z: 0 },
                facing: Vec3i { x: 0, y: 0, z: -1_000i64 },
                target: Some(conf.0@[i].0),
            }),
        forall|i: int| 0 <= i < conf.0@.len() ==> #[trigger] r.1@[i] == conf.0@[i].1,
{
    let mut new_cams: Vec<CameraRig> = Vec::new();
    let mut viewports: Vec<ViewportGeom> = Vec::new();
    let mut i: usize = 0;
    while i < conf.0.len()
        invariant
            i <= conf.0@.len(),
            conf.0@.len() <= 0x7fff_ffff,
            new_cams@.len() == i,
            viewports@.len() == i,
            forall|j: int|
                0 <= j < i ==> #[trigger] new_cams@[j] == (CameraRig {
                    order: j as isize,
                    position: Vec3i { x: 0, y: 0, z: 0 },
                    facing: Vec3i { x: 0, y: 0, z: -1_000i64 },
                    target: Some(conf.0@[j].0),
                }),
            forall|j: int| 0 <= j < i ==> #[trigger] viewports@[j] == conf.0@[j].1,
        decreases conf.0@.len() - i,
    {
        let (target, geom) = conf.0[i];
        new_cams.push(
            CameraRig {
                order: i as isize,
                position: Vec3i { x: 0, y: 0, z: 0 },
                facing: Vec3i { x: 0, y: 0, z: -1_000i64 },
                target: Some(target),
            },
        );
        viewports.push(geom);
        i = i + 1;
    }
    let mut replaced = new_cams;
    core::mem::swap(cams, &mut replaced);
    (CameraState::Splitted, viewports)
}

/// Tear a split layout down: the split cameras are despawned and the single
/// main camera comes back.  An unsplit of an unsplit scene is a
/// scene-authoring error, ruled out here.
pub fn unsplit(cams: &mut Vec<CameraRig>, state: CameraState) -> (r: CameraState)
    requires
        state is Splitted,
    ensures
        r is Single,
        final(cams)@.len() == 1,
        final(cams)@[0] == (CameraRig {
            order: 0isize,
            position: Vec3i { x: 0, y: 50_000, z: 50_000 },
            facing: Vec3i { x: 0, y: -50_000i64, z: -50_000i64 },
            target: None,
        }),
{
    let mut fresh: Vec<CameraRig> = Vec::new();
    fresh.push(main_camera());
    core::mem::swap(cams, &mut fresh);
    CameraState::Single
}

/// Recompute every split viewport's pixel rectangle after a window resize.
pub fn set_camera_viewports(geoms: &Vec<ViewportGeom>, wsize: (u32, u32)) -> (rects: Vec<Viewport>)
    requires
        forall|i: int| 0 <= i < geoms@.len() ==> (#[trigger] geoms@[i]).wf(),
    ensures
        rects@.len() == geoms@.len(),
        forall|i: int|
            0 <= i < geoms@.len() ==> #[trigger] rects@[i] == scale_spec(wsize, geoms@[i]),
{
    let mut rects: Vec<Viewport> = Vec::new();
    let mut i: usize = 0;
    while i < geoms.len()
        invariant
            i <= geoms@.len(),
            rects@.len() == i,
            forall|j: int| 0 <= j < geoms@.len() ==> (#[trigger] geoms@[j]).wf(),
            forall|j: int| 0 <= j < i ==> #[trigger] rects@[j] == scale_spec(wsize, geoms@[j]),
        decreases geoms@.len() - i,
    {
        rects.push(scale(wsize, geoms[i]));
        i = i + 1;
    }
    rects
}

} // verus!
