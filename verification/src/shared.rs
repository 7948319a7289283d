//! Random placement helpers shared by the crowd spawners.

use vstd::prelude::*;

verus! {

use crate::geom::{Vec3i, POS_LIMIT};

/// Relies on `fastrand::i64`: a value from the thread-local generator, always
/// inside the given inclusive range; the crate panics only on an empty range,
/// which the precondition rules out.
#[verifier::external_body]
pub(crate) fn rand_i64(lo: i64, hi: i64) -> (r: i64)
    requires
        lo <= hi,
    ensures
        lo <= r <= hi,
{
    fastrand::i64(lo..=hi)
}

/// Relies on `fastrand::usize`: an index below the given bound; the crate
/// panics only on an empty range, which the precondition rules out.
#[verifier::external_body]
pub(crate) fn rand_index(len: usize) -> (r: usize)
    requires
        len > 0,
    ensures
        r < len,
{
    fastrand::usize(0..len)
}

/// A point jittered around `base`: the x and z coordinates each move by at
/// most `quant`, the height stays.
pub fn random_pos(base: Vec3i, quant: i64) -> (p: Vec3i)
    requires
        0 <= quant <= POS_LIMIT,
        base.norm_le(POS_LIMIT - quant),
    ensures
        base.x - quant <= p.x <= base.x + quant,
        p.y == base.y,
        base.z - quant <= p.z <= base.z + quant,
        p.in_bounds(),
{
    let dx = rand_i64(-quant, quant);
    let dz = rand_i64(-quant, quant);
    Vec3i { x: base.x + dx, y: base.y, z: base.z + dz }
}

} // verus!
