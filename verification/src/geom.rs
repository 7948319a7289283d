//! Fixed-point geometry: 3D integer vectors, squared distances, an exact
//! integer square root, and the truncating "advance toward a point" rule that
//! both the movement engine and the camera follower are specified with.

use vstd::prelude::*;

verus! {

use vstd::arithmetic::div_mod::lemma_div_is_ordered;
use vstd::arithmetic::div_mod::lemma_div_by_multiple;
use vstd::arithmetic::div_mod::lemma_div_pos_is_pos;
use vstd::arithmetic::div_mod::lemma_div_nonincreasing;

/// One world unit, in fixed-point coordinate steps.
pub const SCALE: i64 = 1000;

/// Milliseconds per second: velocities are steps per second, tick lengths
/// are milliseconds.
pub const MILLIS: i64 = 1000;

/// Every world coordinate stays within this bound (one billion units).
pub const POS_LIMIT: i64 = 1_000_000_000_000;

/// Direction vectors handed to [`Vec3i::scaled_by`] stay within this bound
/// (a thousand units), so a scaled direction stays a legal coordinate.
pub const DIR_LIMIT: i64 = 1_000_000;

/// Speeds are limited to this many steps per second (one million units/s).
pub const VEL_LIMIT: i64 = 1_000_000_000;

/// A single tick never covers more than this many milliseconds.
pub const DT_LIMIT: u64 = 1_000_000;

/// Truncating division (round toward zero), the rounding rule every scaled
/// update in this crate uses.  Meaningful only for `d > 0`.
pub open spec fn div_trunc_spec(a: int, d: int) -> int {
    if a >= 0 {
        a / d
    } else {
        -((-a) / d)
    }
}

/// Floor of the square root, defined by counting up.
pub open spec fn sqrt_floor(n: nat) -> nat
    decreases n,
{
    if n == 0 {
        0
    } else {
        let r = sqrt_floor((n - 1) as nat);
        if (r + 1) * (r + 1) <= n {
            r + 1
        } else {
            r
        }
    }
}

pub proof fn lemma_sqrt_floor_bounds(n: nat)
    ensures
        sqrt_floor(n) * sqrt_floor(n) <= n,
        n < (sqrt_floor(n) + 1) * (sqrt_floor(n) + 1),
    decreases n,
{
    if n > 0 {
        lemma_sqrt_floor_bounds((n - 1) as nat);
        let r = sqrt_floor((n - 1) as nat);
        if (r + 1) * (r + 1) <= n {
            assert(n == (r + 1) * (r + 1));
            assert((r + 1) * (r + 1) < (r + 2) * (r + 2)) by (nonlinear_arith);
        }
        let s = sqrt_floor(n);
        assert(s * s <= n);
        assert(n < (s + 1) * (s + 1));
    } else {
        assert(0nat * 0nat == 0nat && (0nat + 1) * (0nat + 1) == 1nat) by (nonlinear_arith);
    }
}

/// The square root floor is the unique `r` with `r * r <= n < (r + 1) * (r + 1)`.
pub proof fn lemma_sqrt_floor_unique(n: nat, r: nat)
    requires
        r * r <= n,
        n < (r + 1) * (r + 1),
    ensures
        r == sqrt_floor(n),
{
    lemma_sqrt_floor_bounds(n);
    let s = sqrt_floor(n);
    if r < s {
        assert((r + 1) * (r + 1) <= s * s) by (nonlinear_arith)
            requires
                r + 1 <= s,
        ;
    }
    if s < r {
        assert((s + 1) * (s + 1) <= r * r) by (nonlinear_arith)
            requires
                s + 1 <= r,
        ;
    }
}

/// Squares are monotone over magnitudes.
pub proof fn lemma_square_le(a: int, b: int)
    requires
        -b <= a <= b,
    ensures
        a * a <= b * b,
{
    assert(a * a <= b * b) by (nonlinear_arith)
        requires
            -b <= a <= b,
    ;
}

/// A component's magnitude never exceeds the square root floor of the squared
/// length it contributes to.
pub proof fn lemma_component_le_sqrt(c: int, n: nat)
    requires
        c * c <= n,
    ensures
        -(sqrt_floor(n) as int) <= c <= sqrt_floor(n) as int,
{
    lemma_sqrt_floor_bounds(n);
    let r = sqrt_floor(n) as int;
    if c > r {
        assert((r + 1) * (r + 1) <= c * c) by (nonlinear_arith)
            requires
                0 <= r + 1 <= c,
        ;
    }
    if c < -r {
        assert((r + 1) * (r + 1) <= c * c) by (nonlinear_arith)
            requires
                r >= 0,
                c <= -(r + 1),
        ;
    }
}

/// Truncating division of `a * n` by `d` with `0 <= n <= d` lands between
/// `0` and `a`: scaling by a fraction at most one never leaves the segment.
pub proof fn lemma_scaled_within(a: int, n: int, d: int)
    requires
        d > 0,
        0 <= n <= d,
    ensures
        a >= 0 ==> 0 <= div_trunc_spec(a * n, d) <= a,
        a < 0 ==> a <= div_trunc_spec(a * n, d) <= 0,
{
    if a >= 0 {
        assert(0 <= a * n <= a * d) by (nonlinear_arith)
            requires
                a >= 0,
                0 <= n <= d,
        ;
        lemma_div_pos_is_pos(a * n, d);
        lemma_div_is_ordered(a * n, a * d, d);
        lemma_div_by_multiple(a, d);
    } else {
        let b = -a;
        assert(0 <= b * n <= b * d && b * n == -(a * n)) by (nonlinear_arith)
            requires
                b == -a,
                b >= 0,
                0 <= n <= d,
        ;
        lemma_div_pos_is_pos(b * n, d);
        lemma_div_is_ordered(b * n, b * d, d);
        lemma_div_by_multiple(b, d);
    }
}

/// With `|a| <= d`, truncating division of `a * n` by `d` has magnitude at
/// most `n`: a straight-line step moves no coordinate farther than the step.
pub proof fn lemma_scaled_le_num(a: int, n: int, d: int)
    requires
        d > 0,
        n >= 0,
        -d <= a <= d,
    ensures
        -n <= div_trunc_spec(a * n, d) <= n,
{
    let b = if a >= 0 { a } else { -a };
    assert(0 <= b * n <= d * n && (a < 0 ==> b * n == -(a * n))) by (nonlinear_arith)
        requires
            0 <= b <= d,
            n >= 0,
            b == if a >= 0 { a } else { -a },
    ;
    lemma_div_pos_is_pos(b * n, d);
    lemma_div_is_ordered(b * n, d * n, d);
    assert(d * n == n * d) by (nonlinear_arith);
    lemma_div_by_multiple(n, d);
}

/// The magnitude of a truncating quotient is bounded by the quotient of a
/// magnitude bound.
pub proof fn lemma_div_trunc_mag(a: int, m: int, d: int)
    requires
        d > 0,
        0 <= m,
        -m <= a <= m,
    ensures
        -(m / d) <= div_trunc_spec(a, d) <= m / d,
{
    if a >= 0 {
        lemma_div_pos_is_pos(a, d);
        lemma_div_is_ordered(a, m, d);
    } else {
        lemma_div_pos_is_pos(-a, d);
        lemma_div_is_ordered(-a, m, d);
        lemma_div_pos_is_pos(m, d);
    }
}

/// Truncating division on machine integers, computed on magnitudes.
pub fn div_trunc(a: i128, d: i128) -> (r: i128)
    requires
        d > 0,
        a != i128::MIN,
    ensures
        r == div_trunc_spec(a as int, d as int),
{
    if a >= 0 {
        proof {
            lemma_div_pos_is_pos(a as int, d as int);
            lemma_div_nonincreasing(a as int, d as int);
        }
        let q: u128 = (a as u128) / (d as u128);
        q as i128
    } else {
        let b: i128 = -a;
        proof {
            lemma_div_pos_is_pos(b as int, d as int);
            lemma_div_nonincreasing(b as int, d as int);
        }
        let q: u128 = (b as u128) / (d as u128);
        -(q as i128)
    }
}

/// Integer square root by bisection.
pub fn isqrt(n: u128) -> (r: u64)
    requires
        n < 0x10000000000000000000000000,
    ensures
        r == sqrt_floor(n as nat),
{
    let mut lo: u128 = 0;
    let mut hi: u128 = 0x4000000000000;
    proof {
        assert(hi * hi > n) by (nonlinear_arith)
            requires
                hi == 0x4000000000000,
                n < 0x10000000000000000000000000,
        ;
    }
    while lo + 1 < hi
        invariant
            0 <= lo < hi <= 0x4000000000000,
            lo * lo <= n,
            n < hi * hi,
        decreases hi - lo,
    {
        let mid: u128 = lo + (hi - lo) / 2;
        proof {
            assert(mid * mid <= 0x4000000000000 * 0x4000000000000) by (nonlinear_arith)
                requires
                    0 <= mid <= 0x4000000000000,
            ;
        }
        if mid * mid <= n {
            lo = mid;
        } else {
            hi = mid;
        }
    }
    proof {
        assert(hi * hi <= (lo + 1) * (lo + 1)) by (nonlinear_arith)
            requires
                0 <= hi <= lo + 1,
        ;
        lemma_sqrt_floor_unique(n as nat, lo as nat);
    }
    lo as u64
}

/// Straight-line step length covered in one tick: `velocity * dt / MILLIS`.
pub open spec fn step_len_spec(velocity: int, dt: int) -> int {
    velocity * dt / (MILLIS as int)
}

pub fn step_len(velocity: i64, dt: u64) -> (r: i64)
    requires
        0 <= velocity <= VEL_LIMIT,
        dt <= DT_LIMIT,
    ensures
        r == step_len_spec(velocity as int, dt as int),
        0 <= r <= POS_LIMIT,
{
    proof {
        assert(0 <= velocity * dt <= 1_000_000_000_000_000) by (nonlinear_arith)
            requires
                0 <= velocity <= VEL_LIMIT,
                0 <= dt <= DT_LIMIT,
        ;
        lemma_div_pos_is_pos(velocity as int * dt as int, MILLIS as int);
        lemma_div_is_ordered(velocity as int * dt as int, 1_000_000_000_000_000, MILLIS as int);
    }
    ((velocity as u128 * dt as u128) / 1000) as i64
}

pub proof fn lemma_step_len_nonneg(velocity: int, dt: int)
    requires
        velocity >= 0,
        dt >= 0,
    ensures
        step_len_spec(velocity, dt) >= 0,
{
    assert(velocity * dt >= 0) by (nonlinear_arith)
        requires
            velocity >= 0,
            dt >= 0,
    ;
    lemma_div_pos_is_pos(velocity * dt, MILLIS as int);
}

/// Clamp a coordinate into the legal world range.
pub open spec fn clamp_spec(c: int) -> int {
    if c < -POS_LIMIT {
        -(POS_LIMIT as int)
    } else if c > POS_LIMIT {
        POS_LIMIT as int
    } else {
        c
    }
}

/// One truncating step of coordinate `c` toward goal `g`, scaled by `num / den`.
pub open spec fn approach_coord(c: int, g: int, num: int, den: int) -> int {
    c + div_trunc_spec((g - c) * num, den)
}

/// A direction scaled by a fixed-point factor, componentwise
/// `c * k / SCALE` truncated toward zero.
pub open spec fn scaled_spec(v: Vec3i, k: int) -> Vec3i {
    Vec3i {
        x: div_trunc_spec(v.x * k, SCALE as int) as i64,
        y: div_trunc_spec(v.y * k, SCALE as int) as i64,
        z: div_trunc_spec(v.z * k, SCALE as int) as i64,
    }
}

/// A 3D point or direction in fixed-point coordinate steps.
#[derive(Clone, Copy, Debug, PartialEq, Eq, Structural)]
pub struct Vec3i {
    pub x: i64,
    pub y: i64,
    pub z: i64,
}

impl Vec3i {
    pub open spec fn norm_le(self, m: int) -> bool {
        &&& -m <= self.x <= m
        &&& -m <= self.y <= m
        &&& -m <= self.z <= m
    }

    /// Well-formed world coordinates.
    pub open spec fn in_bounds(self) -> bool {
        self.norm_le(POS_LIMIT as int)
    }

    /// Squared Euclidean length.
    pub open spec fn len_sq_spec(self) -> int {
        self.x * self.x + self.y * self.y + self.z * self.z
    }

    /// Squared distance between two points.
    pub open spec fn dist_sq_spec(self, other: Vec3i) -> int {
        (other.x - self.x) * (other.x - self.x) + (other.y - self.y) * (other.y - self.y) + (
        other.z - self.z) * (other.z - self.z)
    }

    pub fn new(x: i64, y: i64, z: i64) -> (v: Vec3i)
        ensures
            v == (Vec3i { x, y, z }),
    {
        Vec3i { x, y, z }
    }

    pub fn zero() -> (v: Vec3i)
        ensures
            v == (Vec3i { x: 0, y: 0, z: 0 }),
    {
        Vec3i { x: 0, y: 0, z: 0 }
    }

    pub fn add(self, other: Vec3i) -> (v: Vec3i)
        requires
            self.norm_le(4 * POS_LIMIT as int),
            other.norm_le(4 * POS_LIMIT as int),
        ensures
            v.x == self.x + other.x,
            v.y == self.y + other.y,
            v.z == self.z + other.z,
    {
        Vec3i { x: self.x + other.x, y: self.y + other.y, z: self.z + other.z }
    }

    pub fn sub(self, other: Vec3i) -> (v: Vec3i)
        requires
            self.norm_le(4 * POS_LIMIT as int),
            other.norm_le(4 * POS_LIMIT as int),
        ensures
            v.x == self.x - other.x,
            v.y == self.y - other.y,
            v.z == self.z - other.z,
    {
        Vec3i { x: self.x - other.x, y: self.y - other.y, z: self.z - other.z }
    }

    pub fn neg(self) -> (v: Vec3i)
        requires
            self.norm_le(4 * POS_LIMIT as int),
        ensures
            v.x == -self.x,
            v.y == -self.y,
            v.z == -self.z,
    {
        Vec3i { x: -self.x, y: -self.y, z: -self.z }
    }

    /// Scale a direction by a fixed-point factor: each component becomes
    /// `c * k / SCALE`, truncated toward zero.
    pub fn scaled_by(self, k: i64) -> (v: Vec3i)
        requires
            self.norm_le(DIR_LIMIT as int),
            -VEL_LIMIT <= k <= VEL_LIMIT,
        ensures
            v == scaled_spec(self, k as int),
            v.x == div_trunc_spec(self.x * k, SCALE as int),
            v.y == div_trunc_spec(self.y * k, SCALE as int),
            v.z == div_trunc_spec(self.z * k, SCALE as int),
            v.in_bounds(),
    {
        proof {
            lemma_scaled_by_bound(self.x as int, k as int);
            lemma_scaled_by_bound(self.y as int, k as int);
            lemma_scaled_by_bound(self.z as int, k as int);
        }
        Vec3i {
            x: div_trunc(self.x as i128 * k as i128, SCALE as i128) as i64,
            y: div_trunc(self.y as i128 * k as i128, SCALE as i128) as i64,
            z: div_trunc(self.z as i128 * k as i128, SCALE as i128) as i64,
        }
    }

    /// Squared Euclidean length, exact in 128-bit arithmetic.
    pub fn len_sq(self) -> (r: i128)
        requires
            self.norm_le(4 * POS_LIMIT as int),
        ensures
            r == self.len_sq_spec(),
            r >= 0,
    {
        proof {
            lemma_square_bound(self.x as int);
            lemma_square_bound(self.y as int);
            lemma_square_bound(self.z as int);
        }
        let xx: i128 = self.x as i128 * self.x as i128;
        let yy: i128 = self.y as i128 * self.y as i128;
        let zz: i128 = self.z as i128 * self.z as i128;
        xx + yy + zz
    }

    /// Squared distance to another point.
    pub fn dist_sq(self, other: Vec3i) -> (r: i128)
        requires
            self.norm_le(2 * POS_LIMIT as int),
            other.norm_le(2 * POS_LIMIT as int),
        ensures
            r == self.dist_sq_spec(other),
            r >= 0,
    {
        other.sub(self).len_sq()
    }
}

/// A vector of squared length zero is the zero vector.
pub proof fn lemma_len_sq_zero(v: Vec3i)
    requires
        v.len_sq_spec() == 0,
    ensures
        v.x == 0 && v.y == 0 && v.z == 0,
{
    assert(v.x == 0 && v.y == 0 && v.z == 0) by (nonlinear_arith)
        requires
            v.x * v.x + v.y * v.y + v.z * v.z == 0,
    ;
}

/// A step whose square is below a squared length stays at or below its root.
pub proof fn lemma_step_below_dist(step: int, n: nat)
    requires
        step >= 0,
        step * step < n,
    ensures
        step <= sqrt_floor(n),
{
    lemma_sqrt_floor_bounds(n);
    let r = sqrt_floor(n) as int;
    if step > r {
        assert((r + 1) * (r + 1) <= step * step) by (nonlinear_arith)
            requires
                0 <= r + 1 <= step,
        ;
    }
}

/// Move coordinate `c` toward `g` by the truncated fraction `num / den` of the
/// separation; with `num <= den` the result stays between `c` and `g`.
fn approach_one(c: i64, g: i64, num: i64, den: i64) -> (r: i64)
    requires
        -POS_LIMIT <= c <= POS_LIMIT,
        -POS_LIMIT <= g <= POS_LIMIT,
        0 < den,
        0 <= num <= den,
    ensures
        r == approach_coord(c as int, g as int, num as int, den as int),
        c <= g ==> c <= r <= g,
        g <= c ==> g <= r <= c,
{
    let d: i128 = g as i128 - c as i128;
    proof {
        assert(-40_000_000_000_000_000_000_000_000_000_000 <= d * (num as i128)
            <= 40_000_000_000_000_000_000_000_000_000_000) by (nonlinear_arith)
            requires
                -2 * POS_LIMIT <= d <= 2 * POS_LIMIT,
                0 <= num <= i64::MAX,
        ;
        lemma_scaled_within(d as int, num as int, den as int);
    }
    let m: i128 = div_trunc(d * num as i128, den as i128);
    (c as i128 + m) as i64
}

/// The vector of truncated approach steps, one per axis.
pub open spec fn approach_vec_spec(p: Vec3i, goal: Vec3i, num: int, den: int) -> Vec3i {
    Vec3i {
        x: approach_coord(p.x as int, goal.x as int, num, den) as i64,
        y: approach_coord(p.y as int, goal.y as int, num, den) as i64,
        z: approach_coord(p.z as int, goal.z as int, num, den) as i64,
    }
}

/// Move `p` toward `goal`, covering the truncated fraction `num / den` of the
/// remaining separation on each axis.  With `num <= den` the result never
/// leaves the axis-aligned box spanned by `p` and `goal`.
pub fn approach(p: Vec3i, goal: Vec3i, num: i64, den: i64) -> (v: Vec3i)
    requires
        p.in_bounds(),
        goal.in_bounds(),
        0 < den,
        0 <= num <= den,
    ensures
        v == approach_vec_spec(p, goal, num as int, den as int),
        v.x == approach_coord(p.x as int, goal.x as int, num as int, den as int),
        v.y == approach_coord(p.y as int, goal.y as int, num as int, den as int),
        v.z == approach_coord(p.z as int, goal.z as int, num as int, den as int),
        between(p.x as int, v.x as int, goal.x as int),
        between(p.y as int, v.y as int, goal.y as int),
        between(p.z as int, v.z as int, goal.z as int),
        v.in_bounds(),
{
    Vec3i {
        x: approach_one(p.x, goal.x, num, den),
        y: approach_one(p.y, goal.y, num, den),
        z: approach_one(p.z, goal.z, num, den),
    }
}

/// `m` lies between `a` and `b`, whichever way they are ordered.
pub open spec fn between(a: int, m: int, b: int) -> bool {
    if a <= b {
        a <= m <= b
    } else {
        b <= m <= a
    }
}

/// Moving each coordinate into the box spanned by the old point and the goal
/// never increases the squared distance to the goal.
pub proof fn lemma_box_no_overshoot(p: Vec3i, v: Vec3i, goal: Vec3i)
    requires
        between(p.x as int, v.x as int, goal.x as int),
        between(p.y as int, v.y as int, goal.y as int),
        between(p.z as int, v.z as int, goal.z as int),
    ensures
        v.dist_sq_spec(goal) <= p.dist_sq_spec(goal),
{
    lemma_square_le(goal.x - v.x, if goal.x >= p.x {
        goal.x - p.x
    } else {
        p.x - goal.x
    });
    lemma_square_le(goal.y - v.y, if goal.y >= p.y {
        goal.y - p.y
    } else {
        p.y - goal.y
    });
    lemma_square_le(goal.z - v.z, if goal.z >= p.z {
        goal.z - p.z
    } else {
        p.z - goal.z
    });
    assert(forall|a: int| #[trigger] (a * a) == (-a) * (-a)) by (nonlinear_arith);
}

fn clamp_coord(c: i128) -> (r: i64)
    requires
        -100_000_000_000_000_000 <= c <= 100_000_000_000_000_000,
    ensures
        r == clamp_spec(c as int),
{
    if c < -POS_LIMIT as i128 {
        -POS_LIMIT
    } else if c > POS_LIMIT as i128 {
        POS_LIMIT
    } else {
        c as i64
    }
}

/// Straight-line move by `step` whole coordinate steps, clamped into world
/// bounds; overshoots when `step` exceeds the separation.  A point already at
/// its goal has no direction and stays put.
pub open spec fn dash_spec(p: Vec3i, goal: Vec3i, step: int) -> Vec3i {
    if p == goal {
        p
    } else {
        let dd = sqrt_floor(p.dist_sq_spec(goal) as nat) as int;
        Vec3i {
            x: clamp_spec(approach_coord(p.x as int, goal.x as int, step, dd)) as i64,
            y: clamp_spec(approach_coord(p.y as int, goal.y as int, step, dd)) as i64,
            z: clamp_spec(approach_coord(p.z as int, goal.z as int, step, dd)) as i64,
        }
    }
}

/// Straight-line move of `p` toward `goal` by `step` whole coordinate steps,
/// clamped into world bounds; overshoots when `step` exceeds the separation
/// (the constant-speed camera mode).  When `p == goal` there is no direction
/// and `p` stays put.
pub fn dash(p: Vec3i, goal: Vec3i, step: i64) -> (v: Vec3i)
    requires
        p.in_bounds(),
        goal.in_bounds(),
        0 <= step <= 100 * POS_LIMIT,
    ensures
        v == dash_spec(p, goal, step as int),
        v.in_bounds(),
{
    let delta = goal.sub(p);
    let n = delta.len_sq();
    if n == 0 {
        proof {
            lemma_len_sq_zero(delta);
            assert(p == goal);
        }
        p
    } else {
        proof {
            assert(n <= 12_000_000_000_000_000_000_000_000
                && delta.x * delta.x <= n && delta.y * delta.y <= n && delta.z * delta.z <= n)
                by (nonlinear_arith)
                requires
                    n == delta.x * delta.x + delta.y * delta.y + delta.z * delta.z,
                    -2 * POS_LIMIT <= delta.x <= 2 * POS_LIMIT,
                    -2 * POS_LIMIT <= delta.y <= 2 * POS_LIMIT,
                    -2 * POS_LIMIT <= delta.z <= 2 * POS_LIMIT,
            ;
        }
        let dd_u = isqrt(n as u128);
        proof {
            lemma_sqrt_floor_bounds(n as nat);
            if dd_u == 0 {
                assert(0nat * 0nat == 0nat && (0nat + 1) * (0nat + 1) == 1nat)
                    by (nonlinear_arith);
                assert(false);
            }
            assert(dd_u <= 4_000_000_000_000) by (nonlinear_arith)
                requires
                    (dd_u as int) * (dd_u as int) <= 12_000_000_000_000_000_000_000_000,
                    dd_u >= 0,
            ;
            lemma_component_le_sqrt(delta.x as int, n as nat);
            lemma_component_le_sqrt(delta.y as int, n as nat);
            lemma_component_le_sqrt(delta.z as int, n as nat);
            assert(n as nat == p.dist_sq_spec(goal) as nat);
        }
        let dd = dd_u as i64;
        Vec3i {
            x: dash_one(p.x, goal.x, delta.x, dd, step),
            y: dash_one(p.y, goal.y, delta.y, dd, step),
            z: dash_one(p.z, goal.z, delta.z, dd, step),
        }
    }
}

fn dash_one(c: i64, g: i64, d: i64, dd: i64, step: i64) -> (r: i64)
    requires
        -POS_LIMIT <= c <= POS_LIMIT,
        -POS_LIMIT <= g <= POS_LIMIT,
        d == g - c,
        dd >= 1,
        -dd <= d <= dd,
        0 <= step <= 100 * POS_LIMIT,
    ensures
        r == clamp_spec(approach_coord(c as int, g as int, step as int, dd as int)),
{
    proof {
        assert(-200_000_000_000_000_000_000_000_000 <= (d as i128) * (step as i128)
            <= 200_000_000_000_000_000_000_000_000) by (nonlinear_arith)
            requires
                -2 * POS_LIMIT <= d <= 2 * POS_LIMIT,
                0 <= step <= 100 * POS_LIMIT,
        ;
        lemma_scaled_le_num(d as int, step as int, dd as int);
    }
    let m: i128 = div_trunc(d as i128 * step as i128, dd as i128);
    clamp_coord(c as i128 + m)
}

proof fn lemma_square_bound(a: int)
    requires
        -4 * POS_LIMIT <= a <= 4 * POS_LIMIT,
    ensures
        0 <= a * a <= 16_000_000_000_000_000_000_000_000,
{
    assert(0 <= a * a <= 16_000_000_000_000_000_000_000_000) by (nonlinear_arith)
        requires
            -4_000_000_000_000 <= a <= 4_000_000_000_000,
    ;
}

proof fn lemma_scaled_by_bound(a: int, k: int)
    requires
        -DIR_LIMIT <= a <= DIR_LIMIT,
        -VEL_LIMIT <= k <= VEL_LIMIT,
    ensures
        -1_000_000_000_000_000 <= a * k <= 1_000_000_000_000_000,
        -POS_LIMIT <= div_trunc_spec(a * k, SCALE as int) <= POS_LIMIT,
{
    assert(-1_000_000_000_000_000 <= a * k <= 1_000_000_000_000_000) by (nonlinear_arith)
        requires
            -DIR_LIMIT <= a <= DIR_LIMIT,
            -VEL_LIMIT <= k <= VEL_LIMIT,
    ;
    lemma_div_trunc_mag(a * k, 1_000_000_000_000_000, SCALE as int);
}


/// Cross product, exact over machine integers.
pub open spec fn cross_spec(a: Vec3i, b: Vec3i) -> Vec3i {
    Vec3i {
        x: (a.y * b.z - a.z * b.y) as i64,
        y: (a.z * b.x - a.x * b.z) as i64,
        z: (a.x * b.y - a.y * b.x) as i64,
    }
}

/// Products of two coordinates below a common bound stay below its square.
pub proof fn lemma_cross_bound(a: Vec3i, b: Vec3i, m: int)
    requires
        0 <= m,
        a.norm_le(m),
        b.norm_le(m),
    ensures
        -2 * m * m <= a.y * b.z - a.z * b.y <= 2 * m * m,
        -2 * m * m <= a.z * b.x - a.x * b.z <= 2 * m * m,
        -2 * m * m <= a.x * b.y - a.y * b.x <= 2 * m * m,
{
    assert(-2 * m * m <= a.y * b.z - a.z * b.y <= 2 * m * m && -2 * m * m <= a.z * b.x - a.x * b.z
        <= 2 * m * m && -2 * m * m <= a.x * b.y - a.y * b.x <= 2 * m * m) by (nonlinear_arith)
        requires
            0 <= m,
            a.norm_le(m),
            b.norm_le(m),
    ;
}

pub fn cross(a: Vec3i, b: Vec3i) -> (v: Vec3i)
    requires
        a.norm_le(10_000),
        b.norm_le(10_000),
    ensures
        v == cross_spec(a, b),
        v.norm_le(200_000_000),
{
    proof {
        lemma_cross_bound(a, b, 10_000);
        assert(-100_000_000 <= a.y * b.z <= 100_000_000 && -100_000_000 <= a.z * b.y
            <= 100_000_000 && -100_000_000 <= a.z * b.x <= 100_000_000 && -100_000_000 <= a.x
            * b.z <= 100_000_000 && -100_000_000 <= a.x * b.y <= 100_000_000 && -100_000_000 <= a.y
            * b.x <= 100_000_000) by (nonlinear_arith)
            requires
                a.norm_le(10_000),
                b.norm_le(10_000),
        ;
    }
    Vec3i {
        x: a.y * b.z - a.z * b.y,
        y: a.z * b.x - a.x * b.z,
        z: a.x * b.y - a.y * b.x,
    }
}

/// Each component divided by `SCALE`, truncated toward zero.
pub open spec fn div_scale_spec(v: Vec3i) -> Vec3i {
    Vec3i {
        x: div_trunc_spec(v.x as int, SCALE as int) as i64,
        y: div_trunc_spec(v.y as int, SCALE as int) as i64,
        z: div_trunc_spec(v.z as int, SCALE as int) as i64,
    }
}

pub fn div_scale(v: Vec3i) -> (r: Vec3i)
    requires
        v.norm_le(1_000_000_000_000_000),
    ensures
        r == div_scale_spec(v),
        r.x as int == div_trunc_spec(v.x as int, SCALE as int),
        r.y as int == div_trunc_spec(v.y as int, SCALE as int),
        r.z as int == div_trunc_spec(v.z as int, SCALE as int),
        r.norm_le(1_000_000_000_000),
{
    proof {
        lemma_div_trunc_mag(v.x as int, 1_000_000_000_000_000, SCALE as int);
        lemma_div_trunc_mag(v.y as int, 1_000_000_000_000_000, SCALE as int);
        lemma_div_trunc_mag(v.z as int, 1_000_000_000_000_000, SCALE as int);
    }
    Vec3i {
        x: div_trunc(v.x as i128, SCALE as i128) as i64,
        y: div_trunc(v.y as i128, SCALE as i128) as i64,
        z: div_trunc(v.z as i128, SCALE as i128) as i64,
    }
}

/// A direction scaled to unit length (`SCALE` coordinate steps), truncated;
/// the zero vector has no direction and stays zero.
pub open spec fn unit_dir_spec(v: Vec3i) -> Vec3i {
    if v.len_sq_spec() == 0 {
        v
    } else {
        let dd = sqrt_floor(v.len_sq_spec() as nat) as int;
        Vec3i {
            x: div_trunc_spec(v.x * (SCALE as int), dd) as i64,
            y: div_trunc_spec(v.y * (SCALE as int), dd) as i64,
            z: div_trunc_spec(v.z * (SCALE as int), dd) as i64,
        }
    }
}

pub fn unit_dir(v: Vec3i) -> (u: Vec3i)
    requires
        v.norm_le(4 * POS_LIMIT as int),
    ensures
        u == unit_dir_spec(v),
        u.norm_le(SCALE as int),
{
    let n = v.len_sq();
    if n == 0 {
        proof {
            lemma_len_sq_zero(v);
        }
        v
    } else {
        proof {
            assert(n <= 48_000_000_000_000_000_000_000_000
                && v.x * v.x <= n && v.y * v.y <= n && v.z * v.z <= n) by (nonlinear_arith)
                requires
                    n == v.x * v.x + v.y * v.y + v.z * v.z,
                    -4 * POS_LIMIT <= v.x <= 4 * POS_LIMIT,
                    -4 * POS_LIMIT <= v.y <= 4 * POS_LIMIT,
                    -4 * POS_LIMIT <= v.z <= 4 * POS_LIMIT,
            ;
        }
        let dd_u = isqrt(n as u128);
        proof {
            lemma_sqrt_floor_bounds(n as nat);
            if dd_u == 0 {
                assert(0nat * 0nat == 0nat && (0nat + 1) * (0nat + 1) == 1nat)
                    by (nonlinear_arith);
                assert(false);
            }
            assert(dd_u <= 8_000_000_000_000) by (nonlinear_arith)
                requires
                    (dd_u as int) * (dd_u as int) <= 48_000_000_000_000_000_000_000_000,
                    dd_u >= 0,
            ;
            lemma_component_le_sqrt(v.x as int, n as nat);
            lemma_component_le_sqrt(v.y as int, n as nat);
            lemma_component_le_sqrt(v.z as int, n as nat);
            lemma_scaled_le_num(v.x as int, SCALE as int, dd_u as int);
            lemma_scaled_le_num(v.y as int, SCALE as int, dd_u as int);
            lemma_scaled_le_num(v.z as int, SCALE as int, dd_u as int);
            assert(v.x as i128 * (SCALE as i128) == (v.x as int) * (SCALE as int));
        }
        let dd = dd_u as i64;
        Vec3i {
            x: div_trunc(v.x as i128 * SCALE as i128, dd as i128) as i64,
            y: div_trunc(v.y as i128 * SCALE as i128, dd as i128) as i64,
            z: div_trunc(v.z as i128 * SCALE as i128, dd as i128) as i64,
        }
    }
}


/// A point shifted by an offset, clamped into world bounds.
pub open spec fn add_clamped_spec(p: Vec3i, o: Vec3i) -> Vec3i {
    Vec3i {
        x: clamp_spec(p.x + o.x) as i64,
        y: clamp_spec(p.y + o.y) as i64,
        z: clamp_spec(p.z + o.z) as i64,
    }
}

pub fn add_clamped(p: Vec3i, o: Vec3i) -> (v: Vec3i)
    requires
        p.norm_le(4 * POS_LIMIT as int),
        o.norm_le(4 * POS_LIMIT as int),
    ensures
        v == add_clamped_spec(p, o),
        v.in_bounds(),
{
    Vec3i {
        x: clamp_coord(p.x as i128 + o.x as i128),
        y: clamp_coord(p.y as i128 + o.y as i128),
        z: clamp_coord(p.z as i128 + o.z as i128),
    }
}

/// Step length of the constant-speed camera mode: one hundred times the
/// easing follow rate, `velocity * 100 * dt / MILLIS`.
pub open spec fn dash_step_spec(velocity: int, dt: int) -> int {
    velocity * dt / 10
}

pub fn dash_step(velocity: i64, dt: u64) -> (r: i64)
    requires
        0 <= velocity <= VEL_LIMIT,
        dt <= DT_LIMIT,
    ensures
        r == dash_step_spec(velocity as int, dt as int),
        0 <= r <= 100 * POS_LIMIT,
{
    proof {
        assert(0 <= velocity * dt <= 1_000_000_000_000_000) by (nonlinear_arith)
            requires
                0 <= velocity <= VEL_LIMIT,
                0 <= dt <= DT_LIMIT,
        ;
        lemma_div_pos_is_pos(velocity as int * dt as int, 10);
        lemma_div_is_ordered(velocity as int * dt as int, 1_000_000_000_000_000, 10);
    }
    ((velocity as u128 * dt as u128) / 10) as i64
}

} // verus!
