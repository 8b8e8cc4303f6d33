//! Fixed-point vectors and the few arithmetic helpers the simulation needs.
use vstd::prelude::*;

use vstd::arithmetic::div_mod::{lemma_div_is_ordered, lemma_div_pos_is_pos};

verus! {

/// Largest coordinate magnitude the library accepts in queries and world
/// data; keeps every product taken by the geometry inside `i64`.
pub const COORD_LIMIT: i64 = 2_000_000;

/// A point or displacement in world space, in milli-units.
#[derive(Clone, Copy, PartialEq, Eq, Structural, Debug)]
pub struct Vec3i {
    pub x: i64,
    pub y: i64,
    pub z: i64,
}

pub open spec fn absi(a: int) -> int {
    if a >= 0 {
        a
    } else {
        -a
    }
}

pub open spec fn sq(a: int) -> int {
    a * a
}

/// Squared distance in the ground (XZ) plane.
pub open spec fn spec_dist2_xz(a: Vec3i, b: Vec3i) -> int {
    sq(a.x - b.x) + sq(a.z - b.z)
}

/// Truncating (round-toward-zero) division, the semantics every scaled
/// product in the simulation is divided with.
pub open spec fn tdiv(a: int, b: int) -> int
    recommends
        b > 0,
{
    if a >= 0 {
        a / b
    } else {
        -((-a) / b)
    }
}

/// Clamp to a closed interval.
pub open spec fn spec_clamp(v: int, lo: int, hi: int) -> int {
    if v < lo {
        lo
    } else if v > hi {
        hi
    } else {
        v
    }
}

/// A truncating quotient is bounded by the quotient of a bound on the
/// dividend.
pub proof fn lemma_tdiv_bound(a: int, b: int, c: int)
    requires
        0 < b,
        0 <= c,
        -c <= a <= c,
    ensures
        -(c / b) <= tdiv(a, b) <= c / b,
{
    if a >= 0 {
        lemma_div_is_ordered(a, c, b);
        lemma_div_pos_is_pos(a, b);
    } else {
        lemma_div_is_ordered(-a, c, b);
        lemma_div_pos_is_pos(-a, b);
    }
}

impl Vec3i {
    pub open spec fn bounded(self, b: int) -> bool {
        -b <= self.x <= b && -b <= self.y <= b && -b <= self.z <= b
    }

    pub fn new(x: i64, y: i64, z: i64) -> (r: Vec3i)
        ensures
            r == (Vec3i { x, y, z }),
    {
        Vec3i { x, y, z }
    }
}

/// Full squared distance between two points.
pub open spec fn spec_dist2_xyz(a: Vec3i, b: Vec3i) -> int {
    sq(a.x - b.x) + sq(a.y - b.y) + sq(a.z - b.z)
}

/// Squared distance between two bounded points.
pub fn dist2_xyz(a: Vec3i, b: Vec3i) -> (r: i64)
    requires
        a.bounded(COORD_LIMIT as int),
        b.bounded(COORD_LIMIT as int),
    ensures
        r == spec_dist2_xyz(a, b),
        0 <= r <= 48_000_000_000_000,
{
    let dx = a.x - b.x;
    let dy = a.y - b.y;
    let dz = a.z - b.z;
    proof {
        assert(sq(dx as int) <= 16_000_000_000_000 && sq(dx as int) >= 0) by (nonlinear_arith)
            requires
                -4_000_000 <= dx <= 4_000_000,
        ;
        assert(sq(dy as int) <= 16_000_000_000_000 && sq(dy as int) >= 0) by (nonlinear_arith)
            requires
                -4_000_000 <= dy <= 4_000_000,
        ;
        assert(sq(dz as int) <= 16_000_000_000_000 && sq(dz as int) >= 0) by (nonlinear_arith)
            requires
                -4_000_000 <= dz <= 4_000_000,
        ;
    }
    dx * dx + dy * dy + dz * dz
}

/// Squared distance in the XZ plane between two bounded points.
pub fn dist2_xz(a: Vec3i, b: Vec3i) -> (r: i64)
    requires
        a.bounded(COORD_LIMIT as int),
        b.bounded(COORD_LIMIT as int),
    ensures
        r == spec_dist2_xz(a, b),
        0 <= r <= 32_000_000_000_000,
{
    let dx = a.x - b.x;
    let dz = a.z - b.z;
    proof {
        assert(sq(dx as int) <= 16_000_000_000_000 && sq(dx as int) >= 0) by (nonlinear_arith)
            requires
                -4_000_000 <= dx <= 4_000_000,
        ;
        assert(sq(dz as int) <= 16_000_000_000_000 && sq(dz as int) >= 0) by (nonlinear_arith)
            requires
                -4_000_000 <= dz <= 4_000_000,
        ;
    }
    dx * dx + dz * dz
}

/// Truncating division of a bounded value by a positive divisor.
pub fn div_trunc(a: i64, b: i64) -> (r: i64)
    requires
        0 < b,
        -0x4000_0000_0000_0000 < a < 0x4000_0000_0000_0000,
    ensures
        r == tdiv(a as int, b as int),
{
    if a >= 0 {
        ((a as u64) / (b as u64)) as i64
    } else {
        let m = ((-a) as u64) / (b as u64);
        -(m as i64)
    }
}

} // verus!
