//! Fixed-point vectors and the distance test used for detection.
use vstd::prelude::*;

verus! {

/// A vector in fixed point: each component counts nanometres
/// (or nanometres per second for a velocity).
#[derive(Clone, Copy, Debug, PartialEq, Eq, Structural)]
pub struct Vec3i {
    pub x: i64,
    pub y: i64,
    pub z: i64,
}

/// Squared Euclidean distance between two points.
pub open spec fn dist_sq(a: Vec3i, b: Vec3i) -> int {
    (a.x - b.x) * (a.x - b.x) + (a.y - b.y) * (a.y - b.y) + (a.z - b.z) * (a.z - b.z)
}

/// Whether two points lie within Euclidean distance `range` of each other.
pub open spec fn within(a: Vec3i, b: Vec3i, range: int) -> bool {
    dist_sq(a, b) <= range * range
}

impl Vec3i {
    pub fn zero() -> (r: Vec3i)
        ensures
            r == (Vec3i { x: 0, y: 0, z: 0 }),
    {
        Vec3i { x: 0, y: 0, z: 0 }
    }

    pub fn new(x: i64, y: i64, z: i64) -> (r: Vec3i)
        ensures
            r == (Vec3i { x, y, z }),
    {
        Vec3i { x, y, z }
    }
}

fn abs_diff_at_most(a: i64, b: i64, range: u64) -> (r: bool)
    ensures
        r == (-(range as int) <= a - b <= range as int),
{
    let d: i128 = a as i128 - b as i128;
    -(range as i128) <= d && d <= range as i128
}

/// Whether `a` and `b` are at Euclidean distance at most `range`.
pub fn within_range(a: Vec3i, b: Vec3i, range: u64) -> (r: bool)
    requires
        range <= 1_000_000_000_000_000,
    ensures
        r == within(a, b, range as int),
{
    if !abs_diff_at_most(a.x, b.x, range) || !abs_diff_at_most(a.y, b.y, range)
        || !abs_diff_at_most(a.z, b.z, range) {
        proof { lemma_far_axis(a, b, range as int); }
        return false;
    }
    let dx: i128 = a.x as i128 - b.x as i128;
    let dy: i128 = a.y as i128 - b.y as i128;
    let dz: i128 = a.z as i128 - b.z as i128;
    let r: i128 = range as i128;
    assert(0 <= dx * dx <= r * r) by (nonlinear_arith)
        requires -r <= dx <= r;
    assert(0 <= dy * dy <= r * r) by (nonlinear_arith)
        requires -r <= dy <= r;
    assert(0 <= dz * dz <= r * r) by (nonlinear_arith)
        requires -r <= dz <= r;
    assert(r * r <= 1_000_000_000_000_000_000_000_000_000_000) by (nonlinear_arith)
        requires 0 <= r <= 1_000_000_000_000_000;
    dx * dx + dy * dy + dz * dz <= r * r
}

proof fn lemma_far_axis(a: Vec3i, b: Vec3i, range: int)
    requires
        range >= 0,
        !(-range <= a.x - b.x <= range) || !(-range <= a.y - b.y <= range)
            || !(-range <= a.z - b.z <= range),
    ensures
        !within(a, b, range),
{
    let dx = a.x - b.x;
    let dy = a.y - b.y;
    let dz = a.z - b.z;
    assert(dx * dx >= 0 && dy * dy >= 0 && dz * dz >= 0) by (nonlinear_arith);
    if !(-range <= dx <= range) {
        assert(dx * dx > range * range) by (nonlinear_arith)
            requires !(-range <= dx <= range), range >= 0;
    } else if !(-range <= dy <= range) {
        assert(dy * dy > range * range) by (nonlinear_arith)
            requires !(-range <= dy <= range), range >= 0;
    } else {
        assert(dz * dz > range * range) by (nonlinear_arith)
            requires !(-range <= dz <= range), range >= 0;
    }
}

} // verus!
