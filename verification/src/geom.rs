//! Plane geometry on integer (milli-unit) coordinates: points, clamping,
//! axis-aligned box overlap, and squared distances.

use vstd::prelude::*;

verus! {

/// A point or displacement in the plane, in milli-units.
#[derive(Clone, Copy, PartialEq, Eq, Structural, Debug)]
pub struct Vec2i {
    pub x: i64,
    pub y: i64,
}

/// Magnitude of `v`.
pub open spec fn abs_spec(v: int) -> int {
    if v >= 0 {
        v
    } else {
        -v
    }
}

/// Squared distance between `a` and `b`.
pub open spec fn dist2(a: Vec2i, b: Vec2i) -> int {
    (a.x - b.x) * (a.x - b.x) + (a.y - b.y) * (a.y - b.y)
}

/// `v` pulled into the interval [-bound, bound].
pub open spec fn clamp_spec(v: int, bound: int) -> int {
    if v > bound {
        bound
    } else if v < -bound {
        -bound
    } else {
        v
    }
}

pub fn abs_i64(v: i64) -> (r: i64)
    requires
        v > i64::MIN,
    ensures
        r == abs_spec(v as int),
{
    if v >= 0 {
        v
    } else {
        -v
    }
}

pub fn clamp_i64(v: i64, bound: i64) -> (r: i64)
    requires
        0 <= bound,
    ensures
        r == clamp_spec(v as int, bound as int),
{
    if v > bound {
        bound
    } else if v < -bound {
        -bound
    } else {
        v
    }
}

/// Whether two axis-aligned boxes, given by their centers and half-extents,
/// strictly overlap on both axes.
pub open spec fn aabb_overlap_spec(
    a: Vec2i,
    ah_x: int,
    ah_y: int,
    b: Vec2i,
    bh_x: int,
    bh_y: int,
) -> bool {
    &&& abs_spec(a.x - b.x) < ah_x + bh_x
    &&& abs_spec(a.y - b.y) < ah_y + bh_y
}

pub fn aabb_overlap(a: Vec2i, ah_x: i64, ah_y: i64, b: Vec2i, bh_x: i64, bh_y: i64) -> (r: bool)
    requires
        -1_000_000 <= a.x <= 1_000_000,
        -1_000_000 <= a.y <= 1_000_000,
        -1_000_000 <= b.x <= 1_000_000,
        -1_000_000 <= b.y <= 1_000_000,
        0 <= ah_x <= 100_000,
        0 <= ah_y <= 100_000,
        0 <= bh_x <= 100_000,
        0 <= bh_y <= 100_000,
    ensures
        r == aabb_overlap_spec(a, ah_x as int, ah_y as int, b, bh_x as int, bh_y as int),
{
    abs_i64(a.x - b.x) < ah_x + bh_x && abs_i64(a.y - b.y) < ah_y + bh_y
}

/// Whether `r` is the integer square root of `n`, rounded down.
pub open spec fn is_sqrt(n: int, r: int) -> bool {
    &&& 0 <= r
    &&& r * r <= n
    &&& n < (r + 1) * (r + 1)
}

/// The integer square root of `n`, rounded down.
pub open spec fn sqrt_floor(n: int) -> int {
    choose|r: int| #[trigger] is_sqrt(n, r)
}

proof fn lemma_sqrt_exists(n: nat)
    ensures
        exists|r: int| #[trigger] is_sqrt(n as int, r),
    decreases n,
{
    if n == 0 {
        assert(is_sqrt(0, 0)) by (nonlinear_arith);
    } else {
        lemma_sqrt_exists((n - 1) as nat);
        let r = choose|r: int| #[trigger] is_sqrt(n - 1, r);
        if (r + 1) * (r + 1) == n {
            assert(is_sqrt(n as int, r + 1)) by (nonlinear_arith)
                requires
                    r >= 0,
                    (r + 1) * (r + 1) == n,
            ;
        } else {
            assert(is_sqrt(n as int, r));
        }
    }
}

/// The integer square root is unique.
proof fn lemma_sqrt_unique(n: int, r1: int, r2: int)
    by (nonlinear_arith)
    requires
        is_sqrt(n, r1),
        is_sqrt(n, r2),
    ensures
        r1 == r2,
{
}

/// `sqrt_floor(n)` satisfies its defining bracket for every `n >= 0`.
pub proof fn lemma_sqrt_floor(n: int)
    requires
        n >= 0,
    ensures
        is_sqrt(n, sqrt_floor(n)),
{
    lemma_sqrt_exists(n as nat);
}

/// Integer square root by bisection.
pub fn isqrt(n: i64) -> (r: i64)
    requires
        0 <= n <= 4_000_000_000_000,
    ensures
        is_sqrt(n as int, r as int),
        r == sqrt_floor(n as int),
        0 <= r <= 2_000_000,
{
    let mut lo: i64 = 0;
    let mut hi: i64 = 2_000_001;
    assert((2_000_001 as int) * (2_000_001 as int) > 4_000_000_000_000) by (nonlinear_arith);
    while lo + 1 < hi
        invariant
            0 <= lo < hi <= 2_000_001,
            lo * lo <= n,
            n < hi * hi,
        decreases hi - lo,
    {
        let mid = lo + (hi - lo) / 2;
        assert(lo < mid < hi);
        assert(0 <= mid * mid <= 4_000_004_000_001) by (nonlinear_arith)
            requires
                0 <= mid <= 2_000_001,
        ;
        if mid * mid <= n {
            lo = mid;
        } else {
            hi = mid;
        }
    }
    proof {
        lemma_sqrt_floor(n as int);
        lemma_sqrt_unique(n as int, lo as int, sqrt_floor(n as int));
    }
    lo
}

} // verus!
