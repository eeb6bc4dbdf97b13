//! Fixed-point plane geometry: points in milli-units, integer square root and
//! scaled direction vectors.
use vstd::prelude::*;

verus! {

/// Milli-units per world unit.
pub const SCALE: i64 = 1000;

/// Largest coordinate magnitude of a position or velocity, in milli-units.
pub const MAX_COORD: i64 = 0x1000_0000;

/// A point or vector of the plane, in milli-units.
#[derive(Clone, Copy, Debug, PartialEq, Eq, Structural)]
pub struct Point {
    pub x: i64,
    pub y: i64,
}

pub open spec fn abs(v: int) -> int {
    if v < 0 { -v } else { v }
}

pub open spec fn bounded(p: Point, m: int) -> bool {
    abs(p.x as int) <= m && abs(p.y as int) <= m
}

/// A position or velocity that the simulation can hold without overflow.
pub open spec fn valid_point(p: Point) -> bool {
    bounded(p, MAX_COORD as int)
}

pub open spec fn sq(v: int) -> int {
    v * v
}

/// Squared length of a vector.
pub open spec fn len2(v: Point) -> int {
    sq(v.x as int) + sq(v.y as int)
}

/// Squared distance between two points.
pub open spec fn dist2(a: Point, b: Point) -> int {
    sq(b.x - a.x) + sq(b.y - a.y)
}

/// `r` is the integer square root of `n`.
pub open spec fn is_isqrt(n: int, r: int) -> bool {
    0 <= r && r * r <= n && n < (r + 1) * (r + 1)
}

/// The integer square root of `n`, for `n` at least 0.
pub open spec fn root(n: int) -> int {
    choose|r: int| is_isqrt(n, r)
}

/// A vector component scaled to magnitude `m` over length `len`, rounded
/// toward zero.
pub open spec fn scale_component(d: int, m: int, len: int) -> int {
    if d < 0 { -((-d * m) / len) } else { (d * m) / len }
}

/// `v` scaled to magnitude `m`, each component rounded toward zero.
pub open spec fn scale_to(v: Point, m: int, len: int) -> (int, int) {
    (scale_component(v.x as int, m, len), scale_component(v.y as int, m, len))
}

/// `v` scaled to magnitude `m` over its integer length.
pub open spec fn towards(v: Point, m: int) -> Point {
    let (x, y) = scale_to(v, m, root(len2(v)));
    Point { x: x as i64, y: y as i64 }
}

/// Largest squared length whose root `isqrt` computes.
pub const MAX_ROOT_ARG: u64 = 0x4000_0000_0000_0000;

/// Integer square root, rounded down.
pub fn isqrt(n: u64) -> (r: u64)
    requires
        n < MAX_ROOT_ARG,
    ensures
        is_isqrt(n as int, r as int),
        r < 0x8000_0000,
{
    let mut lo: u64 = 0;
    let mut hi: u64 = 0x8000_0000;
    assert(hi * hi == MAX_ROOT_ARG) by (nonlinear_arith)
        requires hi == 0x8000_0000u64;
    while lo + 1 < hi
        invariant
            lo < hi <= 0x8000_0000,
            lo * lo <= n,
            n < hi * hi,
        decreases hi - lo,
    {
        let mid: u64 = lo + (hi - lo) / 2;
        assert(mid * mid < 0x4000_0000_0000_0000) by (nonlinear_arith)
            requires mid < 0x8000_0000u64;
        if mid * mid <= n {
            lo = mid;
        } else {
            hi = mid;
        }
    }
    assert(hi == lo + 1);
    lo
}

/// Difference `b - a` of two points.
pub fn difference(a: Point, b: Point) -> (r: Point)
    requires
        bounded(a, 0x2000_0000),
        bounded(b, 0x2000_0000),
    ensures
        r.x == b.x - a.x,
        r.y == b.y - a.y,
        bounded(r, 0x4000_0000),
{
    Point { x: b.x - a.x, y: b.y - a.y }
}

/// Squared length of a vector whose coordinates are below 2^30.
pub fn length_squared(v: Point) -> (r: u64)
    requires
        bounded(v, 0x4000_0000),
    ensures
        r == len2(v),
        r < MAX_ROOT_ARG,
{
    let ax: u64 = if v.x < 0 { (-v.x) as u64 } else { v.x as u64 };
    let ay: u64 = if v.y < 0 { (-v.y) as u64 } else { v.y as u64 };
    assert(ax * ax <= 0x1000_0000_0000_0000) by (nonlinear_arith)
        requires ax <= 0x4000_0000u64;
    assert(ay * ay <= 0x1000_0000_0000_0000) by (nonlinear_arith)
        requires ay <= 0x4000_0000u64;
    assert(sq(v.x as int) == ax * ax) by (nonlinear_arith)
        requires ax == abs(v.x as int);
    assert(sq(v.y as int) == ay * ay) by (nonlinear_arith)
        requires ay == abs(v.y as int);
    ax * ax + ay * ay
}

/// A non-zero vector has a positive squared length.
pub proof fn lemma_len2_positive(v: Point)
    requires
        v.x != 0 || v.y != 0,
    ensures
        len2(v) > 0,
{
    let (x, y) = (v.x as int, v.y as int);
    assert(x * x >= 0 && y * y >= 0) by (nonlinear_arith);
    if x != 0 {
        assert(x * x > 0) by (nonlinear_arith) requires x != 0;
    } else {
        assert(y * y > 0) by (nonlinear_arith) requires y != 0;
    }
}

/// The integer square root is unique.
pub proof fn lemma_isqrt_unique(n: int, a: int, b: int)
    requires
        is_isqrt(n, a),
        is_isqrt(n, b),
    ensures
        a == b,
{
    if a < b {
        assert((a + 1) * (a + 1) <= b * b) by (nonlinear_arith) requires 0 <= a + 1 <= b;
    } else if b < a {
        assert((b + 1) * (b + 1) <= a * a) by (nonlinear_arith) requires 0 <= b + 1 <= a;
    }
}

/// `root` names the integer square root wherever one exists.
pub proof fn lemma_root_is(n: int, r: int)
    requires
        is_isqrt(n, r),
    ensures
        root(n) == r,
{
    assert(exists|x: int| is_isqrt(n, x)) by {
        assert(is_isqrt(n, r));
    }
    assert(is_isqrt(n, root(n)));
    lemma_isqrt_unique(n, root(n), r);
}

proof fn lemma_component_le_root(d: int, e: int, len: int)
    requires
        is_isqrt(d * d + e * e, len),
    ensures
        abs(d) <= len,
{
    assert(abs(d) * abs(d) == d * d) by (nonlinear_arith);
    assert(e * e >= 0) by (nonlinear_arith);
    if abs(d) > len {
        assert(abs(d) * abs(d) >= (len + 1) * (len + 1)) by (nonlinear_arith)
            requires abs(d) >= len + 1, len >= 0;
    }
}

proof fn lemma_scaled_bound(d: int, m: int, len: int)
    requires
        0 <= abs(d) <= len,
        0 < len,
        0 <= m,
    ensures
        abs(scale_component(d, m, len)) <= m,
        0 <= abs(d) * m / len <= m,
{
    assert(abs(d) * m <= len * m) by (nonlinear_arith)
        requires 0 <= abs(d) <= len, 0 <= m;
    assert(abs(d) * m / len <= m) by (nonlinear_arith)
        requires abs(d) * m <= len * m, 0 < len, 0 <= m;
    assert(abs(d) * m / len >= 0) by (nonlinear_arith)
        requires abs(d) * m >= 0, 0 < len;
    assert(abs(d) * m >= 0) by (nonlinear_arith)
        requires abs(d) >= 0, m >= 0;
}

fn scale_one(d: i64, m: i64, len: u64) -> (r: i64)
    requires
        abs(d as int) <= len,
        0 < len < 0x8000_0000,
        0 <= m <= 0x10_0000,
    ensures
        r == scale_component(d as int, m as int, len as int),
        abs(r as int) <= m,
{
    proof {
        lemma_scaled_bound(d as int, m as int, len as int);
    }
    let a: u64 = if d < 0 { (-d) as u64 } else { d as u64 };
    assert(a * (m as u64) <= 0x8000_0000 * 0x10_0000) by (nonlinear_arith)
        requires a < 0x8000_0000u64, 0 <= m <= 0x10_0000;
    let q: u64 = a * (m as u64) / len;
    if d < 0 { -(q as i64) } else { q as i64 }
}

/// Scales a non-zero vector to magnitude `m`; returns the scaled vector and
/// the integer length used.
pub fn scale_vector(v: Point, m: i64) -> (r: (Point, u64))
    requires
        bounded(v, 0x4000_0000),
        len2(v) > 0,
        0 <= m <= 0x10_0000,
    ensures
        is_isqrt(len2(v), r.1 as int),
        r.1 > 0,
        (r.0.x as int, r.0.y as int) == scale_to(v, m as int, r.1 as int),
        r.0 == towards(v, m as int),
        bounded(r.0, m as int),
{
    let n = length_squared(v);
    let len = isqrt(n);
    proof {
        if len == 0 {
            assert(n < 1);
        }
        lemma_component_le_root(v.x as int, v.y as int, len as int);
        lemma_component_le_root(v.y as int, v.x as int, len as int);
    }
    proof {
        lemma_root_is(len2(v), len as int);
    }
    let x = scale_one(v.x, m, len);
    let y = scale_one(v.y, m, len);
    (Point { x, y }, len)
}

} // verus!
