//! Fixed-point vectors, exact distance comparisons and integer square roots.

use vstd::prelude::*;

verus! {

/// Number of fixed-point steps in one whole unit.
pub const UNIT: u32 = 1000;

/// A point or a displacement in space, each coordinate in thousandths.
#[derive(Clone, Copy, Debug, PartialEq, Eq, Structural)]
pub struct Vec3 {
    pub x: i32,
    pub y: i32,
    pub z: i32,
}

/// A velocity in the horizontal plane, each component in thousandths per second.
#[derive(Clone, Copy, Debug, PartialEq, Eq, Structural)]
pub struct PlanarVelocity {
    pub x: i64,
    pub z: i64,
}

/// The squared Euclidean distance between two points.
pub open spec fn dist_sq(a: Vec3, b: Vec3) -> int {
    (a.x - b.x) * (a.x - b.x) + (a.y - b.y) * (a.y - b.y) + (a.z - b.z) * (a.z - b.z)
}

/// The squared distance between two points projected on the horizontal plane.
pub open spec fn planar_dist_sq(a: Vec3, b: Vec3) -> int {
    (a.x - b.x) * (a.x - b.x) + (a.z - b.z) * (a.z - b.z)
}

/// The squared length of the horizontal part of a vector.
pub open spec fn planar_len_sq(v: Vec3) -> int {
    v.x * v.x + v.z * v.z
}

/// Whether `r` is the integer part of the square root of `n`.
pub open spec fn is_floor_sqrt(n: int, r: int) -> bool {
    0 <= r && r * r <= n < (r + 1) * (r + 1)
}

/// The integer part of the square root of `n`.
pub open spec fn floor_sqrt(n: int) -> int {
    choose|r: int| is_floor_sqrt(n, r)
}

/// The distance between two points, rounded down to a whole fixed-point step.
pub open spec fn dist(a: Vec3, b: Vec3) -> int {
    floor_sqrt(dist_sq(a, b))
}

/// `delta * speed / len`, rounded toward zero; zero where `len` is zero.
pub open spec fn scaled_component(delta: int, len: int, speed: int) -> int {
    if len <= 0 {
        0
    } else if delta >= 0 {
        (delta * speed) / len
    } else {
        -(((-delta) * speed) / len)
    }
}

/// The horizontal velocity of a body at `from` that heads for `to` at `speed`:
/// the horizontal part of the unit vector from `from` to `to`, times `speed`.
pub open spec fn velocity_toward_spec(from: Vec3, to: Vec3, speed: int) -> PlanarVelocity {
    PlanarVelocity {
        x: scaled_component(to.x - from.x, dist(from, to), speed) as i64,
        z: scaled_component(to.z - from.z, dist(from, to), speed) as i64,
    }
}

/// `factor * distance / 1000`, rounded toward zero: one coordinate of a step
/// of length `distance` along a direction whose coordinate is `factor`
/// thousandths.
pub open spec fn scaled_offset(factor: int, distance: int) -> int {
    if factor >= 0 {
        (factor * distance) / 1000
    } else {
        -(((-factor) * distance) / 1000)
    }
}

/// `v` where it is a coordinate, the nearest coordinate where it is not.
pub open spec fn clamped_coord(v: int) -> i32 {
    if v < i32::MIN {
        i32::MIN
    } else if v > i32::MAX {
        i32::MAX
    } else {
        v as i32
    }
}

/// The point `distance` away from `origin` along `direction`, a unit vector
/// in thousandths. Coordinates stop at the ends of their range.
pub open spec fn displaced(origin: Vec3, direction: Vec3, distance: int) -> Vec3 {
    Vec3 {
        x: clamped_coord(origin.x + scaled_offset(direction.x as int, distance)),
        y: clamped_coord(origin.y + scaled_offset(direction.y as int, distance)),
        z: clamped_coord(origin.z + scaled_offset(direction.z as int, distance)),
    }
}

/// At most one number is the integer square root of `n`.
pub proof fn lemma_floor_sqrt_unique(n: int, r: int)
    requires
        is_floor_sqrt(n, r),
    ensures
        floor_sqrt(n) == r,
{
    let c = floor_sqrt(n);
    assert(is_floor_sqrt(n, c));
    if c < r {
        assert((c + 1) * (c + 1) <= r * r) by (nonlinear_arith)
            requires
                0 <= c + 1 <= r,
        ;
    }
    if r < c {
        assert((r + 1) * (r + 1) <= c * c) by (nonlinear_arith)
            requires
                0 <= r + 1 <= c,
        ;
    }
}

/// A coordinate difference is never longer than the distance itself.
pub proof fn lemma_component_within_dist(delta: int, n: int, r: int)
    requires
        is_floor_sqrt(n, r),
        delta * delta <= n,
    ensures
        -r <= delta <= r,
{
    if delta > r {
        assert((r + 1) * (r + 1) <= delta * delta) by (nonlinear_arith)
            requires
                0 <= r + 1 <= delta,
        ;
    }
    if delta < -r {
        assert((r + 1) * (r + 1) <= delta * delta) by (nonlinear_arith)
            requires
                0 <= r + 1 <= -delta,
        ;
    }
}

/// `d * d` for the difference `d` of two coordinates.
fn diff_sq(p: i32, q: i32) -> (r: u128)
    ensures
        r == (p - q) * (p - q),
        r <= 0x1_0000_0000_0000_0000,
{
    let m: u64 = abs_diff(p, q);
    assert(m * m == (p - q) * (p - q)) by (nonlinear_arith)
        requires
            m == p - q || m == -(p - q),
    ;
    assert(m * m <= 0x1_0000_0000_0000_0000) by (nonlinear_arith)
        requires
            m <= 0x1_0000_0000,
    ;
    (m as u128) * (m as u128)
}

/// The absolute value of `p - q`.
fn abs_diff(p: i32, q: i32) -> (m: u64)
    ensures
        m == if p >= q { p - q } else { q - p },
        m <= 0xffff_ffff,
{
    let d: i64 = p as i64 - q as i64;
    if d < 0 {
        (-d) as u64
    } else {
        d as u64
    }
}

/// One coordinate of `displace`.
fn displace_coord(origin: i32, factor: i32, distance: u32) -> (c: i32)
    ensures
        c == clamped_coord(origin + scaled_offset(factor as int, distance as int)),
{
    let m: u64 = abs_diff(factor, 0);
    assert(m * distance <= 0x8000_0000 * 0xffff_ffff) by (nonlinear_arith)
        requires
            0 <= m <= 0x8000_0000,
            0 <= distance <= 0xffff_ffff,
    ;
    let step: u64 = m * (distance as u64) / 1000;
    let moved: i64 = if factor >= 0 {
        origin as i64 + step as i64
    } else {
        origin as i64 - step as i64
    };
    if moved < i32::MIN as i64 {
        i32::MIN
    } else if moved > i32::MAX as i64 {
        i32::MAX
    } else {
        moved as i32
    }
}

/// Computes the point `distance` away from `origin` along `direction`.
pub fn displace(origin: Vec3, direction: Vec3, distance: u32) -> (p: Vec3)
    ensures
        p == displaced(origin, direction, distance as int),
{
    Vec3 {
        x: displace_coord(origin.x, direction.x, distance),
        y: displace_coord(origin.y, direction.y, distance),
        z: displace_coord(origin.z, direction.z, distance),
    }
}

/// Computes the squared length of the horizontal part of `v`.
pub fn planar_length_squared(v: Vec3) -> (r: u128)
    ensures
        r == planar_len_sq(v),
        r <= 2 * 0x1_0000_0000_0000_0000,
{
    diff_sq(v.x, 0) + diff_sq(v.z, 0)
}

/// Computes the squared Euclidean distance between `a` and `b`.
pub fn distance_squared(a: Vec3, b: Vec3) -> (r: u128)
    ensures
        r == dist_sq(a, b),
        r <= 3 * 0x1_0000_0000_0000_0000,
{
    diff_sq(a.x, b.x) + diff_sq(a.y, b.y) + diff_sq(a.z, b.z)
}

/// Whether a distance whose square is `d2` is at most `range * num / den`,
/// decided exactly on the squares.
pub open spec fn within_scaled(d2: int, range: int, num: int, den: int) -> bool {
    (den * den) * d2 <= (num * num) * (range * range)
}

/// Whether a distance whose square is `d2` is at most `range`.
pub open spec fn within(d2: int, range: int) -> bool {
    d2 <= range * range
}

/// Decides `within_scaled` for a squared distance.
pub fn is_within_scaled(d2: u128, range: u32, num: u8, den: u8) -> (b: bool)
    ensures
        b == within_scaled(d2 as int, range as int, num as int, den as int),
{
    assert(den * den <= 0xffff && num * num <= 0xffff) by (nonlinear_arith)
        requires
            0 <= den <= 0xff,
            0 <= num <= 0xff,
    ;
    let dd: u128 = (den as u128) * (den as u128);
    let nn: u128 = (num as u128) * (num as u128);
    assert(range * range <= 0xffff_ffff * 0xffff_ffff) by (nonlinear_arith)
        requires
            0 <= range <= 0xffff_ffff,
    ;
    let rr: u128 = (range as u128) * (range as u128);
    assert(nn * rr <= 0xffff * (0xffff_ffff * 0xffff_ffff)) by (nonlinear_arith)
        requires
            0 <= nn <= 0xffff,
            0 <= rr <= 0xffff_ffff * 0xffff_ffff,
    ;
    match dd.checked_mul(d2) {
        Some(scaled) => scaled <= nn * rr,
        None => false,
    }
}

/// Decides `within` for a squared distance.
pub fn is_within(d2: u128, range: u32) -> (b: bool)
    ensures
        b == within(d2 as int, range as int),
{
    assert(range * range <= 0xffff_ffff * 0xffff_ffff) by (nonlinear_arith)
        requires
            0 <= range <= 0xffff_ffff,
    ;
    d2 <= (range as u128) * (range as u128)
}

/// Computes the integer part of the square root of `n`.
pub fn isqrt(n: u128) -> (r: u64)
    ensures
        r == floor_sqrt(n as int),
        is_floor_sqrt(n as int, r as int),
{
    let mut lo: u128 = 0;
    let mut hi: u128 = 0x1_0000_0000_0000_0000;
    assert(hi * hi > n) by (nonlinear_arith)
        requires
            hi == 0x1_0000_0000_0000_0000,
            n <= 0xffff_ffff_ffff_ffff_ffff_ffff_ffff_ffff,
    ;
    while hi - lo > 1
        invariant
            lo < hi <= 0x1_0000_0000_0000_0000,
            lo * lo <= n < hi * hi,
        decreases hi - lo,
    {
        let mid: u128 = lo + (hi - lo) / 2;
        assert(mid * mid <= 0xffff_ffff_ffff_ffff * 0xffff_ffff_ffff_ffff) by (nonlinear_arith)
            requires
                0 <= mid <= 0xffff_ffff_ffff_ffff,
        ;
        if mid * mid <= n {
            lo = mid;
        } else {
            hi = mid;
        }
    }
    proof {
        lemma_floor_sqrt_unique(n as int, lo as int);
    }
    lo as u64
}

/// The Euclidean distance between `a` and `b`, rounded down.
pub fn distance_3d(a: Vec3, b: Vec3) -> (r: u64)
    ensures
        r == dist(a, b),
        is_floor_sqrt(dist_sq(a, b), r as int),
{
    isqrt(distance_squared(a, b))
}

/// The distance between `a` and `b` on the horizontal plane, rounded down.
pub fn distance_2d(a: Vec3, b: Vec3) -> (r: u64)
    ensures
        r == floor_sqrt(planar_dist_sq(a, b)),
        is_floor_sqrt(planar_dist_sq(a, b), r as int),
{
    isqrt(diff_sq(a.x, b.x) + diff_sq(a.z, b.z))
}

/// One component of a velocity of magnitude `speed` along a displacement of
/// length `len` whose component on this axis is `p - q`.
fn toward_component(p: i32, q: i32, len: u64, speed: u32) -> (v: i64)
    requires
        (p - q) <= len,
        (q - p) <= len,
    ensures
        v == scaled_component(p - q, len as int, speed as int),
        -speed <= v <= speed,
{
    if len == 0 {
        return 0;
    }
    let m: u64 = abs_diff(p, q);
    assert(m * speed <= 0xffff_ffff * 0xffff_ffff) by (nonlinear_arith)
        requires
            0 <= m <= 0xffff_ffff,
            0 <= speed <= 0xffff_ffff,
    ;
    let scaled: u64 = m * (speed as u64) / len;
    assert((m * speed) / (len as int) <= speed) by (nonlinear_arith)
        requires
            0 <= m <= len,
            0 < len,
            0 <= speed,
    ;
    if p >= q {
        scaled as i64
    } else {
        -(scaled as i64)
    }
}

/// The horizontal velocity that carries a body at `from` toward `to` at `speed`.
/// Where the two points coincide there is no direction and the velocity is zero.
pub fn velocity_toward(from: Vec3, to: Vec3, speed: u32) -> (v: PlanarVelocity)
    ensures
        v == velocity_toward_spec(from, to, speed as int),
        -speed <= v.x <= speed,
        -speed <= v.z <= speed,
{
    let len: u64 = distance_3d(from, to);
    proof {
        let n = dist_sq(from, to);
        assert((to.y - from.y) * (to.y - from.y) >= 0) by (nonlinear_arith);
        assert((to.z - from.z) * (to.z - from.z) >= 0) by (nonlinear_arith);
        assert((to.x - from.x) * (to.x - from.x) >= 0) by (nonlinear_arith);
        assert((to.x - from.x) * (to.x - from.x) == (from.x - to.x) * (from.x - to.x))
            by (nonlinear_arith);
        assert((to.y - from.y) * (to.y - from.y) == (from.y - to.y) * (from.y - to.y))
            by (nonlinear_arith);
        assert((to.z - from.z) * (to.z - from.z) == (from.z - to.z) * (from.z - to.z))
            by (nonlinear_arith);
        lemma_component_within_dist(to.x - from.x, n, len as int);
        lemma_component_within_dist(to.z - from.z, n, len as int);
    }
    PlanarVelocity {
        x: toward_component(to.x, from.x, len, speed),
        z: toward_component(to.z, from.z, len, speed),
    }
}

} // verus!
