//! Direction and force interpretation of the raw joystick sample.
//!
//! A raw `(x, y)` byte pair is recentred around the neutral midpoint 127
//! and classified into one of eight 45-degree octants whose boundaries sit
//! at 22.5, 67.5, ..., 337.5 degrees, measuring the angle from the
//! positive `dy` axis towards the positive `dx` axis (so 0 degrees is
//! Down, 90 degrees is Right, 180 degrees is Up).
//!
//! The boundary rays have slope `tan(22.5deg) = sqrt(2) - 1` and
//! `tan(67.5deg) = sqrt(2) + 1`, both irrational, so no nonzero integer
//! sample falls on a boundary and every comparison against a boundary can
//! be decided exactly by comparing squares: `p < sqrt(2) * m` holds for
//! `m >= 0` if and only if `p < 0` or `p * p < 2 * m * m`.
//!
//! The force magnitude is the Euclidean norm of the recentred sample,
//! rounded down, and clamped to the force scale's maximum of 100 (corner
//! excursions reach about 181, beyond the domain of the duty remap).

use vstd::prelude::*;
use vstd::math::abs;

verus! {

/// The eight drive directions, one per octant of the recentred joystick
/// plane.
#[derive(Clone, Copy, Debug, PartialEq, Eq, Structural)]
pub enum Direction {
    Up,
    Down,
    Left,
    Right,
    TopRight,
    TopLeft,
    BottomLeft,
    BottomRight,
}

/// `p < sqrt(2) * m`, decided exactly in integers; meaningful for
/// `m >= 0`. Equality `p == sqrt(2) * m` is impossible unless
/// `p == m == 0`, since `sqrt(2)` is irrational.
pub open spec fn spec_lt_sqrt2(p: int, m: int) -> bool {
    p < 0 || p * p < 2 * m * m
}

/// The octant of the recentred sample `(dx, dy)`.
///
/// Each cardinal octant spans 22.5 degrees either side of its axis: Down
/// holds where `|dx| < tan(22.5deg) * dy`, i.e. `|dx| + dy < sqrt(2) * dy`,
/// and so on by symmetry. What remains of each quadrant is its diagonal
/// octant. The centred sample has no direction of its own and classifies
/// as Down (angle 0).
pub open spec fn spec_direction(dx: int, dy: int) -> Direction {
    if dx == 0 && dy == 0 {
        Direction::Down
    } else if dy > 0 && spec_lt_sqrt2(abs(dx) + dy, dy) {
        Direction::Down
    } else if dy < 0 && spec_lt_sqrt2(abs(dx) - dy, -dy) {
        Direction::Up
    } else if dx > 0 && spec_lt_sqrt2(abs(dy) + dx, dx) {
        Direction::Right
    } else if dx < 0 && spec_lt_sqrt2(abs(dy) - dx, -dx) {
        Direction::Left
    } else if dx >= 0 && dy >= 0 {
        Direction::BottomRight
    } else if dx >= 0 {
        Direction::TopRight
    } else if dy >= 0 {
        Direction::BottomLeft
    } else {
        Direction::TopLeft
    }
}

/// `p < sqrt(2) * m` by exact integer comparison.
fn lt_sqrt2(p: i32, m: i32) -> (r: bool)
    requires
        -512 <= p <= 512,
        0 <= m <= 512,
    ensures
        r == spec_lt_sqrt2(p as int, m as int),
{
    proof {
        assert(p * p <= 512 * 512 && 0 <= 2 * m * m <= 2 * 512 * 512) by (nonlinear_arith)
            requires
                -512 <= p <= 512,
                0 <= m <= 512,
        ;
    }
    p < 0 || p * p < 2 * m * m
}

/// Classify the recentred sample `(dx, dy)` into its octant.
pub fn direction_of(dx: i16, dy: i16) -> (d: Direction)
    requires
        -128 <= dx <= 128,
        -128 <= dy <= 128,
    ensures
        d == spec_direction(dx as int, dy as int),
{
    let x: i32 = dx as i32;
    let y: i32 = dy as i32;
    let ax: i32 = if x >= 0 { x } else { -x };
    let ay: i32 = if y >= 0 { y } else { -y };
    if x == 0 && y == 0 {
        Direction::Down
    } else if y > 0 && lt_sqrt2(ax + y, y) {
        Direction::Down
    } else if y < 0 && lt_sqrt2(ax - y, -y) {
        Direction::Up
    } else if x > 0 && lt_sqrt2(ay + x, x) {
        Direction::Right
    } else if x < 0 && lt_sqrt2(ay - x, -x) {
        Direction::Left
    } else if x >= 0 && y >= 0 {
        Direction::BottomRight
    } else if x >= 0 {
        Direction::TopRight
    } else if y >= 0 {
        Direction::BottomLeft
    } else {
        Direction::TopLeft
    }
}

/// The octant of a normalized angle given in tenths of a degree
/// (`0 <= d < 3600`). Octant boundaries sit at 225, 675, ..., 3375
/// tenths; a boundary value belongs to the higher octant.
pub open spec fn spec_octant_of_decidegrees(d: int) -> Direction {
    if d < 225 {
        Direction::Down
    } else if d < 675 {
        Direction::BottomRight
    } else if d < 1125 {
        Direction::Right
    } else if d < 1575 {
        Direction::TopRight
    } else if d < 2025 {
        Direction::Up
    } else if d < 2475 {
        Direction::TopLeft
    } else if d < 2925 {
        Direction::Left
    } else if d < 3375 {
        Direction::BottomLeft
    } else {
        Direction::Down
    }
}

/// Classify a normalized angle, given in tenths of a degree, into its
/// octant: the table of `spec_octant_of_decidegrees`, with each interval
/// closed below and open above.
pub fn octant_of_decidegrees(d: u16) -> (dir: Direction)
    requires
        d < 3600,
    ensures
        dir == spec_octant_of_decidegrees(d as int),
{
    if d < 225 {
        Direction::Down
    } else if d < 675 {
        Direction::BottomRight
    } else if d < 1125 {
        Direction::Right
    } else if d < 1575 {
        Direction::TopRight
    } else if d < 2025 {
        Direction::Up
    } else if d < 2475 {
        Direction::TopLeft
    } else if d < 2925 {
        Direction::Left
    } else if d < 3375 {
        Direction::BottomLeft
    } else {
        Direction::Down
    }
}

/// The integer square root, rounded down.
pub open spec fn spec_isqrt(n: int) -> int
    decreases n,
{
    if n <= 0 {
        0
    } else {
        let r = spec_isqrt(n - 1);
        if (r + 1) * (r + 1) <= n {
            r + 1
        } else {
            r
        }
    }
}

/// `spec_isqrt(n)` is the unique `r >= 0` with
/// `r * r <= n < (r + 1) * (r + 1)`.
pub proof fn lemma_isqrt_bounds(n: int)
    requires
        0 <= n,
    ensures
        0 <= spec_isqrt(n),
        spec_isqrt(n) * spec_isqrt(n) <= n,
        n < (spec_isqrt(n) + 1) * (spec_isqrt(n) + 1),
    decreases n,
{
    if n > 0 {
        lemma_isqrt_bounds(n - 1);
        let r = spec_isqrt(n - 1);
        if (r + 1) * (r + 1) <= n {
            assert(n < (r + 2) * (r + 2)) by (nonlinear_arith)
                requires
                    0 <= r,
                    n - 1 < (r + 1) * (r + 1),
            ;
        }
    }
}

/// Any `r` satisfying the square bounds is `spec_isqrt(n)`.
proof fn lemma_isqrt_unique(n: int, r: int)
    requires
        0 <= n,
        0 <= r,
        r * r <= n,
        n < (r + 1) * (r + 1),
    ensures
        r == spec_isqrt(n),
{
    lemma_isqrt_bounds(n);
    let s = spec_isqrt(n);
    assert(r == s) by (nonlinear_arith)
        requires
            0 <= r,
            0 <= s,
            r * r <= n,
            n < (r + 1) * (r + 1),
            s * s <= n,
            n < (s + 1) * (s + 1),
    ;
}

/// The integer square root of `n`, rounded down.
fn isqrt(n: u32) -> (r: u32)
    requires
        n < 65536,
    ensures
        r as int == spec_isqrt(n as int),
{
    let mut r: u32 = 0;
    let mut next: u32 = 1;
    while next <= n
        invariant
            n < 65536,
            r <= 255,
            r * r <= n,
            next == (r + 1) * (r + 1),
        decreases 256 - r,
    {
        r = r + 1;
        proof {
            assert(r <= 255) by (nonlinear_arith)
                requires
                    0 <= r,
                    r * r <= n,
                    n < 65536,
            ;
            assert((r + 1) * (r + 1) <= 66049) by (nonlinear_arith)
                requires
                    0 <= r <= 255,
            ;
        }
        next = (r + 1) * (r + 1);
    }
    proof {
        lemma_isqrt_unique(n as int, r as int);
    }
    r
}

/// The commanded force for the recentred sample `(dx, dy)`: the
/// Euclidean norm rounded down, clamped to the force scale's maximum
/// of 100.
pub open spec fn spec_force(dx: int, dy: int) -> int {
    let norm = spec_isqrt(dx * dx + dy * dy);
    if norm <= 100 {
        norm
    } else {
        100
    }
}

/// Compute the clamped force magnitude of the recentred sample.
pub fn force_of(dx: i16, dy: i16) -> (f: u8)
    requires
        -128 <= dx <= 128,
        -128 <= dy <= 128,
    ensures
        f as int == spec_force(dx as int, dy as int),
        f <= 100,
{
    let x: i32 = dx as i32;
    let y: i32 = dy as i32;
    proof {
        assert(0 <= x * x <= 16384 && 0 <= y * y <= 16384) by (nonlinear_arith)
            requires
                -128 <= x <= 128,
                -128 <= y <= 128,
        ;
    }
    let norm_sq: u32 = (x * x + y * y) as u32;
    let norm: u32 = isqrt(norm_sq);
    if norm <= 100 {
        norm as u8
    } else {
        100
    }
}

} // verus!
