//! Classification of a net swipe motion into one of eight compass directions.
//!
//! Motion is measured in integer units. The compass sectors are 45 degrees wide and
//! their seams lie at 22.5 + 45k degrees. Those seam rays have irrational slopes
//! (tan 22.5 = sqrt 2 - 1), so each side test is a sign test of a number of the form
//! p * sqrt 2 + q with integer p and q, which is decided exactly with integers.
use vstd::prelude::*;

verus! {

/// One of the eight compass directions. A positive `dy` counts as north.
#[derive(Clone, Copy, Debug, PartialEq, Eq, Structural)]
pub enum SwipeDir {
    N,
    S,
    W,
    E,
    NE,
    NW,
    SE,
    SW,
}

/// Whether `p * sqrt(2) + q >= 0`.
pub open spec fn sqrt2_affine_nonneg(p: int, q: int) -> bool {
    if p >= 0 {
        q >= 0 || q * q <= 2 * (p * p)
    } else {
        q >= 0 && q * q >= 2 * (p * p)
    }
}

/// The cross product of the seam ray at 22.5 + 45k degrees with `(x, y)`, written as
/// `(p, q)` for the number `p * sqrt 2 + q`. The seam rays, counter-clockwise from
/// 22.5 degrees, point along `(sqrt 2 + 1, 1)`, `(1, sqrt 2 + 1)`, `(-1, sqrt 2 + 1)`,
/// `(-sqrt 2 - 1, 1)`, `(-sqrt 2 - 1, -1)`, `(-1, -sqrt 2 - 1)`, `(1, -sqrt 2 - 1)` and
/// `(sqrt 2 + 1, -1)`; the cross product of `(rx, ry)` with `(x, y)` is `rx * y - ry * x`.
pub open spec fn seam_cross(k: int, x: int, y: int) -> (int, int) {
    if k == 0 {
        (y, y - x)
    } else if k == 1 {
        (-x, y - x)
    } else if k == 2 {
        (-x, -y - x)
    } else if k == 3 {
        (-y, -y - x)
    } else if k == 4 {
        (-y, -y + x)
    } else if k == 5 {
        (x, -y + x)
    } else if k == 6 {
        (x, y + x)
    } else {
        (y, y + x)
    }
}

/// Whether `(x, y)` lies on seam `k` or counter-clockwise of it, within half a turn:
/// the cross product of the seam ray with `(x, y)` is not negative.
pub open spec fn at_or_past_seam(k: int, x: int, y: int) -> bool {
    sqrt2_affine_nonneg(seam_cross(k, x, y).0, seam_cross(k, x, y).1)
}

/// Whether the angle of `(x, y)` lies in `[22.5 + 45k, 67.5 + 45k)` degrees.
pub open spec fn in_sector(k: int, x: int, y: int) -> bool {
    at_or_past_seam(k, x, y) && !at_or_past_seam(k + 1, x, y)
}

/// The direction of the motion `(x, y)`: north for no motion, else the sector of
/// its angle, with east taking what no other sector takes.
pub open spec fn direction_of(x: int, y: int) -> SwipeDir {
    if x == 0 && y == 0 {
        SwipeDir::N
    } else if in_sector(0, x, y) {
        SwipeDir::NE
    } else if in_sector(1, x, y) {
        SwipeDir::N
    } else if in_sector(2, x, y) {
        SwipeDir::NW
    } else if in_sector(3, x, y) {
        SwipeDir::W
    } else if in_sector(4, x, y) {
        SwipeDir::SW
    } else if in_sector(5, x, y) {
        SwipeDir::S
    } else if in_sector(6, x, y) {
        SwipeDir::SE
    } else {
        SwipeDir::E
    }
}

/// Bound on the integers handed to `affine_nonneg`.
pub open spec fn affine_bound() -> int {
    0x2_0000_0000
}

proof fn lemma_square_bound(v: int)
    requires
        -affine_bound() <= v <= affine_bound(),
    ensures
        0 <= v * v <= 0x4_0000_0000_0000_0000,
{
    assert(0 <= v * v <= 0x4_0000_0000_0000_0000) by (nonlinear_arith)
        requires
            -0x2_0000_0000 <= v <= 0x2_0000_0000,
    ;
}

/// Decides `p * sqrt(2) + q >= 0`.
fn affine_nonneg(p: i64, q: i64) -> (r: bool)
    requires
        -affine_bound() <= p <= affine_bound(),
        -affine_bound() <= q <= affine_bound(),
    ensures
        r == sqrt2_affine_nonneg(p as int, q as int),
{
    let pw = p as i128;
    let qw = q as i128;
    proof {
        lemma_square_bound(pw as int);
        lemma_square_bound(qw as int);
    }
    let pp = 2 * (pw * pw);
    let qq = qw * qw;
    if p >= 0 {
        q >= 0 || qq <= pp
    } else {
        q >= 0 && qq >= pp
    }
}

/// Decides `at_or_past_seam(k, x, y)`.
fn seam_test(k: u8, x: i32, y: i32) -> (r: bool)
    requires
        k < 8,
    ensures
        r == at_or_past_seam(k as int, x as int, y as int),
{
    let xw = x as i64;
    let yw = y as i64;
    if k == 0 {
        affine_nonneg(yw, yw - xw)
    } else if k == 1 {
        affine_nonneg(-xw, yw - xw)
    } else if k == 2 {
        affine_nonneg(-xw, -yw - xw)
    } else if k == 3 {
        affine_nonneg(-yw, -yw - xw)
    } else if k == 4 {
        affine_nonneg(-yw, -yw + xw)
    } else if k == 5 {
        affine_nonneg(xw, -yw + xw)
    } else if k == 6 {
        affine_nonneg(xw, yw + xw)
    } else {
        affine_nonneg(yw, yw + xw)
    }
}

/// Decides `in_sector(k, x, y)`.
fn sector_test(k: u8, x: i32, y: i32) -> (r: bool)
    requires
        k < 7,
    ensures
        r == in_sector(k as int, x as int, y as int),
{
    seam_test(k, x, y) && !seam_test(k + 1, x, y)
}

/// Classifies the motion `(dx, dy)`.
pub fn classify(dx: i32, dy: i32) -> (r: SwipeDir)
    ensures
        r == direction_of(dx as int, dy as int),
{
    if dx == 0 && dy == 0 {
        SwipeDir::N
    } else if sector_test(0, dx, dy) {
        SwipeDir::NE
    } else if sector_test(1, dx, dy) {
        SwipeDir::N
    } else if sector_test(2, dx, dy) {
        SwipeDir::NW
    } else if sector_test(3, dx, dy) {
        SwipeDir::W
    } else if sector_test(4, dx, dy) {
        SwipeDir::SW
    } else if sector_test(5, dx, dy) {
        SwipeDir::S
    } else if sector_test(6, dx, dy) {
        SwipeDir::SE
    } else {
        SwipeDir::E
    }
}

/// No motion at all is classified as north.
pub proof fn lemma_no_motion_is_north(x: int, y: int)
    requires
        x == 0,
        y == 0,
    ensures
        direction_of(x, y) == SwipeDir::N,
{
}

proof fn lemma_affine_scale(p: int, q: int, c: int)
    requires
        c > 0,
    ensures
        sqrt2_affine_nonneg(c * p, c * q) == sqrt2_affine_nonneg(p, q),
{
    assert((c * p >= 0) == (p >= 0)) by (nonlinear_arith)
        requires
            c > 0,
    ;
    assert((c * q >= 0) == (q >= 0)) by (nonlinear_arith)
        requires
            c > 0,
    ;
    assert(((c * q) * (c * q) <= 2 * ((c * p) * (c * p))) == (q * q <= 2 * (p * p)))
        by (nonlinear_arith)
        requires
            c > 0,
    ;
    assert(((c * q) * (c * q) >= 2 * ((c * p) * (c * p))) == (q * q >= 2 * (p * p)))
        by (nonlinear_arith)
        requires
            c > 0,
    ;
}

proof fn lemma_seam_scale(k: int, x: int, y: int, c: int)
    requires
        c > 0,
    ensures
        at_or_past_seam(k, c * x, c * y) == at_or_past_seam(k, x, y),
{
    let (p, q) = seam_cross(k, x, y);
    assert(seam_cross(k, c * x, c * y) == (c * p, c * q)) by (nonlinear_arith)
        requires
            p == seam_cross(k, x, y).0,
            q == seam_cross(k, x, y).1,
    {
        assert(c * y - c * x == c * (y - x));
        assert(-(c * x) == c * (-x));
        assert(-(c * y) == c * (-y));
        assert(-(c * y) - c * x == c * (-y - x));
        assert(-(c * y) + c * x == c * (-y + x));
        assert(c * y + c * x == c * (y + x));
    }
    lemma_affine_scale(p, q, c);
}

/// The direction depends on the angle of the motion alone: scaling the motion by any
/// positive factor leaves it unchanged.
pub proof fn lemma_direction_scale_invariant(x: int, y: int, c: int)
    requires
        c > 0,
    ensures
        direction_of(c * x, c * y) == direction_of(x, y),
{
    assert((c * x == 0 && c * y == 0) == (x == 0 && y == 0)) by (nonlinear_arith)
        requires
            c > 0,
    ;
    lemma_seam_scale(0, x, y, c);
    lemma_seam_scale(1, x, y, c);
    lemma_seam_scale(2, x, y, c);
    lemma_seam_scale(3, x, y, c);
    lemma_seam_scale(4, x, y, c);
    lemma_seam_scale(5, x, y, c);
    lemma_seam_scale(6, x, y, c);
    lemma_seam_scale(7, x, y, c);
}

} // verus!
