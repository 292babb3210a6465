use vstd::prelude::*;

verus! {

/// Number of fixed-point sub-units per screen unit (and per radian).
/// Every coordinate, angle, speed and color channel is an `i64` counting
/// multiples of `1/SCALE`.
pub const SCALE: i64 = 1_000_000;

/// Largest coordinate magnitude the simulation tracks; values that would
/// pass it are clamped so that every step stays total.
pub const COORD_LIMIT: i64 = 1_000_000_000_000_000;

/// Largest heading magnitude the simulation tracks (headings accumulate
/// without wraparound, so a generous bound is kept).
pub const ANGLE_LIMIT: i64 = 1_000_000_000_000_000;

/// Largest per-frame step length (speed) the simulation accepts.
pub const SPEED_LIMIT: i64 = 1_000_000_000_000;

/// Pi in fixed-point units, rounded to nearest.
pub const PI_FIXED: i64 = 3_141_593;

/// 2*pi in fixed-point units, rounded to nearest.
pub const TWO_PI_FIXED: i64 = 6_283_185;

/// A mathematical integer clamped to the interval [-lim, lim].
pub open spec fn clamp_i(v: int, lim: int) -> int {
    if v < -lim {
        -lim
    } else if v > lim {
        lim
    } else {
        v
    }
}

/// Truncating (round-toward-zero) division, the rounding rule the
/// executable code divides with; meaningful for b > 0.
pub open spec fn div_trunc_i(a: int, b: int) -> int {
    if a >= 0 {
        a / b
    } else {
        -((-a) / b)
    }
}

/// Product of two fixed-point values, scaled back down to fixed point.
pub open spec fn mul_scale_i(a: int, b: int) -> int {
    div_trunc_i(a * b, SCALE as int)
}

/// A location in screen space, in fixed-point units.
#[derive(Clone, Copy, PartialEq, Eq, Structural, Debug)]
pub struct Point {
    pub x: i64,
    pub y: i64,
}

impl Point {
    /// Both coordinates lie within the tracked range.
    pub open spec fn wf(self) -> bool {
        &&& -COORD_LIMIT <= self.x <= COORD_LIMIT
        &&& -COORD_LIMIT <= self.y <= COORD_LIMIT
    }
}

/// Squared Euclidean distance between two points, as a mathematical integer.
pub open spec fn dist_sq_i(a: Point, b: Point) -> int {
    (a.x - b.x) * (a.x - b.x) + (a.y - b.y) * (a.y - b.y)
}

/// Truncating division on machine integers; the quotient of two values
/// whose magnitudes are in range is exact.
pub fn div_trunc128(a: i128, b: i128) -> (r: i128)
    requires
        0 < b,
        i128::MIN < a,
    ensures
        r == div_trunc_i(a as int, b as int),
{
    if a >= 0 {
        a / b
    } else {
        -((-a) / b)
    }
}

/// Clamp an `i64` into [-lim, lim].
pub fn clamp64(v: i64, lim: i64) -> (r: i64)
    requires
        0 < lim,
    ensures
        r as int == clamp_i(v as int, lim as int),
{
    if v < -lim {
        -lim
    } else if v > lim {
        lim
    } else {
        v
    }
}

/// Clamp a wide intermediate value back into [-lim, lim] as an `i64`.
pub fn clamp128(v: i128, lim: i64) -> (r: i64)
    requires
        0 < lim,
    ensures
        r as int == clamp_i(v as int, lim as int),
{
    let lo: i128 = -(lim as i128);
    let hi: i128 = lim as i128;
    if v < lo {
        -lim
    } else if v > hi {
        lim
    } else {
        v as i64
    }
}

/// The magnitude of a truncating quotient is bounded by m whenever the
/// dividend's magnitude is bounded by b * m.
pub proof fn lemma_div_trunc_bound(a: int, b: int, m: int)
    requires
        0 < b,
        0 <= m,
        -(b * m) <= a <= b * m,
    ensures
        -m <= div_trunc_i(a, b) <= m,
{
    if a >= 0 {
        vstd::arithmetic::div_mod::lemma_div_is_ordered(a, b * m, b);
        vstd::arithmetic::div_mod::lemma_div_multiples_vanish(m, b);
        vstd::arithmetic::div_mod::lemma_div_pos_is_pos(a, b);
    } else {
        vstd::arithmetic::div_mod::lemma_div_is_ordered(-a, b * m, b);
        vstd::arithmetic::div_mod::lemma_div_multiples_vanish(m, b);
        vstd::arithmetic::div_mod::lemma_div_pos_is_pos(-a, b);
    }
}

/// Displace `p` by `dist` along the direction whose cosine and sine are
/// given in fixed point: the convention is `new = p - dist * (cos, sin)`,
/// with each coordinate clamped back into the tracked range.
pub fn project(p: Point, cos_a: i64, sin_a: i64, dist: i64) -> (r: Point)
    requires
        p.wf(),
        -SCALE <= cos_a <= SCALE,
        -SCALE <= sin_a <= SCALE,
        -SPEED_LIMIT <= dist <= SPEED_LIMIT,
    ensures
        r.x as int == clamp_i(p.x - mul_scale_i(dist as int, cos_a as int), COORD_LIMIT as int),
        r.y as int == clamp_i(p.y - mul_scale_i(dist as int, sin_a as int), COORD_LIMIT as int),
        r.wf(),
{
    assert(-(SPEED_LIMIT as int * SCALE as int) <= dist as int * cos_a as int <= SPEED_LIMIT
        as int * SCALE as int) by (nonlinear_arith)
        requires
            -SPEED_LIMIT <= dist <= SPEED_LIMIT,
            -SCALE <= cos_a <= SCALE,
    ;
    assert(-(SPEED_LIMIT as int * SCALE as int) <= dist as int * sin_a as int <= SPEED_LIMIT
        as int * SCALE as int) by (nonlinear_arith)
        requires
            -SPEED_LIMIT <= dist <= SPEED_LIMIT,
            -SCALE <= sin_a <= SCALE,
    ;
    let px: i128 = (dist as i128) * (cos_a as i128);
    let py: i128 = (dist as i128) * (sin_a as i128);
    let sx: i128 = div_trunc128(px, SCALE as i128);
    let sy: i128 = div_trunc128(py, SCALE as i128);
    proof {
        lemma_div_trunc_bound(px as int, SCALE as int, SPEED_LIMIT as int);
        lemma_div_trunc_bound(py as int, SCALE as int, SPEED_LIMIT as int);
    }
    let nx: i64 = clamp128((p.x as i128) - sx, COORD_LIMIT);
    let ny: i64 = clamp128((p.y as i128) - sy, COORD_LIMIT);
    Point { x: nx, y: ny }
}

/// Whether two points lie strictly within `radius` of each other, decided
/// exactly on squared distances (no square root is needed).
pub fn in_range(a: Point, b: Point, radius: i64) -> (r: bool)
    requires
        a.wf(),
        b.wf(),
        0 <= radius <= COORD_LIMIT,
    ensures
        r == (dist_sq_i(a, b) < radius * radius),
{
    let dx: i128 = (a.x as i128) - (b.x as i128);
    let dy: i128 = (a.y as i128) - (b.y as i128);
    assert(0 <= dx * dx <= 4 * (COORD_LIMIT as int * COORD_LIMIT as int)) by (nonlinear_arith)
        requires
            -2 * COORD_LIMIT as int <= dx <= 2 * COORD_LIMIT as int,
    ;
    assert(0 <= dy * dy <= 4 * (COORD_LIMIT as int * COORD_LIMIT as int)) by (nonlinear_arith)
        requires
            -2 * COORD_LIMIT as int <= dy <= 2 * COORD_LIMIT as int,
    ;
    let dd: i128 = dx * dx + dy * dy;
    assert(0 <= (radius as i128) * (radius as i128) <= COORD_LIMIT as int * COORD_LIMIT as int)
        by (nonlinear_arith)
        requires
            0 <= radius <= COORD_LIMIT,
    ;
    let rr: i128 = (radius as i128) * (radius as i128);
    dd < rr
}

/// A projection over distance zero moves nothing: for every in-range point
/// and every direction, the displaced point is the point itself.
pub proof fn lemma_project_zero_distance(p: Point, cos_a: int, sin_a: int)
    requires
        p.wf(),
    ensures
        clamp_i(p.x - mul_scale_i(0, cos_a), COORD_LIMIT as int) == p.x as int,
        clamp_i(p.y - mul_scale_i(0, sin_a), COORD_LIMIT as int) == p.y as int,
{
    vstd::arithmetic::div_mod::lemma_div_of0(SCALE as int);
}

} // verus!
