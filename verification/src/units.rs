//! Fixed-point units and the arithmetic shared by the simulation.

use vstd::prelude::*;
use vstd::arithmetic::div_mod::lemma_fundamental_div_mod;
use vstd::arithmetic::div_mod::lemma_fundamental_div_mod_converse;

verus! {

/// Length units in one pixel.
pub const PIXEL: i64 = 1_000_000;

/// Parts in a whole: microseconds in a second, and the denominator of every
/// ratio handed to [`scale`].
pub const MILLION: i64 = 1_000_000;

/// Edge length of a tile, sixteen pixels.
pub const TILE: i64 = 16_000_000;

/// Coordinates are kept within `-WORLD_LIMIT ..= WORLD_LIMIT`. The limit is a
/// whole number of tiles.
pub const WORLD_LIMIT: i64 = 1_600_000_000_000_000_000;

/// Largest magnitude of a velocity component.
pub const SPEED_LIMIT: i64 = 1_000_000_000_000_000;

/// Largest magnitude that [`scale`] and [`remap`] accept.
pub const MAGNITUDE_LIMIT: i64 = 2_000_000_000_000_000;

/// A point or a vector in the plane. `y` grows downward.
#[derive(Clone, Copy, PartialEq, Eq, Structural, Debug)]
pub struct Vec2 {
    pub x: i64,
    pub y: i64,
}

impl Vec2 {
    /// Whether both coordinates lie inside the world.
    pub open spec fn in_world(self) -> bool {
        &&& -WORLD_LIMIT <= self.x <= WORLD_LIMIT
        &&& -WORLD_LIMIT <= self.y <= WORLD_LIMIT
    }

    /// Whether both components are admissible speeds.
    pub open spec fn is_velocity(self) -> bool {
        &&& -SPEED_LIMIT <= self.x <= SPEED_LIMIT
        &&& -SPEED_LIMIT <= self.y <= SPEED_LIMIT
    }

    pub fn new(x: i64, y: i64) -> (v: Vec2)
        ensures
            v == (Vec2 { x, y }),
    {
        Vec2 { x, y }
    }
}

/// An axis-aligned rectangle on a sprite sheet: its top-left corner and size.
#[derive(Clone, Copy, PartialEq, Eq, Structural, Debug)]
pub struct Rect {
    pub x: i64,
    pub y: i64,
    pub w: i64,
    pub h: i64,
}

/// Absolute value.
pub open spec fn magnitude(v: int) -> int {
    if v >= 0 {
        v
    } else {
        -v
    }
}

/// `amount * millionths / 1_000_000`, rounded toward zero.
pub open spec fn scaled(amount: int, millionths: int) -> int {
    if amount >= 0 {
        amount * millionths / 1_000_000
    } else {
        -((-amount) * millionths / 1_000_000)
    }
}

/// `v` limited to `low ..= high`.
pub open spec fn clamped(v: int, low: int, high: int) -> int {
    if v < low {
        low
    } else if v > high {
        high
    } else {
        v
    }
}

/// `v` limited to the world.
pub open spec fn confined(v: int) -> int {
    clamped(v, -WORLD_LIMIT as int, WORLD_LIMIT as int)
}

/// The greatest multiple of [`TILE`] that is at most `v`.
pub open spec fn tile_floor(v: int) -> int {
    (v / 16_000_000) * 16_000_000
}

/// The least multiple of [`TILE`] that is at least `v`.
pub open spec fn tile_ceil(v: int) -> int {
    -((-v) / 16_000_000) * 16_000_000
}

/// The value that corresponds to `value` when `in_start ..= in_end` is mapped
/// linearly onto `out_start ..= out_end`, rounded down. Values outside the
/// input range are extrapolated.
pub open spec fn remapped(value: int, in_start: int, in_end: int, out_start: int, out_end: int) -> int {
    out_start + (value - in_start) * (out_end - out_start) / (in_end - in_start)
}

/// Rounding to a tile boundary gives a multiple of the tile size within one
/// tile of the coordinate, and stays inside the world.
pub proof fn lemma_tile_rounding(v: int)
    ensures
        tile_floor(v) % 16_000_000 == 0,
        tile_ceil(v) % 16_000_000 == 0,
        tile_floor(v) <= v < tile_floor(v) + 16_000_000,
        tile_ceil(v) - 16_000_000 < v <= tile_ceil(v),
        v % 16_000_000 == 0 ==> tile_floor(v) == v && tile_ceil(v) == v,
        -WORLD_LIMIT <= v <= WORLD_LIMIT ==> -WORLD_LIMIT <= tile_floor(v) <= WORLD_LIMIT
            && -WORLD_LIMIT <= tile_ceil(v) <= WORLD_LIMIT,
{
}

/// Scaling never grows a magnitude when the ratio is at most one, keeps the
/// sign, and shrinks a non-zero magnitude strictly when the ratio is below one.
pub proof fn lemma_scaled_shrinks(amount: int, millionths: int)
    requires
        0 <= millionths <= MILLION,
    ensures
        magnitude(scaled(amount, millionths)) <= magnitude(amount),
        amount >= 0 ==> scaled(amount, millionths) >= 0,
        amount <= 0 ==> scaled(amount, millionths) <= 0,
        millionths < MILLION && amount != 0 ==> magnitude(scaled(amount, millionths)) < magnitude(
            amount,
        ),
        millionths == MILLION ==> scaled(amount, millionths) == amount,
{
    let m = magnitude(amount);
    assert(0 <= m * millionths <= m * 1_000_000) by (nonlinear_arith)
        requires
            0 <= m,
            0 <= millionths <= 1_000_000,
    ;
    assert(millionths < 1_000_000 && m > 0 ==> m * millionths < m * 1_000_000) by (nonlinear_arith)
        requires
            0 <= m,
            0 <= millionths <= 1_000_000,
    ;
    assert(millionths == 1_000_000 ==> m * millionths == m * 1_000_000);
}

/// Scaling by a non-negative ratio is monotonic in the ratio and bounded by it.
pub proof fn lemma_scaled_bound(amount: int, millionths: int, cap: int)
    requires
        0 <= millionths,
        magnitude(amount) <= cap,
    ensures
        magnitude(scaled(amount, millionths)) <= cap * millionths / 1_000_000,
        amount >= 0 ==> scaled(amount, millionths) >= 0,
        amount <= 0 ==> scaled(amount, millionths) <= 0,
{
    let m = magnitude(amount);
    assert(0 <= m * millionths <= cap * millionths) by (nonlinear_arith)
        requires
            0 <= m <= cap,
            0 <= millionths,
    ;
    assert(m == 0 ==> m * millionths == 0) by (nonlinear_arith);
}

/// `amount * millionths / 1_000_000`, rounded toward zero: a rate applied over
/// a time in microseconds, or a quantity multiplied by a ratio in millionths.
pub fn scale(amount: i64, millionths: u32) -> (r: i64)
    requires
        -MAGNITUDE_LIMIT <= amount <= MAGNITUDE_LIMIT,
    ensures
        r == scaled(amount as int, millionths as int),
{
    proof {
        lemma_scaled_bound(amount as int, millionths as int, MAGNITUDE_LIMIT as int);
        assert(MAGNITUDE_LIMIT * millionths <= 2_000_000_000_000_000 * 4_294_967_295)
            by (nonlinear_arith)
            requires
                millionths <= 4_294_967_295,
        ;
    }
    if amount >= 0 {
        let wide: i128 = amount as i128;
        assert(0 <= wide * (millionths as i128) <= 2_000_000_000_000_000 * 4_294_967_295)
            by (nonlinear_arith)
            requires
                0 <= wide <= 2_000_000_000_000_000,
                0 <= millionths <= 4_294_967_295,
        ;
        (wide * (millionths as i128) / 1_000_000) as i64
    } else {
        let wide: i128 = -(amount as i128);
        assert(0 <= wide * (millionths as i128) <= 2_000_000_000_000_000 * 4_294_967_295)
            by (nonlinear_arith)
            requires
                0 <= wide <= 2_000_000_000_000_000,
                0 <= millionths <= 4_294_967_295,
        ;
        -((wide * (millionths as i128) / 1_000_000) as i64)
    }
}

/// Limits `v` to `low ..= high`.
pub fn clamp(v: i128, low: i64, high: i64) -> (r: i64)
    requires
        low <= high,
    ensures
        r == clamped(v as int, low as int, high as int),
{
    if v < low as i128 {
        low
    } else if v > high as i128 {
        high
    } else {
        v as i64
    }
}

/// Moves a coordinate by `by` and keeps it inside the world.
pub fn shift(coord: i64, by: i64) -> (r: i64)
    ensures
        r == confined(coord + by),
        -WORLD_LIMIT <= r <= WORLD_LIMIT,
{
    clamp(coord as i128 + by as i128, -WORLD_LIMIT, WORLD_LIMIT)
}

/// Quotient of `num` by a positive `den`, rounded down.
pub fn floor_div(num: i128, den: i128) -> (q: i128)
    requires
        den > 0,
        num > i128::MIN,
    ensures
        q == num as int / den as int,
{
    if num >= 0 {
        num / den
    } else {
        let m: i128 = -num;
        let q0: i128 = m / den;
        let r0: i128 = m % den;
        proof {
            lemma_fundamental_div_mod(m as int, den as int);
            assert(0 <= q0 <= m) by (nonlinear_arith)
                requires
                    m == den * q0 + r0,
                    den > 0,
                    0 <= r0 < den,
                    0 <= m,
            ;
        }
        if r0 == 0 {
            proof {
                assert(num == (-q0) * den + 0) by (nonlinear_arith)
                    requires
                        m == den * q0 + r0,
                        r0 == 0,
                        num == -m,
                ;
                lemma_fundamental_div_mod_converse(num as int, den as int, -q0 as int, 0);
            }
            -q0
        } else {
            proof {
                assert(num == (-q0 - 1) * den + (den - r0)) by (nonlinear_arith)
                    requires
                        m == den * q0 + r0,
                        num == -m,
                ;
                lemma_fundamental_div_mod_converse(
                    num as int,
                    den as int,
                    -q0 - 1,
                    den - r0,
                );
            }
            -q0 - 1
        }
    }
}

/// Rounds a coordinate down to a tile boundary.
pub fn floor_to_tile(v: i64) -> (r: i64)
    requires
        i64::MIN + TILE <= v,
    ensures
        r == tile_floor(v as int),
        r % TILE == 0,
        r <= v < r + TILE,
        -WORLD_LIMIT <= v <= WORLD_LIMIT ==> -WORLD_LIMIT <= r <= WORLD_LIMIT,
{
    let q: i128 = floor_div(v as i128, TILE as i128);
    (q * 16_000_000) as i64
}

/// Rounds a coordinate up to a tile boundary.
pub fn ceil_to_tile(v: i64) -> (r: i64)
    requires
        v <= i64::MAX - TILE,
    ensures
        r == tile_ceil(v as int),
        r % TILE == 0,
        r - TILE < v <= r,
        -WORLD_LIMIT <= v <= WORLD_LIMIT ==> -WORLD_LIMIT <= r <= WORLD_LIMIT,
{
    let q: i128 = floor_div(-(v as i128), TILE as i128);
    (-(q * 16_000_000)) as i64
}

/// Maps `value` linearly from `in_start ..= in_end` onto
/// `out_start ..= out_end`, rounding down and extrapolating outside the input
/// range.
pub fn remap(value: i64, in_start: i64, in_end: i64, out_start: i64, out_end: i64) -> (r: i128)
    requires
        in_start < in_end,
        -MAGNITUDE_LIMIT <= value <= MAGNITUDE_LIMIT,
        -MAGNITUDE_LIMIT <= in_start,
        in_end <= MAGNITUDE_LIMIT,
        -MAGNITUDE_LIMIT <= out_start <= MAGNITUDE_LIMIT,
        -MAGNITUDE_LIMIT <= out_end <= MAGNITUDE_LIMIT,
    ensures
        r == remapped(
            value as int,
            in_start as int,
            in_end as int,
            out_start as int,
            out_end as int,
        ),
{
    let run: i128 = value as i128 - in_start as i128;
    let rise: i128 = out_end as i128 - out_start as i128;
    let span: i128 = in_end as i128 - in_start as i128;
    assert(-16_000_000_000_000_000_000_000_000_000_000 <= run * rise
        <= 16_000_000_000_000_000_000_000_000_000_000) by (nonlinear_arith)
        requires
            -4_000_000_000_000_000 <= run <= 4_000_000_000_000_000,
            -4_000_000_000_000_000 <= rise <= 4_000_000_000_000_000,
    ;
    let q: i128 = floor_div(run * rise, span);
    proof {
        let n = (run * rise) as int;
        lemma_fundamental_div_mod(n, span as int);
        assert(-16_000_000_000_000_000_000_000_000_000_000 - 1 <= q
            <= 16_000_000_000_000_000_000_000_000_000_000) by (nonlinear_arith)
            requires
                n == span * q + n % (span as int),
                0 <= n % (span as int) < span,
                span >= 1,
                -16_000_000_000_000_000_000_000_000_000_000 <= n
                    <= 16_000_000_000_000_000_000_000_000_000_000,
        ;
    }
    out_start as i128 + q
}

} // verus!
