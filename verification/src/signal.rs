//! Shared parameters of the aligned A/V test sources.
//!
//! The two sources never share state; they agree only on the pip interval and on
//! functions of running time, which is what makes their output phase-locked when
//! they run under one clock. Times are running times in nanoseconds.

use vstd::prelude::*;

verus! {

/// Default pip interval: one second between beeps / bar-centre crossings.
pub const DEFAULT_PIP_INTERVAL: u64 = 1_000_000_000;

pub const DEFAULT_FRAMERATE_NUM: i32 = 30_000;

pub const DEFAULT_FRAMERATE_DEN: i32 = 1_001;

pub const DEFAULT_WIDTH: i32 = 1_280;

pub const DEFAULT_HEIGHT: i32 = 720;

pub const DEFAULT_RATE: i32 = 48_000;

pub const DEFAULT_CHANNELS: i32 = 1;

pub const DEFAULT_SAMPLES_PER_BUFFER: i32 = 1_024;

/// Default pip length: a short tone burst (a handful of cycles), so the pip marks
/// its instant sharply rather than spanning a large fraction of a video frame.
pub const DEFAULT_PIP_DURATION: u64 = 4_000_000;

/// SMPTE 291 ancillary identifier carrying the frame index, in the user
/// application space (DID 0x5F / SDID 0xFF); not exposed as a property.
pub const ANC_DID: u8 = 0x5F;

pub const ANC_SDID: u8 = 0xFF;

pub const ANC_LINE: u16 = 9;

pub const ANC_OFFSET: u16 = 0;

/// 10-bit narrow-range luma for black / white and neutral chroma.
pub const LUMA_BLACK: u16 = 64;

pub const LUMA_WHITE: u16 = 940;

pub const CHROMA_NEUTRAL: u16 = 512;

/// One second, in nanoseconds.
pub const SECOND: u64 = 1_000_000_000;

/// `a * b / c`, rounded down.
pub open spec fn scaled(a: int, b: int, c: int) -> int {
    (a * b) / c
}

/// `a * b / c`, rounded down, where 64 bits hold it. The product may be larger.
pub fn mul_div_floor(a: u64, b: u64, c: u64) -> (r: Option<u64>)
    requires
        c > 0,
    ensures
        match r {
            Some(v) => v == scaled(a as int, b as int, c as int),
            None => scaled(a as int, b as int, c as int) > u64::MAX,
        },
{
    proof {
        assert(a * b <= 0xffff_ffff_ffff_ffff * 0xffff_ffff_ffff_ffff) by (nonlinear_arith)
            requires
                0 <= a <= 0xffff_ffff_ffff_ffff,
                0 <= b <= 0xffff_ffff_ffff_ffff,
        ;
    }
    let q: u128 = (a as u128 * b as u128) / (c as u128);
    if q <= u64::MAX as u128 {
        Some(q as u64)
    } else {
        None
    }
}

/// Scaling keeps order.
pub proof fn scaled_is_monotonic(a: int, x: int, y: int, c: int)
    requires
        a >= 0,
        0 <= x <= y,
        c > 0,
    ensures
        0 <= scaled(a, x, c) <= scaled(a, y, c),
{
    assert(0 <= a * x <= a * y) by (nonlinear_arith)
        requires
            a >= 0,
            0 <= x <= y,
    ;
    vstd::arithmetic::div_mod::lemma_div_is_ordered(a * x, a * y, c);
    vstd::arithmetic::div_mod::lemma_div_pos_is_pos(a * x, c);
}

/// Distance between two columns on a circle of `width` columns: the shorter way
/// round.
pub open spec fn columns_apart(a: int, b: int, width: int) -> int {
    let d = if a >= b {
        a - b
    } else {
        b - a
    };
    if d <= width - d {
        d
    } else {
        width - d
    }
}

/// Circular column distance, so the bar wraps cleanly at the frame edge. The two
/// columns may be at most `width` apart.
pub fn circular_distance(a: u32, b: u32, width: u32) -> (distance: u32)
    requires
        a - b <= width,
        b - a <= width,
    ensures
        distance == columns_apart(a as int, b as int, width as int),
{
    let d: u32 = if a >= b {
        a - b
    } else {
        b - a
    };
    if d <= width - d {
        d
    } else {
        width - d
    }
}

/// The distance does not depend on the order of the columns, is zero exactly
/// between a column and itself, and is never more than half the circle.
pub proof fn circular_distance_is_a_distance(a: int, b: int, width: int)
    requires
        0 <= a < width,
        0 <= b < width,
    ensures
        columns_apart(a, b, width) == columns_apart(b, a, width),
        columns_apart(a, b, width) == 0 <==> a == b,
        0 <= columns_apart(a, b, width),
        2 * columns_apart(a, b, width) <= width,
{
}

/// The bar wraps at the frame edge: moving both columns by the same amount, round
/// the circle, leaves their distance as it was.
pub proof fn circular_distance_wraps(a: int, b: int, shift: int, width: int)
    requires
        0 <= a < width,
        0 <= b < width,
        0 <= shift < width,
    ensures
        columns_apart((a + shift) % width, (b + shift) % width, width) == columns_apart(
            a,
            b,
            width,
        ),
{
    assert((a + shift) % width == if a + shift < width {
        a + shift
    } else {
        a + shift - width
    }) by {
        if a + shift < width {
            vstd::arithmetic::div_mod::lemma_small_mod((a + shift) as nat, width as nat);
        } else {
            vstd::arithmetic::div_mod::lemma_mod_sub_multiples_vanish(a + shift, width);
            vstd::arithmetic::div_mod::lemma_small_mod((a + shift - width) as nat, width as nat);
        }
    }
    assert((b + shift) % width == if b + shift < width {
        b + shift
    } else {
        b + shift - width
    }) by {
        if b + shift < width {
            vstd::arithmetic::div_mod::lemma_small_mod((b + shift) as nat, width as nat);
        } else {
            vstd::arithmetic::div_mod::lemma_mod_sub_multiples_vanish(b + shift, width);
            vstd::arithmetic::div_mod::lemma_small_mod((b + shift - width) as nat, width as nat);
        }
    }
}

/// Scaling is division with the remainder dropped.
pub proof fn scaled_is_the_floor(a: int, b: int, c: int)
    requires
        a >= 0,
        b >= 0,
        c > 0,
    ensures
        scaled(a, b, c) * c <= a * b < (scaled(a, b, c) + 1) * c,
{
    let n = a * b;
    let q = scaled(a, b, c);
    vstd::arithmetic::div_mod::lemma_fundamental_div_mod(n, c);
    vstd::arithmetic::div_mod::lemma_mod_bound(n, c);
    assert(q * c <= n < (q + 1) * c) by (nonlinear_arith)
        requires
            n == c * q + n % c,
            0 <= n % c < c,
    ;
}

/// Going right from one column by the distance, or left by it, leads to the other, round the
/// circle.
pub proof fn circular_distance_is_a_walk(a: int, b: int, width: int)
    requires
        0 <= a < width,
        0 <= b < width,
    ensures
        ({
            let d = columns_apart(a, b, width);
            a + d == b || a + d - width == b || a - d == b || a - d + width == b
        }),
{
}

} // verus!
