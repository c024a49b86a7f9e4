//! Packed RGBA colors and opacity scaling.
//!
//! A color is a 32-bit value holding four 8-bit channels, red, green,
//! blue and alpha from most to least significant byte. Applying an
//! opacity scales the three color channels by a factor in the unit
//! interval, rounding to the nearest integer, and overwrites the alpha
//! channel with the scaled equivalent of full opacity. The factor is an
//! exact ratio `num / den`; out-of-range ratios are clamped, never
//! rejected.

use vstd::arithmetic::div_mod::{
    lemma_basic_div, lemma_div_multiples_vanish_fancy, lemma_div_pos_is_pos,
    lemma_multiply_divide_lt,
};
use vstd::arithmetic::mul::{lemma_mul_is_associative, lemma_mul_upper_bound};
use vstd::prelude::*;

verus! {

/// Red channel of a packed color: its most significant byte.
pub open spec fn red_of(c: u32) -> u32 {
    (c >> 24) & 0xFF
}

/// Green channel of a packed color: its second most significant byte.
pub open spec fn green_of(c: u32) -> u32 {
    (c >> 16) & 0xFF
}

/// Blue channel of a packed color: its third most significant byte.
pub open spec fn blue_of(c: u32) -> u32 {
    (c >> 8) & 0xFF
}

/// Alpha channel of a packed color: its least significant byte.
pub open spec fn alpha_of(c: u32) -> u32 {
    c & 0xFF
}

/// The packed form of four 8-bit channels, red in the most significant
/// byte and alpha in the least significant one.
pub open spec fn pack_spec(r: u32, g: u32, b: u32, a: u32) -> u32
    recommends
        r < 256,
        g < 256,
        b < 256,
        a < 256,
{
    (r << 24) | (g << 16) | (b << 8) | a
}

/// Splits a packed color into its red, green, blue and alpha channels,
/// in that order.
pub fn unpack_rgba(c: u32) -> (r: (u32, u32, u32, u32))
    ensures
        r.0 == red_of(c),
        r.1 == green_of(c),
        r.2 == blue_of(c),
        r.3 == alpha_of(c),
        r.0 < 256,
        r.1 < 256,
        r.2 < 256,
        r.3 < 256,
{
    proof {
        assert((c >> 24) & 0xFF < 256 && (c >> 16) & 0xFF < 256 && (c >> 8) & 0xFF < 256 && c
            & 0xFF < 256) by (bit_vector);
    }
    ((c >> 24) & 0xFF, (c >> 16) & 0xFF, (c >> 8) & 0xFF, c & 0xFF)
}

/// Packs four 8-bit channels into one color, red in the most significant
/// byte; each channel of the result reads back as the value packed.
pub fn pack_rgba(r: u32, g: u32, b: u32, a: u32) -> (c: u32)
    requires
        r < 256,
        g < 256,
        b < 256,
        a < 256,
    ensures
        c == pack_spec(r, g, b, a),
        red_of(c) == r,
        green_of(c) == g,
        blue_of(c) == b,
        alpha_of(c) == a,
{
    proof {
        lemma_pack_channels(r, g, b, a);
    }
    (r << 24) | (g << 16) | (b << 8) | a
}

/// The integer nearest to the ratio `n / d`, halves rounded up; meant
/// for a non-negative `n` and a positive `d`.
pub open spec fn round_half_up(n: int, d: int) -> int
    recommends
        d > 0,
        n >= 0,
{
    (2 * n + d) / (2 * d)
}

/// The numerator of an opacity ratio `n / d` forced into `[0, d]`, so
/// that the clamped ratio lies in the unit interval.
pub open spec fn clamp_unit_num(n: int, d: int) -> int
    recommends
        d > 0,
{
    if n < 0 {
        0
    } else if n > d {
        d
    } else {
        n
    }
}

/// One 8-bit channel scaled by the clamped opacity ratio `n / d` and
/// rounded to the nearest integer, halves up.
pub open spec fn scaled_channel(ch: int, n: int, d: int) -> int
    recommends
        d > 0,
        0 <= ch < 256,
{
    round_half_up(ch * clamp_unit_num(n, d), d)
}

/// The color `c` with the opacity ratio `n / d` applied: red, green and
/// blue are scaled by the clamped ratio, and the alpha channel becomes
/// the clamped ratio of 255, the fully opaque alpha.
pub open spec fn apply_alpha_spec(c: u32, n: int, d: int) -> u32
    recommends
        d > 0,
{
    pack_spec(
        scaled_channel(red_of(c) as int, n, d) as u32,
        scaled_channel(green_of(c) as int, n, d) as u32,
        scaled_channel(blue_of(c) as int, n, d) as u32,
        round_half_up(255 * clamp_unit_num(n, d), d) as u32,
    )
}

/// Rounding preserves bounds: whenever the exact ratio `x / d` lies in
/// `[0, m]`, so does its nearest integer.
proof fn lemma_round_le(x: int, d: int, m: int)
    requires
        d > 0,
        0 <= x,
        x <= m * d,
    ensures
        0 <= round_half_up(x, d) <= m,
{
    lemma_div_pos_is_pos(2 * x + d, 2 * d);
    assert(2 * x + d < (2 * d) * (m + 1)) by (nonlinear_arith)
        requires
            x <= m * d,
            d > 0,
    ;
    lemma_multiply_divide_lt(2 * x + d, 2 * d, m + 1);
}

/// Rounding an exact multiple of the denominator gives the multiplier
/// back: `round_half_up(x * d, d) == x`.
proof fn lemma_round_exact(x: int, d: int)
    requires
        d > 0,
    ensures
        round_half_up(x * d, d) == x,
{
    assert(2 * (x * d) == (2 * d) * x) by (nonlinear_arith);
    lemma_div_multiples_vanish_fancy(x, d, 2 * d);
}

/// One 8-bit channel value scaled by the opacity ratio `num / den`,
/// already clamped to the unit interval, and rounded to the nearest
/// integer, halves up.
fn scale_channel(ch: u32, num: i64, den: i64) -> (q: u32)
    requires
        ch < 256,
        den > 0,
        0 <= num <= den,
    ensures
        q == round_half_up(ch as int * num as int, den as int),
        q < 256,
{
    proof {
        lemma_mul_upper_bound(ch as int, 255, num as int, den as int);
        lemma_round_le(ch as int * num as int, den as int, 255);
        assert(2 * (ch as int) * (num as int) == 2 * ((ch as int) * (num as int))) by {
            lemma_mul_is_associative(2, ch as int, num as int);
        }
    }
    let wide: u128 = 2 * (ch as u128) * (num as u128) + (den as u128);
    let q: u128 = wide / (2 * (den as u128));
    q as u32
}

/// The color with the opacity ratio `num / den` applied: red, green and
/// blue are scaled by the ratio clamped to the unit interval, rounding
/// to the nearest integer, and the alpha channel becomes the clamped
/// ratio of 255. Out-of-range ratios are clamped, never rejected.
pub fn apply_alpha_frac(color: u32, num: i64, den: i64) -> (r: u32)
    requires
        den > 0,
    ensures
        r == apply_alpha_spec(color, num as int, den as int),
        red_of(r) == scaled_channel(red_of(color) as int, num as int, den as int),
        green_of(r) == scaled_channel(green_of(color) as int, num as int, den as int),
        blue_of(r) == scaled_channel(blue_of(color) as int, num as int, den as int),
        alpha_of(r) == round_half_up(255 * clamp_unit_num(num as int, den as int), den as int),
{
    let channels: (u32, u32, u32, u32) = unpack_rgba(color);
    let n: i64 = if num < 0 {
        0
    } else if num > den {
        den
    } else {
        num
    };
    let red_s: u32 = scale_channel(channels.0, n, den);
    let green_s: u32 = scale_channel(channels.1, n, den);
    let blue_s: u32 = scale_channel(channels.2, n, den);
    let alpha_s: u32 = scale_channel(255, n, den);
    pack_rgba(red_s, green_s, blue_s, alpha_s)
}

/// Full opacity is the identity on the color channels: an opacity ratio
/// equal to one leaves red, green and blue unchanged and sets the alpha
/// channel to 255, fully opaque.
pub proof fn lemma_apply_alpha_full(c: u32, d: int)
    requires
        d > 0,
    ensures
        apply_alpha_spec(c, d, d) == pack_spec(red_of(c), green_of(c), blue_of(c), 255),
        red_of(apply_alpha_spec(c, d, d)) == red_of(c),
        green_of(apply_alpha_spec(c, d, d)) == green_of(c),
        blue_of(apply_alpha_spec(c, d, d)) == blue_of(c),
        alpha_of(apply_alpha_spec(c, d, d)) == 255,
{
    lemma_round_exact(red_of(c) as int, d);
    lemma_round_exact(green_of(c) as int, d);
    lemma_round_exact(blue_of(c) as int, d);
    lemma_round_exact(255, d);
    assert(red_of(c) < 256 && green_of(c) < 256 && blue_of(c) < 256) by (bit_vector);
    lemma_pack_channels(red_of(c), green_of(c), blue_of(c), 255);
}

/// Zero opacity blanks the color entirely: every channel of the result,
/// alpha included, is zero, so the packed result is zero.
pub proof fn lemma_apply_alpha_zero(c: u32, d: int)
    requires
        d > 0,
    ensures
        apply_alpha_spec(c, 0, d) == 0,
{
    lemma_basic_div(d, 2 * d);
    assert(pack_spec(0, 0, 0, 0) == 0) by (bit_vector);
}

/// An out-of-range opacity ratio is clamped: a negative numerator acts
/// exactly as zero opacity, and a numerator above the denominator acts
/// exactly as full opacity.
pub proof fn lemma_apply_alpha_clamped(c: u32, n: int, d: int)
    requires
        d > 0,
    ensures
        n < 0 ==> apply_alpha_spec(c, n, d) == apply_alpha_spec(c, 0, d),
        n > d ==> apply_alpha_spec(c, n, d) == apply_alpha_spec(c, d, d),
{
}

/// Each channel of a packed color reads back as the value that was
/// packed into it.
proof fn lemma_pack_channels(r: u32, g: u32, b: u32, a: u32)
    by (bit_vector)
    requires
        r < 256,
        g < 256,
        b < 256,
        a < 256,
    ensures
        red_of(pack_spec(r, g, b, a)) == r,
        green_of(pack_spec(r, g, b, a)) == g,
        blue_of(pack_spec(r, g, b, a)) == b,
        alpha_of(pack_spec(r, g, b, a)) == a,
{
}

} // verus!
