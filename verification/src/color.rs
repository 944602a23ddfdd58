//! Colors and the mapping from iteration counts to pixels.
//!
//! A color is four 8-bit channels.  The fractional interpolation position
//! between two palette stops is a fixed-point value; out-of-range positions
//! extrapolate and the channels clamp, as a saturating float-to-byte cast
//! would.  The palette walk maps a packed iteration count into one of four
//! intervals of a five-stop cyclic palette, eased by a cubic smoothstep
//! approximation of the sinusoidal easing, which compresses emphasis away
//! from the extreme stops.  A point that reached the full budget is always
//! the fixed inside color (black), overriding the ramp.

use vstd::prelude::*;

verus! {

use crate::fixed::{FIX_ONE, fix_mul, fix_mul_spec, div_trunc, div_trunc_i64, lemma_div_trunc_mag, lemma_fix_mul_mag, lemma_fix_sq_nonneg};
use vstd::arithmetic::div_mod::{lemma_div_pos_is_pos, lemma_div_is_ordered};

/// An RGBA color, one byte per channel.
#[derive(Clone, Copy, Debug, PartialEq, Eq, Structural)]
pub struct Color {
    pub r: u8,
    pub g: u8,
    pub b: u8,
    pub a: u8,
}

impl Color {
    pub fn new(r: u8, g: u8, b: u8, a: u8) -> (c: Color)
        ensures
            c == (Color { r, g, b, a }),
    {
        Color { r, g, b, a }
    }

    /// The fixed inside color.
    pub fn black() -> (c: Color)
        ensures
            c == black_spec(),
    {
        Color { r: 0, g: 0, b: 0, a: 255 }
    }

    pub fn white() -> (c: Color)
        ensures
            c == white_spec(),
    {
        Color { r: 255, g: 255, b: 255, a: 255 }
    }

    /// The dark stop of the cyclic palette.
    pub fn dark_grey() -> (c: Color)
        ensures
            c == dark_grey_spec(),
    {
        Color { r: 25, g: 25, b: 25, a: 255 }
    }
}

pub open spec fn black_spec() -> Color {
    Color { r: 0, g: 0, b: 0, a: 255 }
}

pub open spec fn white_spec() -> Color {
    Color { r: 255, g: 255, b: 255, a: 255 }
}

pub open spec fn dark_grey_spec() -> Color {
    Color { r: 25, g: 25, b: 25, a: 255 }
}

/// A channel value forced into a byte.
pub open spec fn clamp_channel(v: int) -> int {
    if v < 0 {
        0
    } else if v > 255 {
        255
    } else {
        v
    }
}

/// One interpolated channel: `s + t * (e - s)` with a fixed-point `t`,
/// truncated and clamped.
pub open spec fn interp_channel_spec(s: int, e: int, t: int) -> int {
    clamp_channel(s + div_trunc(t * (e - s), FIX_ONE as int))
}

/// Linear interpolation between two colors at a fixed-point position; the
/// result is opaque.
pub open spec fn interpolate_color_spec(a: Color, b: Color, t: int) -> Color {
    Color {
        r: interp_channel_spec(a.r as int, b.r as int, t) as u8,
        g: interp_channel_spec(a.g as int, b.g as int, t) as u8,
        b: interp_channel_spec(a.b as int, b.b as int, t) as u8,
        a: 255,
    }
}

/// One interpolated channel, executable.
fn interp_channel(s: u8, e: u8, t: i64) -> (r: u8)
    requires
        -0x8_0000_0000 <= t <= 0x8_0000_0000,
    ensures
        r == interp_channel_spec(s as int, e as int, t as int),
{
    proof {
        assert((t * (e as int - s as int) == (e as int - s as int) * t)
            && -0x7F8_0000_0000 <= (e as int - s as int) * t <= 0x7F8_0000_0000) by (nonlinear_arith)
            requires
                -0x8_0000_0000 <= t <= 0x8_0000_0000,
                -255 <= e as int - s as int <= 255,
        ;
        lemma_div_trunc_mag((e as int - s as int) * t, 0x7F8_0000_0000, FIX_ONE as int);
    }
    let diff: i64 = (e as i64) - (s as i64);
    let shift = div_trunc_i64(t * diff, FIX_ONE);
    let v = (s as i64) + shift;
    if v < 0 {
        0
    } else if v > 255 {
        255
    } else {
        v as u8
    }
}

/// Linear interpolation between two colors at a fixed-point position.
pub fn interpolate_color(start_color: &Color, end_color: &Color, interpolation: i64) -> (r: Color)
    requires
        -0x8_0000_0000 <= interpolation <= 0x8_0000_0000,
    ensures
        r == interpolate_color_spec(*start_color, *end_color, interpolation as int),
{
    Color {
        r: interp_channel(start_color.r, end_color.r, interpolation),
        g: interp_channel(start_color.g, end_color.g, interpolation),
        b: interp_channel(start_color.b, end_color.b, interpolation),
        a: 255,
    }
}

/// Maps a raw reading from `[-1, 1]` onto `[0, upper]`:
/// `(value + 1) / 2 * upper`, in fixed point.
pub open spec fn normalize_spec(value: int, upper: int) -> int {
    fix_mul_spec(div_trunc(value + FIX_ONE, 2), upper)
}

/// Maps a raw reading from `[-1, 1]` onto `[0, upper]`.
pub fn normalize(value: i64, upper: i64) -> (r: i64)
    requires
        -FIX_ONE <= value <= FIX_ONE,
        0 <= upper <= 0x168_0000_0000,
    ensures
        r == normalize_spec(value as int, upper as int),
        0 <= r <= upper,
{
    proof {
        lemma_div_trunc_mag(value + FIX_ONE, 2 * FIX_ONE, 2);
        lemma_div_pos_is_pos(value + FIX_ONE, 2);
        lemma_fix_mul_mag(div_trunc(value + FIX_ONE, 2), upper as int, FIX_ONE as int, 0x168_0000_0000);
        assert(fix_mul_spec(div_trunc(value as int + FIX_ONE, 2), upper as int) <= upper) by {
            let h = div_trunc(value as int + FIX_ONE, 2);
            assert(h * upper <= FIX_ONE * upper) by (nonlinear_arith)
                requires
                    0 <= h <= FIX_ONE,
                    0 <= upper,
            ;
            lemma_div_is_ordered(h * (upper as int), FIX_ONE as int * upper, FIX_ONE as int);
            vstd::arithmetic::div_mod::lemma_div_multiples_vanish(upper as int, FIX_ONE as int);
            assert(FIX_ONE as int * upper == upper * FIX_ONE) by (nonlinear_arith);
            assert(h * upper >= 0) by (nonlinear_arith)
                requires
                    h >= 0,
                    upper >= 0,
            ;
            lemma_div_pos_is_pos(h * (upper as int), FIX_ONE as int);
        };
    }
    let h = div_trunc_i64(value + FIX_ONE, 2);
    fix_mul(h, upper)
}

/// The cyclic five-stop palette: the out color, white, the almost-in
/// color, dark grey, and the out color again.
pub open spec fn palette_spec(out: Color, almost_in: Color, k: int) -> Color {
    if k == 0 {
        out
    } else if k == 1 {
        white_spec()
    } else if k == 2 {
        almost_in
    } else if k == 3 {
        dark_grey_spec()
    } else {
        out
    }
}

/// The easing of the palette position: a cubic smoothstep approximation of
/// `-cos(pi * s / 2)` on `[0, 4)`, mirrored around its crest, with values
/// in `[-1, 1]` fixed point.
pub open spec fn ease_spec(s: int) -> int {
    let u = if s <= 2 * FIX_ONE {
        s
    } else {
        4 * FIX_ONE - s
    };
    let t = div_trunc(u, 2);
    let t2 = fix_mul_spec(t, t);
    let t3 = fix_mul_spec(t2, t);
    2 * (3 * t2 - 2 * t3) - FIX_ONE
}

/// The easing, executable.
pub fn ease(s: i64) -> (r: i64)
    requires
        0 <= s < 4 * FIX_ONE,
    ensures
        r == ease_spec(s as int),
        -FIX_ONE <= r <= 5 * FIX_ONE,
{
    let u = if s <= 2 * FIX_ONE {
        s
    } else {
        4 * FIX_ONE - s
    };
    proof {
        lemma_div_trunc_mag(u as int, 2 * FIX_ONE, 2);
        lemma_div_pos_is_pos(u as int, 2);
    }
    let t = div_trunc_i64(u, 2);
    proof {
        lemma_fix_mul_mag(t as int, t as int, FIX_ONE as int, FIX_ONE as int);
        lemma_fix_sq_nonneg(t as int);
    }
    let t2 = fix_mul(t, t);
    proof {
        lemma_fix_mul_mag(t2 as int, t as int, FIX_ONE as int, FIX_ONE as int);
    }
    let t3 = fix_mul(t2, t);
    proof {
        assert(t2 * t >= 0) by (nonlinear_arith)
            requires
                t2 >= 0,
                t >= 0,
        ;
        lemma_div_pos_is_pos(t2 * t, FIX_ONE as int);
        // the cubic term never exceeds the quadratic one
        assert(t2 * t <= t2 * FIX_ONE) by (nonlinear_arith)
            requires
                t2 >= 0,
                t <= FIX_ONE,
        ;
        lemma_div_is_ordered(t2 * t, t2 * (FIX_ONE as int), FIX_ONE as int);
        vstd::arithmetic::div_mod::lemma_div_by_multiple(t2 as int, FIX_ONE as int);
    }
    2 * (3 * t2 - 2 * t3) - FIX_ONE
}

/// The color of one packed iteration count under the current palette: the
/// inside color at the full budget, otherwise the eased cyclic walk, one
/// palette interval per twenty-five iterations.
pub open spec fn color_for_count_spec(count: int, max_iterations: int, out: Color, almost_in: Color) -> Color {
    if count >= max_iterations * (FIX_ONE as int) {
        black_spec()
    } else {
        let interpolation = (count / 25) % (4 * FIX_ONE as int);
        let color1_index = interpolation / (FIX_ONE as int);
        let sub = ease_spec(interpolation);
        let sign: int = if color1_index < 2 {
            1
        } else {
            -1
        };
        let adder: int = if color1_index % 2 == 0 {
            FIX_ONE as int
        } else {
            0
        };
        interpolate_color_spec(
            palette_spec(out, almost_in, color1_index),
            palette_spec(out, almost_in, color1_index + 1),
            adder + sign * sub,
        )
    }
}

/// The color of one packed iteration count, executable.
pub fn color_for_count(count: u64, max_iterations: usize, out: &Color, almost_in: &Color) -> (r: Color)
    requires
        count <= 0x20_0000_0000_0000,
        max_iterations <= 0x10_0000,
    ensures
        r == color_for_count_spec(count as int, max_iterations as int, *out, *almost_in),
{
    proof {
        vstd::arithmetic::mul::lemma_mul_upper_bound(max_iterations as int, 0x10_0000, FIX_ONE as int, FIX_ONE as int);
        vstd::arithmetic::mul::lemma_mul_nonnegative(max_iterations as int, FIX_ONE as int);
    }
    if count >= (max_iterations as u64) * (FIX_ONE as u64) {
        return Color::black();
    }
    let interpolation = (count / 25) % (4 * (FIX_ONE as u64));
    let color1_index = interpolation / (FIX_ONE as u64);
    let sub = ease(interpolation as i64);
    let sign: i64 = if color1_index < 2 {
        1
    } else {
        -1
    };
    let adder: i64 = if color1_index % 2 == 0 {
        FIX_ONE
    } else {
        0
    };
    let c1 = palette_color(out, almost_in, color1_index);
    let c2 = palette_color(out, almost_in, color1_index + 1);
    interpolate_color(&c1, &c2, adder + sign * sub)
}

/// One stop of the cyclic palette.
fn palette_color(out: &Color, almost_in: &Color, k: u64) -> (r: Color)
    ensures
        r == palette_spec(*out, *almost_in, k as int),
{
    if k == 0 {
        *out
    } else if k == 1 {
        Color::white()
    } else if k == 2 {
        *almost_in
    } else if k == 3 {
        Color::dark_grey()
    } else {
        *out
    }
}

} // verus!
