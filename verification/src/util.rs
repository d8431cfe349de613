//! Small arithmetic helpers shared by the size-policy functions: clamping,
//! rounding down to an even value, and scaling a span by a fixed-point factor.

use vstd::prelude::*;

verus! {

/// `v` forced into `[min, max]`; when `min > max`, `max` wins, as with
/// `v.max(min).min(max)`.
pub open spec fn spec_clamp_i32(v: int, min: int, max: int) -> int {
    let lo = if v < min {
        min
    } else {
        v
    };
    if lo > max {
        max
    } else {
        lo
    }
}

pub fn clamp_i32(v: i32, min: i32, max: i32) -> (r: i32)
    ensures
        r == spec_clamp_i32(v as int, min as int, max as int),
{
    let lo = if v < min {
        min
    } else {
        v
    };
    if lo > max {
        max
    } else {
        lo
    }
}

/// The largest even value not above `v`, floored at 2: the compositor rejects
/// odd or near-zero pixel dimensions.
pub open spec fn spec_even_floor(v: int) -> int {
    if v <= 2 {
        2
    } else if v % 2 == 0 {
        v
    } else {
        v - 1
    }
}

pub fn even_floor(v: i32) -> (r: i32)
    ensures
        r == spec_even_floor(v as int),
        r >= 2,
        r % 2 == 0,
        v >= 2 ==> r <= v,
{
    if v <= 2 {
        2
    } else if v % 2 == 0 {
        v
    } else {
        v - 1
    }
}

/// `a / b` rounded to the nearest integer, halves away from zero, for
/// non-negative `a` and positive `b`.
pub open spec fn spec_round_div(a: int, b: int) -> int {
    (2 * a + b) / (2 * b)
}

pub fn round_div(a: i128, b: i128) -> (r: i128)
    requires
        0 <= a <= 0x7fff_ffff_ffff_ffff,
        1 <= b <= 0x7fff_ffff_ffff_ffff,
    ensures
        r == spec_round_div(a as int, b as int),
        r >= 0,
{
    proof {
        assert(0 <= (2 * a + b) / (2 * b) <= a) by (nonlinear_arith)
            requires
                0 <= a,
                1 <= b,
        ;
    }
    (2 * a + b) / (2 * b)
}

/// One axis of the scale-factor fallback: the span dimension multiplied by a
/// scale given in parts per million, rounded, then clamped to `[2, span]` and
/// floored to even.
pub open spec fn spec_scaled_dim(span: int, ppm: int) -> int {
    if span <= 2 {
        2
    } else {
        spec_even_floor(spec_clamp_i32(spec_round_div(span * ppm, 1_000_000), 2, span))
    }
}

fn scaled_dim(span: i32, scale_ppm: u32) -> (r: i32)
    ensures
        r == spec_scaled_dim(span as int, scale_ppm as int),
        r >= 2,
        r % 2 == 0,
        span >= 2 ==> r <= span,
{
    if span <= 2 {
        2
    } else {
        proof {
            assert(span * scale_ppm <= 0x7fff_ffff_ffff_ffff) by (nonlinear_arith)
                requires
                    0 <= span < 0x8000_0000,
                    0 <= scale_ppm < 0x1_0000_0000,
            ;
        }
        let rounded: i128 = round_div((span as i128) * (scale_ppm as i128), 1_000_000);
        let clamped: i128 = if rounded < 2 {
            2
        } else if rounded > span as i128 {
            span as i128
        } else {
            rounded
        };
        assert(clamped == spec_clamp_i32(spec_round_div(span as int * scale_ppm as int, 1_000_000), 2, span as int));
        even_floor(clamped as i32)
    }
}

/// Both axes of the scale-factor fallback, as used when neither internal
/// dimension is overridden.
pub open spec fn spec_scaled_dimensions(span_width: int, span_height: int, ppm: int) -> (
    int,
    int,
) {
    (spec_scaled_dim(span_width, ppm), spec_scaled_dim(span_height, ppm))
}

pub fn scaled_dimensions(span_width: i32, span_height: i32, scale_ppm: u32) -> (r: (i32, i32))
    ensures
        (r.0 as int, r.1 as int) == spec_scaled_dimensions(
            span_width as int,
            span_height as int,
            scale_ppm as int,
        ),
        r.0 >= 2 && r.1 >= 2,
        r.0 % 2 == 0 && r.1 % 2 == 0,
        span_width >= 2 ==> r.0 <= span_width,
        span_height >= 2 ==> r.1 <= span_height,
{
    (scaled_dim(span_width, scale_ppm), scaled_dim(span_height, scale_ppm))
}

} // verus!
