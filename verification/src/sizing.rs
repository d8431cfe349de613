//! The size-policy resolver: derives the window's output size from the
//! monitor span, and the internal (render) size from the output size.  Both
//! derivations share one rule set: an explicit pair is clamped to `[2, bound]`
//! and floored to even independently; a single explicit dimension is clamped
//! and evened, and the other is inferred from the source aspect ratio; with no
//! explicit dimension the output keeps the bound unchanged while the internal
//! size falls back to the scale factor.

use vstd::prelude::*;

use crate::util::{
    clamp_i32, even_floor, round_div, scaled_dimensions, spec_clamp_i32, spec_even_floor,
    spec_round_div, spec_scaled_dimensions,
};

verus! {

/// A requested dimension forced into `[2, bound]` and floored to even.
pub open spec fn spec_clamp_even(v: int, bound: int) -> int {
    spec_even_floor(spec_clamp_i32(v, 2, bound))
}

/// The dimension inferred for the non-overridden axis: the given (already
/// clamped and evened) dimension scaled by the source aspect ratio, rounded,
/// then clamped and evened against its own bound.
pub open spec fn spec_infer_other(given: int, other_bound: int, given_bound: int) -> int {
    spec_clamp_even(spec_round_div(given * other_bound, given_bound), other_bound)
}

/// What `derive_output_size` returns: explicit dimensions are clamped and
/// evened, a missing one is inferred by aspect ratio, and with no overrides
/// the span is kept unchanged (1:1).
pub open spec fn spec_derive_output(
    span_width: int,
    span_height: int,
    output_width: Option<i32>,
    output_height: Option<i32>,
) -> (int, int) {
    match (output_width, output_height) {
        (Some(w), Some(h)) => (
            spec_clamp_even(w as int, span_width),
            spec_clamp_even(h as int, span_height),
        ),
        (Some(w), None) => {
            let wq = spec_clamp_even(w as int, span_width);
            (wq, spec_infer_other(wq, span_height, span_width))
        },
        (None, Some(h)) => {
            let hq = spec_clamp_even(h as int, span_height);
            (spec_infer_other(hq, span_width, span_height), hq)
        },
        (None, None) => (span_width, span_height),
    }
}

/// What `derive_internal_size` returns: the same override rules against the
/// output bounds, but the no-override fallback applies the render scale.
pub open spec fn spec_derive_internal(
    bound_width: int,
    bound_height: int,
    scale_ppm: int,
    virtual_width: Option<i32>,
    virtual_height: Option<i32>,
) -> (int, int) {
    match (virtual_width, virtual_height) {
        (Some(w), Some(h)) => (
            spec_clamp_even(w as int, bound_width),
            spec_clamp_even(h as int, bound_height),
        ),
        (Some(w), None) => {
            let wq = spec_clamp_even(w as int, bound_width);
            (wq, spec_infer_other(wq, bound_height, bound_width))
        },
        (None, Some(h)) => {
            let hq = spec_clamp_even(h as int, bound_height);
            (spec_infer_other(hq, bound_width, bound_height), hq)
        },
        (None, None) => spec_scaled_dimensions(bound_width, bound_height, scale_ppm),
    }
}

fn clamp_even(v: i32, bound: i32) -> (r: i32)
    ensures
        r == spec_clamp_even(v as int, bound as int),
        r >= 2,
        r % 2 == 0,
        bound >= 2 ==> r <= bound,
{
    even_floor(clamp_i32(v, 2, bound))
}

/// The dimension inferred for the non-overridden axis, as executable code:
/// `round(given * other_bound / given_bound)`, clamped and evened.
fn infer_other(given: i32, other_bound: i32, given_bound: i32) -> (r: i32)
    requires
        given >= 0,
        other_bound >= 0,
        given_bound >= 1,
    ensures
        r == spec_infer_other(given as int, other_bound as int, given_bound as int),
        r >= 2,
        r % 2 == 0,
        other_bound >= 2 ==> r <= other_bound,
{
    proof {
        assert(0 <= given * other_bound <= 0x7fff_ffff_ffff_ffff) by (nonlinear_arith)
            requires
                0 <= given < 0x8000_0000,
                0 <= other_bound < 0x8000_0000,
        ;
    }
    let rounded: i128 = round_div((given as i128) * (other_bound as i128), given_bound as i128);
    let capped: i32 = if rounded > 0x7fff_ffff {
        0x7fff_ffff
    } else {
        rounded as i32
    };
    assert(spec_clamp_i32(rounded as int, 2, other_bound as int) == spec_clamp_i32(
        capped as int,
        2,
        other_bound as int,
    ));
    clamp_even(capped, other_bound)
}

/// The window's outer size derived from the monitor span, honoring explicit
/// overrides; with no overrides the span is kept 1:1.  Every overridden or
/// inferred dimension comes back even, at least 2, and within its bound.
pub fn derive_output_size(
    span_width: i32,
    span_height: i32,
    output_width: Option<i32>,
    output_height: Option<i32>,
) -> (r: (i32, i32))
    requires
        span_width >= 1,
        span_height >= 1,
    ensures
        (r.0 as int, r.1 as int) == spec_derive_output(
            span_width as int,
            span_height as int,
            output_width,
            output_height,
        ),
        output_width is Some || output_height is Some ==> {
            &&& r.0 >= 2 && r.1 >= 2
            &&& r.0 % 2 == 0 && r.1 % 2 == 0
            &&& span_width >= 2 ==> r.0 <= span_width
            &&& span_height >= 2 ==> r.1 <= span_height
        },
        output_width is None && output_height is None ==> r == (span_width, span_height),
{
    match (output_width, output_height) {
        (Some(w), Some(h)) => (clamp_even(w, span_width), clamp_even(h, span_height)),
        (Some(w), None) => {
            let wq = clamp_even(w, span_width);
            (wq, infer_other(wq, span_height, span_width))
        },
        (None, Some(h)) => {
            let hq = clamp_even(h, span_height);
            (infer_other(hq, span_width, span_height), hq)
        },
        (None, None) => (span_width, span_height),
    }
}

/// The internal render size derived from the output size, honoring explicit
/// overrides and otherwise falling back to the render scale (parts per
/// million).  The result is always even, at least 2 per axis, and within the
/// bound whenever the bound admits it.
pub fn derive_internal_size(
    bound_width: i32,
    bound_height: i32,
    scale_ppm: u32,
    virtual_width: Option<i32>,
    virtual_height: Option<i32>,
) -> (r: (i32, i32))
    requires
        bound_width >= 1,
        bound_height >= 1,
    ensures
        (r.0 as int, r.1 as int) == spec_derive_internal(
            bound_width as int,
            bound_height as int,
            scale_ppm as int,
            virtual_width,
            virtual_height,
        ),
        r.0 >= 2 && r.1 >= 2,
        r.0 % 2 == 0 && r.1 % 2 == 0,
        bound_width >= 2 ==> r.0 <= bound_width,
        bound_height >= 2 ==> r.1 <= bound_height,
{
    match (virtual_width, virtual_height) {
        (Some(w), Some(h)) => (clamp_even(w, bound_width), clamp_even(h, bound_height)),
        (Some(w), None) => {
            let wq = clamp_even(w, bound_width);
            (wq, infer_other(wq, bound_height, bound_width))
        },
        (None, Some(h)) => {
            let hq = clamp_even(h, bound_height);
            (infer_other(hq, bound_width, bound_height), hq)
        },
        (None, None) => scaled_dimensions(bound_width, bound_height, scale_ppm),
    }
}

/// The shared inference rule preserves the source aspect ratio within
/// integer rounding: whenever the rounded value escapes both clamps, the
/// inferred dimension `h` satisfies `|h/given - other_bound/given_bound| <=
/// 3/(2*given)` — half a unit of rounding plus at most one unit of evening.
/// Both derivation policies infer every missing dimension through this rule,
/// so the bound applies to each of their single-override cases.  (When the
/// clamps do bind — a span of 10000x10 with an override of 2 infers a height
/// of 0 and is forced up to 2 — the ratio is deliberately abandoned for the
/// compositor's minimum.)
pub proof fn lemma_infer_preserves_aspect(given: int, other_bound: int, given_bound: int)
    requires
        given_bound >= 1,
        other_bound >= 2,
        given >= 0,
        2 <= spec_round_div(given * other_bound, given_bound),
        spec_round_div(given * other_bound, given_bound) <= other_bound,
    ensures
        ({
            let h = spec_infer_other(given, other_bound, given_bound);
            -3 * given_bound <= 2 * (h * given_bound - given * other_bound) && 2 * (h
                * given_bound - given * other_bound) <= 3 * given_bound
        }),
{
    let a = given * other_bound;
    let b = given_bound;
    let q = spec_round_div(a, b);
    vstd::arithmetic::div_mod::lemma_fundamental_div_mod(2 * a + b, 2 * b);
    vstd::arithmetic::div_mod::lemma_mod_bound(2 * a + b, 2 * b);
    let r = (2 * a + b) % (2 * b);
    assert(2 * a + b == 2 * b * q + r);
    assert(2 * (q * b - a) == b - r) by (nonlinear_arith)
        requires
            2 * a + b == 2 * b * q + r,
    ;
    let h = spec_infer_other(given, other_bound, given_bound);
    assert(h == q || h == q - 1);
    assert(2 * ((q - 1) * b - a) == b - r - 2 * b) by (nonlinear_arith)
        requires
            2 * (q * b - a) == b - r,
    ;
}

/// The aspect bound instantiated on the output policy's width-override case:
/// the width is clamped and evened, and the height inferred for it stays
/// within the rounding bound of the span's aspect ratio.
pub proof fn lemma_derive_output_aspect(span_width: i32, span_height: i32, w: i32)
    requires
        span_width >= 1,
        span_height >= 2,
        2 <= spec_round_div(
            spec_clamp_even(w as int, span_width as int) * span_height,
            span_width as int,
        ),
        spec_round_div(
            spec_clamp_even(w as int, span_width as int) * span_height,
            span_width as int,
        ) <= span_height,
    ensures
        ({
            let r = spec_derive_output(span_width as int, span_height as int, Some(w), None);
            -3 * span_width <= 2 * (r.1 * span_width - r.0 * span_height) && 2 * (r.1 * span_width
                - r.0 * span_height) <= 3 * span_width
        }),
{
    let wq = spec_clamp_even(w as int, span_width as int);
    lemma_infer_preserves_aspect(wq, span_height as int, span_width as int);
}

/// The same bound on the internal policy's width-override case.
pub proof fn lemma_derive_internal_aspect(
    bound_width: i32,
    bound_height: i32,
    scale_ppm: u32,
    w: i32,
)
    requires
        bound_width >= 1,
        bound_height >= 2,
        2 <= spec_round_div(
            spec_clamp_even(w as int, bound_width as int) * bound_height,
            bound_width as int,
        ),
        spec_round_div(
            spec_clamp_even(w as int, bound_width as int) * bound_height,
            bound_width as int,
        ) <= bound_height,
    ensures
        ({
            let r = spec_derive_internal(
                bound_width as int,
                bound_height as int,
                scale_ppm as int,
                Some(w),
                None,
            );
            -3 * bound_width <= 2 * (r.1 * bound_width - r.0 * bound_height) && 2 * (r.1
                * bound_width - r.0 * bound_height) <= 3 * bound_width
        }),
{
    let wq = spec_clamp_even(w as int, bound_width as int);
    lemma_infer_preserves_aspect(wq, bound_height as int, bound_width as int);
}

} // verus!
