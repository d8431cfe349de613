//! The pure part of the hardware auto-tune heuristic: scoring GPU model
//! strings and aggregating the monitor span.  Reading the hardware inventory
//! is a side effect and happens outside the crate; the scoring of what was
//! read is decided here.

use vstd::prelude::*;
use vstd::string::StringExecFns;

use crate::hyprland::{compute_monitor_span, spec_monitor_wf, spec_span_covers, spec_span_fits,
    spec_span_tight, Monitor, Span};
use crate::text::{contains_str, lower_of, lowercase_str, spec_contains};

verus! {

/// The score of a lowercased GPU model string: discrete GPUs score high,
/// integrated graphics low, with a small bonus for one well-known budget
/// card.
pub open spec fn spec_gpu_score(lc: Seq<char>) -> int {
    let discrete_nv: int = if spec_contains(lc, "nvidia"@) || spec_contains(lc, "geforce"@)
        || spec_contains(lc, "rtx"@) || spec_contains(lc, "gtx"@) {
        50int
    } else {
        0int
    };
    let discrete_amd: int = discrete_nv + if spec_contains(lc, "amd"@) || spec_contains(lc, "ati"@)
        || spec_contains(lc, "radeon"@) || spec_contains(lc, "rx "@) || spec_contains(lc, "rx5"@)
        || spec_contains(lc, "rx 5"@) || spec_contains(lc, "rx6"@) || spec_contains(lc, "rx 6"@)
        || spec_contains(lc, "rx7"@) || spec_contains(lc, "rx 7"@) {
        45int
    } else {
        0int
    };
    let intel: int = discrete_amd + if spec_contains(lc, "intel"@) {
        10int + (if spec_contains(lc, "arc"@) {
            20int
        } else {
            -8int
        })
    } else {
        0int
    };
    let integrated: int = intel + if spec_contains(lc, "uhd"@) || spec_contains(lc, "hd graphics"@)
        || spec_contains(lc, "iris"@) || spec_contains(lc, "vega 8"@) || spec_contains(
        lc,
        "vega 11"@,
    ) {
        -6int
    } else {
        0int
    };
    integrated + if spec_contains(lc, "rx 580"@) || spec_contains(lc, "rx580"@) {
        5int
    } else {
        0int
    }
}

/// Scores one GPU model string for the auto-tune ranking, case-insensitively.
pub fn gpu_model_score(model: &str) -> (r: i32)
    ensures
        r == spec_gpu_score(lower_of(model@)),
{
    let lowered = lowercase_str(model);
    let lc = lowered.as_str();
    let mut score: i32 = 0;
    if contains_str(lc, "nvidia") || contains_str(lc, "geforce") || contains_str(lc, "rtx")
        || contains_str(lc, "gtx") {
        score = score + 50;
    }
    if contains_str(lc, "amd") || contains_str(lc, "ati") || contains_str(lc, "radeon")
        || contains_str(lc, "rx ") || contains_str(lc, "rx5") || contains_str(lc, "rx 5")
        || contains_str(lc, "rx6") || contains_str(lc, "rx 6") || contains_str(lc, "rx7")
        || contains_str(lc, "rx 7") {
        score = score + 45;
    }
    if contains_str(lc, "intel") {
        score = score + 10;
        if contains_str(lc, "arc") {
            score = score + 20;
        } else {
            score = score - 8;
        }
    }
    if contains_str(lc, "uhd") || contains_str(lc, "hd graphics") || contains_str(lc, "iris")
        || contains_str(lc, "vega 8") || contains_str(lc, "vega 11") {
        score = score - 6;
    }
    if contains_str(lc, "rx 580") || contains_str(lc, "rx580") {
        score = score + 5;
    }
    score
}

/// The auto-tune score of a model string as listed, before lowercasing.
pub open spec fn spec_model_score(m: Seq<char>) -> int {
    spec_gpu_score(lower_of(m))
}

/// Picks the GPU the heuristic should tune for: the last model with the
/// greatest score, or nothing when no model was listed.
pub fn detect_gpu_model(models: &Vec<String>) -> (r: Option<String>)
    ensures
        r is Some <==> models@.len() > 0,
        r matches Some(m) ==> exists|i: int|
            {
                &&& 0 <= i < models@.len()
                &&& #[trigger] models@[i]@ == m@
                &&& forall|j: int|
                    0 <= j < models@.len() ==> spec_model_score(#[trigger] models@[j]@)
                        <= spec_model_score(m@)
                &&& forall|j: int|
                    i < j < models@.len() ==> spec_model_score(#[trigger] models@[j]@)
                        < spec_model_score(m@)
            },
{
    if models.len() == 0 {
        return None;
    }
    let mut best: usize = 0;
    let mut best_score: i32 = gpu_model_score(models[0].as_str());
    let mut i: usize = 1;
    while i < models.len()
        invariant
            1 <= i <= models@.len(),
            0 <= best < i,
            best_score == spec_model_score(models@[best as int]@),
            forall|j: int|
                0 <= j < i ==> spec_model_score(#[trigger] models@[j]@) <= best_score,
            forall|j: int|
                best < j < i ==> spec_model_score(#[trigger] models@[j]@) < best_score,
        decreases models@.len() - i,
    {
        let score = gpu_model_score(models[i].as_str());
        if score >= best_score {
            best = i;
            best_score = score;
        }
        i = i + 1;
    }
    Some(models[best].clone())
}

/// The monitor span's dimensions, or nothing when no monitor was reported —
/// the heuristic then falls back to assuming a single ordinary screen.
pub fn detect_span_size(monitors: &Vec<Monitor>) -> (r: Option<(i32, i32)>)
    requires
        forall|i: int| 0 <= i < monitors@.len() ==> spec_monitor_wf(#[trigger] monitors@[i]),
        spec_span_fits(monitors@),
    ensures
        r is Some <==> monitors@.len() > 0,
        r matches Some(s) ==> exists|sp: Span|
            {
                &&& #[trigger] spec_span_covers(monitors@, sp)
                &&& spec_span_tight(monitors@, sp)
                &&& sp.width == s.0
                &&& sp.height == s.1
                &&& s.0 > 0
                &&& s.1 > 0
            },
{
    match compute_monitor_span(monitors) {
        Ok(span) => Some((span.width, span.height)),
        Err(_) => None,
    }
}

/// The number of pixels the span covers, the load measure the heuristic
/// scales against.
pub fn detect_span_pixels(monitors: &Vec<Monitor>) -> (r: Option<i64>)
    requires
        forall|i: int| 0 <= i < monitors@.len() ==> spec_monitor_wf(#[trigger] monitors@[i]),
        spec_span_fits(monitors@),
    ensures
        r is Some <==> monitors@.len() > 0,
        r matches Some(p) ==> exists|sp: Span|
            {
                &&& #[trigger] spec_span_covers(monitors@, sp)
                &&& spec_span_tight(monitors@, sp)
                &&& p == sp.width as int * sp.height as int
                &&& p > 0
            },
{
    match detect_span_size(monitors) {
        Some(s) => {
            proof {
                assert(s.0 as i64 * s.1 as i64 <= 0x7fff_ffff * 0x7fff_ffff && s.0 as i64 * s.1
                    as i64 > 0) by (nonlinear_arith)
                    requires
                        0 < s.0 < 0x8000_0000,
                        0 < s.1 < 0x8000_0000,
                ;
            }
            Some((s.0 as i64) * (s.1 as i64))
        },
        None => None,
    }
}

} // verus!
