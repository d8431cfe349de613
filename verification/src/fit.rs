//! The window-fit control loop: drives a window's observed geometry toward
//! the span by re-issuing move and resize requests, compensating for the
//! systematic offset that decorations or size hints add.  The engine here
//! makes every decision; issuing the requests, waiting the settle delay and
//! re-querying the geometry happen outside the crate, which hands each
//! observation back through `observe`.

use vstd::prelude::*;
use vstd::string::{StrSliceExecFns, StringExecFns};

use crate::hyprland::{Geometry, Span};
use crate::text::{i32_dec_str, spec_idec};
use crate::util::spec_clamp_i32;

verus! {

/// How many move/resize attempts are made before the fit is abandoned with a
/// warning.
pub const MAX_FIT_ATTEMPTS: u32 = 4;

/// What one observation tells the caller: the window matches the target, or
/// another attempt with the updated request is due, or the attempt budget is
/// spent and the caller should warn and carry on.
#[derive(PartialEq, Eq, Structural, Clone, Copy, Debug)]
pub enum FitOutcome {
    Converged,
    Retry,
    Exhausted,
}

/// `a` is within one pixel of `b` — the compositor applies exact positions
/// with up to a pixel of rounding.
pub open spec fn spec_within_one(a: int, b: int) -> bool {
    -1 <= a - b <= 1
}

/// The observed geometry agrees with the target on both position and size,
/// to one pixel on every axis.
pub open spec fn spec_fit_matches(target: Span, g: Geometry) -> bool {
    &&& spec_within_one(g.x as int, target.origin_x as int)
    &&& spec_within_one(g.y as int, target.origin_y as int)
    &&& spec_within_one(g.width as int, target.width as int)
    &&& spec_within_one(g.height as int, target.height as int)
}

/// The next requested dimension: the current request plus the measured error,
/// kept at least 2 and representable.
pub open spec fn spec_next_req(req: int, target_dim: int, actual: int) -> int {
    spec_clamp_i32(req + target_dim - actual, 2, i32::MAX as int)
}

/// The bounded reconciliation loop's state: the fixed target, the size that
/// will be requested next, and how many attempts were spent.
pub struct FitEngine {
    pub target: Span,
    pub req_width: i32,
    pub req_height: i32,
    pub attempts: u32,
}

/// A fresh engine requests exactly the target size.
pub open spec fn spec_fit_new(target: Span) -> FitEngine {
    FitEngine { target, req_width: target.width, req_height: target.height, attempts: 0 }
}

/// The engine after digesting one observation, with the verdict for the
/// caller.  A missing observation (the window vanished mid-query) costs an
/// attempt but leaves the request unchanged.
pub open spec fn spec_fit_observe(e: FitEngine, observed: Option<Geometry>) -> (
    FitEngine,
    FitOutcome,
) {
    let spent = (e.attempts + 1) as u32;
    match observed {
        None => (
            FitEngine { attempts: spent, ..e },
            if spent >= MAX_FIT_ATTEMPTS {
                FitOutcome::Exhausted
            } else {
                FitOutcome::Retry
            },
        ),
        Some(g) => {
            if spec_fit_matches(e.target, g) {
                (FitEngine { attempts: spent, ..e }, FitOutcome::Converged)
            } else {
                (
                    FitEngine {
                        req_width: spec_next_req(
                            e.req_width as int,
                            e.target.width as int,
                            g.width as int,
                        ) as i32,
                        req_height: spec_next_req(
                            e.req_height as int,
                            e.target.height as int,
                            g.height as int,
                        ) as i32,
                        attempts: spent,
                        ..e
                    },
                    if spent >= MAX_FIT_ATTEMPTS {
                        FitOutcome::Exhausted
                    } else {
                        FitOutcome::Retry
                    },
                )
            }
        },
    }
}

impl FitEngine {
    /// Starts a fit toward `target`: the first attempt asks for the target
    /// size as it stands.
    pub fn new(target: Span) -> (e: FitEngine)
        ensures
            e == spec_fit_new(target),
    {
        FitEngine { target, req_width: target.width, req_height: target.height, attempts: 0 }
    }

    /// Digests the geometry observed after the latest move/resize request.
    pub fn observe(&mut self, observed: Option<Geometry>) -> (r: FitOutcome)
        requires
            old(self).attempts < MAX_FIT_ATTEMPTS,
        ensures
            (*final(self), r) == spec_fit_observe(*old(self), observed),
    {
        self.attempts = self.attempts + 1;
        match observed {
            None => {
                if self.attempts >= MAX_FIT_ATTEMPTS {
                    FitOutcome::Exhausted
                } else {
                    FitOutcome::Retry
                }
            },
            Some(g) => {
                let pos_ok = within_one(g.x, self.target.origin_x) && within_one(
                    g.y,
                    self.target.origin_y,
                );
                let size_ok = within_one(g.width, self.target.width) && within_one(
                    g.height,
                    self.target.height,
                );
                if pos_ok && size_ok {
                    FitOutcome::Converged
                } else {
                    self.req_width = next_req(self.req_width, self.target.width, g.width);
                    self.req_height = next_req(self.req_height, self.target.height, g.height);
                    if self.attempts >= MAX_FIT_ATTEMPTS {
                        FitOutcome::Exhausted
                    } else {
                        FitOutcome::Retry
                    }
                }
            },
        }
    }
}

fn within_one(a: i32, b: i32) -> (r: bool)
    ensures
        r == spec_within_one(a as int, b as int),
{
    let d: i64 = (a as i64) - (b as i64);
    -1 <= d && d <= 1
}

fn next_req(req: i32, target_dim: i32, actual: i32) -> (r: i32)
    ensures
        r == spec_next_req(req as int, target_dim as int, actual as int),
{
    let next: i64 = (req as i64) + (target_dim as i64) - (actual as i64);
    if next < 2 {
        2
    } else if next > (i32::MAX as i64) {
        i32::MAX
    } else {
        next as i32
    }
}

/// What the session reports when the attempt budget runs out without
/// convergence: the target and the last observed geometry, enough to
/// diagnose the drift.  Non-fatal by design — a partially covering window is
/// preferred over aborting a running session.
pub struct FitWarning {
    pub target: Span,
    pub observed: Option<Geometry>,
}

/// `at=({x}, {y}), size={w}x{h}` — how a geometry is spelled out in the
/// warning.
pub open spec fn spec_geometry_text(x: int, y: int, w: int, h: int) -> Seq<char> {
    "at=("@ + spec_idec(x) + ", "@ + spec_idec(y) + "), size="@ + spec_idec(w) + "x"@ + spec_idec(
        h,
    )
}

fn geometry_text(x: i32, y: i32, w: i32, h: i32) -> (r: String)
    ensures
        r@ == spec_geometry_text(x as int, y as int, w as int, h as int),
{
    let mut s = String::from_str("at=(");
    let xs = i32_dec_str(x);
    s.append(xs.as_str());
    s.append(", ");
    let ys = i32_dec_str(y);
    s.append(ys.as_str());
    s.append("), size=");
    let ws = i32_dec_str(w);
    s.append(ws.as_str());
    s.append("x");
    let hs = i32_dec_str(h);
    s.append(hs.as_str());
    s
}

impl FitWarning {
    /// The warning line the session prints: the last observed geometry
    /// against the target, or a note that no geometry could be read at all.
    pub fn message(&self) -> (r: String)
        ensures
            ({
                match self.observed {
                    Some(g) => r@ == "Warning: Gamescope window may not fully cover span (actual "@
                        + spec_geometry_text(g.x as int, g.y as int, g.width as int, g.height as int)
                        + "; target "@ + spec_geometry_text(
                        self.target.origin_x as int,
                        self.target.origin_y as int,
                        self.target.width as int,
                        self.target.height as int,
                    ) + ")."@,
                    None => r@ == "Warning: Unable to verify final Gamescope window geometry."@,
                }
            }),
    {
        match self.observed {
            Some(g) => {
                let mut s = String::from_str(
                    "Warning: Gamescope window may not fully cover span (actual ",
                );
                let actual = geometry_text(g.x, g.y, g.width, g.height);
                s.append(actual.as_str());
                s.append("; target ");
                let target = geometry_text(
                    self.target.origin_x,
                    self.target.origin_y,
                    self.target.width,
                    self.target.height,
                );
                s.append(target.as_str());
                s.append(").");
                s
            },
            None => String::from_str("Warning: Unable to verify final Gamescope window geometry."),
        }
    }
}

/// The response of a window whose decorations shave a constant offset from
/// every size request, while its position lands within a pixel of the
/// requested one.
pub open spec fn spec_drift_response(
    req_w: int,
    req_h: int,
    target: Span,
    off_w: int,
    off_h: int,
    px: int,
    py: int,
) -> Geometry {
    Geometry {
        x: (target.origin_x + px) as i32,
        y: (target.origin_y + py) as i32,
        width: (req_w - off_w) as i32,
        height: (req_h - off_h) as i32,
    }
}

/// The fit loop converges within the attempt budget whenever each attempt's
/// measured size error is one constant offset: the first observation teaches
/// the engine the offset, so the second request already compensates for it,
/// and the second observation matches the target — two attempts of the four
/// allowed.  The bounds keep the compensated request representable and the
/// position drift within the one-pixel tolerance.
pub proof fn lemma_fit_converges_under_constant_offset(
    target: Span,
    off_w: int,
    off_h: int,
    px: int,
    py: int,
)
    requires
        -1 <= px <= 1,
        -1 <= py <= 1,
        i32::MIN <= target.origin_x + px <= i32::MAX,
        i32::MIN <= target.origin_y + py <= i32::MAX,
        2 <= target.width + off_w <= i32::MAX,
        2 <= target.height + off_h <= i32::MAX,
        i32::MIN <= target.width - off_w <= i32::MAX,
        i32::MIN <= target.height - off_h <= i32::MAX,
    ensures
        ({
            let e0 = spec_fit_new(target);
            let g1 = spec_drift_response(
                e0.req_width as int,
                e0.req_height as int,
                target,
                off_w,
                off_h,
                px,
                py,
            );
            let r1 = spec_fit_observe(e0, Some(g1));
            let g2 = spec_drift_response(
                r1.0.req_width as int,
                r1.0.req_height as int,
                target,
                off_w,
                off_h,
                px,
                py,
            );
            let r2 = spec_fit_observe(r1.0, Some(g2));
            r1.1 == FitOutcome::Converged || r2.1 == FitOutcome::Converged
        }),
{
    let e0 = spec_fit_new(target);
    let g1 = spec_drift_response(
        e0.req_width as int,
        e0.req_height as int,
        target,
        off_w,
        off_h,
        px,
        py,
    );
    let r1 = spec_fit_observe(e0, Some(g1));
    if !spec_fit_matches(target, g1) {
        assert(r1.0.req_width == target.width + off_w);
        assert(r1.0.req_height == target.height + off_h);
        let g2 = spec_drift_response(
            r1.0.req_width as int,
            r1.0.req_height as int,
            target,
            off_w,
            off_h,
            px,
            py,
        );
        assert(g2.width == target.width);
        assert(g2.height == target.height);
        assert(spec_fit_matches(target, g2));
    }
}

} // verus!
