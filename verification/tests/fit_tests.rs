use hyprfinity::fit::{FitEngine, FitOutcome, FitWarning, MAX_FIT_ATTEMPTS};
use hyprfinity::hyprland::{Geometry, Span};

fn target() -> Span {
    Span { origin_x: -1920, origin_y: 0, width: 4480, height: 1440 }
}

/// A window whose decorations shave a constant amount off every size
/// request, while moves land exactly.
fn decorated_response(engine: &FitEngine, off_w: i32, off_h: i32) -> Geometry {
    Geometry {
        x: target().origin_x,
        y: target().origin_y,
        width: engine.req_width - off_w,
        height: engine.req_height - off_h,
    }
}

#[test]
fn fit_converges_in_two_attempts_under_constant_offset() {
    let mut engine = FitEngine::new(target());
    assert_eq!((engine.req_width, engine.req_height), (4480, 1440));

    // First attempt: the decoration offset shows up as the measured error.
    let observed = decorated_response(&engine, 28, 14);
    assert_eq!(engine.observe(Some(observed)), FitOutcome::Retry);
    assert_eq!((engine.req_width, engine.req_height), (4480 + 28, 1440 + 14));

    // Second attempt: the compensated request lands on target.
    let observed = decorated_response(&engine, 28, 14);
    assert_eq!(engine.observe(Some(observed)), FitOutcome::Converged);
    assert!(engine.attempts <= MAX_FIT_ATTEMPTS);
}

#[test]
fn fit_accepts_one_pixel_of_drift() {
    let mut engine = FitEngine::new(target());
    let observed = Geometry {
        x: target().origin_x + 1,
        y: target().origin_y - 1,
        width: target().width - 1,
        height: target().height + 1,
    };
    assert_eq!(engine.observe(Some(observed)), FitOutcome::Converged);
}

#[test]
fn fit_warns_after_budget_when_window_never_converges() {
    // A window that ignores every resize: the engine spends its whole budget
    // and reports exhaustion — a warning for the caller, not an error.
    let mut engine = FitEngine::new(target());
    let stubborn = Geometry { x: 0, y: 0, width: 640, height: 480 };
    let mut last = FitOutcome::Retry;
    for _ in 0..MAX_FIT_ATTEMPTS {
        last = engine.observe(Some(stubborn));
    }
    assert_eq!(last, FitOutcome::Exhausted);
    assert_eq!(engine.attempts, MAX_FIT_ATTEMPTS);
}

#[test]
fn fit_missing_observation_costs_an_attempt_but_keeps_the_request() {
    let mut engine = FitEngine::new(target());
    assert_eq!(engine.observe(None), FitOutcome::Retry);
    assert_eq!((engine.req_width, engine.req_height), (4480, 1440));
    assert_eq!(engine.attempts, 1);
}

#[test]
fn fit_request_never_drops_below_two() {
    let mut engine = FitEngine::new(Span { origin_x: 0, origin_y: 0, width: 10, height: 10 });
    // A window that reports itself far larger than requested drives the
    // compensated request down; it is floored at the compositor's minimum.
    let observed = Geometry { x: 0, y: 0, width: 5000, height: 5000 };
    engine.observe(Some(observed));
    assert_eq!((engine.req_width, engine.req_height), (2, 2));
}

#[test]
fn fit_warning_spells_out_the_drift() {
    let warning = FitWarning {
        target: target(),
        observed: Some(Geometry { x: -1918, y: 0, width: 4452, height: 1426 }),
    };
    assert_eq!(
        warning.message(),
        "Warning: Gamescope window may not fully cover span (actual at=(-1918, 0), \
         size=4452x1426; target at=(-1920, 0), size=4480x1440)."
    );
    let blind = FitWarning { target: target(), observed: None };
    assert_eq!(
        blind.message(),
        "Warning: Unable to verify final Gamescope window geometry."
    );
}
