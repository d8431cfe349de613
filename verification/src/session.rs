//! The session lifecycle core: assembling the child process's argument
//! vector, the launch plan, the startup-poll and reflow decisions, the
//! idempotent teardown guard, and the teardown step plans.  Spawning,
//! sleeping, querying and killing happen outside the crate, which consumes
//! the decisions made here.

use vstd::prelude::*;
use vstd::string::{StrSliceExecFns, StringExecFns};

use crate::command::GatewayCommand;
use crate::hyprland::{bind_exists, compute_monitor_span, spec_bind_exists, spec_monitor_wf,
    spec_span_covers, spec_span_fits, spec_span_tight, Monitor, NoMonitorsError, Span};
use crate::sizing::{derive_internal_size, derive_output_size, spec_derive_internal,
    spec_derive_output};
use crate::text::{i32_dec_str, spec_idec, spec_udec, starts_with_str, str_eq, u64_dec_str};

verus! {

/// The marker separating the child's own flags from the trailing launch
/// command.
pub open spec fn spec_sep() -> Seq<char> {
    "--"@
}

/// Whether one argument supplies `flag`: exactly the flag, the flag with an
/// attached `=value`, or — for a two-character short flag — the flag with an
/// attached value.
pub open spec fn spec_has_flag_arg(arg: Seq<char>, flag: Seq<char>) -> bool {
    ||| arg == flag
    ||| (arg.len() > flag.len() && arg.subrange(0, flag.len() as int) == flag && arg[flag.len() as int]
        == '=')
    ||| (flag.len() == 2 && arg.len() > 2 && arg.subrange(0, 2) == flag)
}

/// Whether any argument in the vector supplies `flag`.
pub open spec fn spec_has_arg(args: Seq<Seq<char>>, flag: Seq<char>) -> bool {
    exists|i: int| 0 <= i < args.len() && spec_has_flag_arg(#[trigger] args[i], flag)
}

pub fn has_arg(args: &Vec<String>, flag: &str) -> (r: bool)
    ensures
        r == spec_has_arg(args.deep_view(), flag@),
{
    let flag_len = flag.unicode_len();
    let mut i: usize = 0;
    while i < args.len()
        invariant
            0 <= i <= args@.len(),
            flag_len == flag@.len(),
            args.deep_view().len() == args@.len(),
            forall|k: int| 0 <= k < args@.len() ==> #[trigger] args.deep_view()[k] == args@[k]@,
            forall|k: int| 0 <= k < i ==> !spec_has_flag_arg(#[trigger] args.deep_view()[k], flag@),
        decreases args@.len() - i,
    {
        let arg = &args[i];
        let arg_len = arg.as_str().unicode_len();
        let mut hit = str_eq(arg.as_str(), flag);
        if !hit && arg_len > flag_len && starts_with_str(arg.as_str(), flag) {
            if arg.as_str().get_char(flag_len) == '=' {
                hit = true;
            } else if flag_len == 2 {
                hit = true;
            }
        }
        if hit {
            proof {
                assert(args.deep_view()[i as int] == arg@);
                assert(spec_has_flag_arg(args.deep_view()[i as int], flag@));
            }
            return true;
        }
        i = i + 1;
    }
    false
}

/// `i` is where the first `--` separator stands, or the length of the vector
/// when there is none.
pub open spec fn spec_is_first_sep(args: Seq<Seq<char>>, i: int) -> bool {
    &&& 0 <= i <= args.len()
    &&& (i == args.len() || args[i] == spec_sep())
    &&& forall|k: int| 0 <= k < i ==> #[trigger] args[k] != spec_sep()
}

pub fn first_sep_index(args: &Vec<String>) -> (r: usize)
    ensures
        spec_is_first_sep(args.deep_view(), r as int),
{
    let mut i: usize = 0;
    while i < args.len()
        invariant
            0 <= i <= args@.len(),
            args.deep_view().len() == args@.len(),
            forall|k: int| 0 <= k < args@.len() ==> #[trigger] args.deep_view()[k] == args@[k]@,
            forall|k: int| 0 <= k < i ==> #[trigger] args.deep_view()[k] != spec_sep(),
        decreases args@.len() - i,
    {
        if str_eq(args[i].as_str(), "--") {
            return i;
        }
        i = i + 1;
    }
    i
}

/// The flag insertions made before the separator: each size flag is appended
/// only where the caller did not already supply it.
pub open spec fn spec_insert_size_flags(
    pre: Seq<Seq<char>>,
    output_w: int,
    output_h: int,
    internal_w: int,
    internal_h: int,
) -> Seq<Seq<char>> {
    let a1 = if !spec_has_arg(pre, "-W"@) && !spec_has_arg(pre, "--output-width"@) {
        pre + seq!["-W"@, spec_idec(output_w)]
    } else {
        pre
    };
    let a2 = if !spec_has_arg(pre, "-H"@) && !spec_has_arg(pre, "--output-height"@) {
        a1 + seq!["-H"@, spec_idec(output_h)]
    } else {
        a1
    };
    let a3 = if !spec_has_arg(pre, "-w"@) && !spec_has_arg(pre, "--nested-width"@) {
        a2 + seq!["-w"@, spec_idec(internal_w)]
    } else {
        a2
    };
    if !spec_has_arg(pre, "-h"@) && !spec_has_arg(pre, "--nested-height"@) {
        a3 + seq!["-h"@, spec_idec(internal_h)]
    } else {
        a3
    }
}

/// The complete child argument vector: the part before the separator with
/// any missing size flags appended, then the separator and the launch
/// command, preserved verbatim.
pub open spec fn spec_build_args(
    args: Seq<Seq<char>>,
    sep: int,
    output_w: int,
    output_h: int,
    internal_w: int,
    internal_h: int,
) -> Seq<Seq<char>> {
    spec_insert_size_flags(args.subrange(0, sep), output_w, output_h, internal_w, internal_h)
        + args.subrange(sep, args.len() as int)
}

/// Appends explicit output (`-W`/`-H`) and internal (`-w`/`-h`) size flags to
/// the child's arguments, unless the caller already supplied them, keeping
/// everything after the `--` separator untouched.
pub fn build_gamescope_args_with_internal(
    args: &Vec<String>,
    span_width: i32,
    span_height: i32,
    internal_width: i32,
    internal_height: i32,
) -> (r: Vec<String>)
    ensures
        exists|sep: int|
            #[trigger] spec_is_first_sep(args.deep_view(), sep) && r.deep_view() == spec_build_args(
                args.deep_view(),
                sep,
                span_width as int,
                span_height as int,
                internal_width as int,
                internal_height as int,
            ),
{
    let ghost dv = args.deep_view();
    let sep = first_sep_index(args);
    let mut pre: Vec<String> = Vec::new();
    let mut k: usize = 0;
    while k < sep
        invariant
            0 <= k <= sep,
            spec_is_first_sep(dv, sep as int),
            dv == args.deep_view(),
            dv.len() == args@.len(),
            forall|t: int| 0 <= t < args@.len() ==> #[trigger] dv[t] == args@[t]@,
            pre.deep_view() == dv.subrange(0, k as int),
        decreases sep - k,
    {
        let ghost old_pre = pre.deep_view();
        pre.push(args[k].clone());
        proof {
            assert(pre.deep_view() =~= old_pre.push(args@[k as int]@));
            assert(pre.deep_view() =~= dv.subrange(0, k + 1));
        }
        k = k + 1;
    }
    let ghost pre_dv = dv.subrange(0, sep as int);
    assert(pre.deep_view() == pre_dv);

    let has_output_w = has_arg(&pre, "-W") || has_arg(&pre, "--output-width");
    let has_output_h = has_arg(&pre, "-H") || has_arg(&pre, "--output-height");
    let has_nested_w = has_arg(&pre, "-w") || has_arg(&pre, "--nested-width");
    let has_nested_h = has_arg(&pre, "-h") || has_arg(&pre, "--nested-height");

    if !has_output_w {
        pre.push(String::from_str("-W"));
        pre.push(i32_dec_str(span_width));
        proof {
            assert(pre.deep_view() =~= pre_dv + seq!["-W"@, spec_idec(span_width as int)]);
        }
    }
    let ghost a1 = pre.deep_view();
    if !has_output_h {
        pre.push(String::from_str("-H"));
        pre.push(i32_dec_str(span_height));
        proof {
            assert(pre.deep_view() =~= a1 + seq!["-H"@, spec_idec(span_height as int)]);
        }
    }
    let ghost a2 = pre.deep_view();
    if !has_nested_w {
        pre.push(String::from_str("-w"));
        pre.push(i32_dec_str(internal_width));
        proof {
            assert(pre.deep_view() =~= a2 + seq!["-w"@, spec_idec(internal_width as int)]);
        }
    }
    let ghost a3 = pre.deep_view();
    if !has_nested_h {
        pre.push(String::from_str("-h"));
        pre.push(i32_dec_str(internal_height));
        proof {
            assert(pre.deep_view() =~= a3 + seq!["-h"@, spec_idec(internal_height as int)]);
        }
    }
    assert(pre.deep_view() == spec_insert_size_flags(
        pre_dv,
        span_width as int,
        span_height as int,
        internal_width as int,
        internal_height as int,
    ));

    let ghost inserted = pre.deep_view();
    let mut k2: usize = sep;
    while k2 < args.len()
        invariant
            sep <= k2 <= args@.len(),
            dv == args.deep_view(),
            dv.len() == args@.len(),
            forall|t: int| 0 <= t < args@.len() ==> #[trigger] dv[t] == args@[t]@,
            pre.deep_view() == inserted + dv.subrange(sep as int, k2 as int),
        decreases args@.len() - k2,
    {
        let ghost old_pre2 = pre.deep_view();
        pre.push(args[k2].clone());
        proof {
            assert(pre.deep_view() =~= old_pre2.push(args@[k2 as int]@));
            assert(pre.deep_view() =~= inserted + dv.subrange(sep as int, k2 + 1));
        }
        k2 = k2 + 1;
    }
    proof {
        assert(pre.deep_view() =~= spec_build_args(
            dv,
            sep as int,
            span_width as int,
            span_height as int,
            internal_width as int,
            internal_height as int,
        ));
    }
    pre
}

/// The game command is missing when the caller asked for the picker, when no
/// `--` separator stands in the arguments, or when the separator is the last
/// argument with nothing after it.
pub open spec fn spec_needs_game_command(args: Seq<Seq<char>>, pick: bool) -> bool {
    ||| pick
    ||| (forall|i: int| 0 <= i < args.len() ==> #[trigger] args[i] != spec_sep())
    ||| exists|sep: int| #[trigger] spec_is_first_sep(args, sep) && sep == args.len() - 1
}

/// Whether the caller must run the application picker before launching.
pub fn game_command_missing(args: &Vec<String>, pick: bool) -> (r: bool)
    ensures
        r == spec_needs_game_command(args.deep_view(), pick),
{
    if pick {
        return true;
    }
    let sep = first_sep_index(args);
    let ghost dv = args.deep_view();
    if sep == args.len() {
        assert(forall|i: int| 0 <= i < dv.len() ==> #[trigger] dv[i] != spec_sep());
        true
    } else if sep + 1 == args.len() {
        true
    } else {
        proof {
            assert forall|s: int| #[trigger] spec_is_first_sep(dv, s) implies s == sep by {
                if s < sep {
                    assert(dv[s] != spec_sep());
                }
                if s > sep {
                    assert(dv[sep as int] != spec_sep());
                }
            }
            assert(dv[sep as int] == spec_sep());
        }
        false
    }
}

/// Appends `--` and the picked launch command when one is needed; hands the
/// arguments back unchanged otherwise.  The caller runs the picker only when
/// `game_command_missing` says so and passes its result in `picked_command`.
pub fn ensure_game_command(
    gamescope_args: Vec<String>,
    pick: bool,
    picked_command: &Vec<String>,
) -> (r: Vec<String>)
    ensures
        spec_needs_game_command(gamescope_args.deep_view(), pick) ==> r.deep_view()
            == gamescope_args.deep_view() + seq![spec_sep()] + picked_command.deep_view(),
        !spec_needs_game_command(gamescope_args.deep_view(), pick) ==> r.deep_view()
            == gamescope_args.deep_view(),
{
    let ghost dv = gamescope_args.deep_view();
    let mut out = gamescope_args;
    if game_command_missing(&out, pick) {
        proof {
            reveal_strlit("--");
        }
        out.push(String::from_str("--"));
        let ghost with_sep = out.deep_view();
        proof {
            assert(with_sep =~= dv + seq![spec_sep()]);
        }
        let mut k: usize = 0;
        while k < picked_command.len()
            invariant
                0 <= k <= picked_command@.len(),
                with_sep == dv + seq![spec_sep()],
                out.deep_view() == with_sep + picked_command.deep_view().subrange(0, k as int),
            decreases picked_command@.len() - k,
        {
            let ghost old_out = out.deep_view();
            out.push(picked_command[k].clone());
            proof {
                assert(out.deep_view() =~= old_out.push(picked_command@[k as int]@));
                assert(out.deep_view() =~= with_sep + picked_command.deep_view().subrange(
                    0,
                    k + 1,
                ));
            }
            k = k + 1;
        }
        proof {
            assert(picked_command.deep_view().subrange(0, picked_command@.len() as int)
                =~= picked_command.deep_view());
        }
    }
    out
}

/// The modifier set and key of the session's exit binding.
pub struct ExitHotkey {
    pub mods: String,
    pub key: String,
}

/// The default exit binding registered for the session.
pub fn default_exit_hotkey() -> (r: ExitHotkey)
    ensures
        r.mods@ == "SUPER SHIFT"@,
        r.key@ == "F12"@,
{
    ExitHotkey { mods: String::from_str("SUPER SHIFT"), key: String::from_str("F12") }
}

/// Decides whether the exit hotkey can be registered: when the bind table
/// already holds a binding for the default modifiers and key, nothing is
/// bound and no hotkey is owned; otherwise the bind command to issue is
/// returned with the hotkey the session now owns.
pub fn register_exit_hotkey(binds_output: &str) -> (r: Option<(ExitHotkey, GatewayCommand)>)
    requires
        binds_output@.len() < usize::MAX,
    ensures
        r is None <==> spec_bind_exists(binds_output@, "SUPER SHIFT"@, "F12"@),
        r matches Some((h, cmd)) ==> {
            &&& h.mods@ == "SUPER SHIFT"@
            &&& h.key@ == "F12"@
            &&& cmd matches GatewayCommand::BindKey { mods, key, action } && mods@
                == "SUPER SHIFT"@ && key@ == "F12"@ && action@ == "hyprfinity gamescope-down"@
        },
{
    if bind_exists(binds_output, "SUPER SHIFT", "F12") {
        None
    } else {
        let hotkey = default_exit_hotkey();
        let cmd = GatewayCommand::BindKey {
            mods: String::from_str("SUPER SHIFT"),
            key: String::from_str("F12"),
            action: String::from_str("hyprfinity gamescope-down"),
        };
        Some((hotkey, cmd))
    }
}

/// The unbind command that releases a previously registered exit hotkey.
pub fn unregister_exit_hotkey(hotkey: &ExitHotkey) -> (r: GatewayCommand)
    ensures
        r matches GatewayCommand::UnbindKey { mods, key } && mods@ == hotkey.mods@ && key@
            == hotkey.key@,
{
    GatewayCommand::UnbindKey { mods: hotkey.mods.clone(), key: hotkey.key.clone() }
}

/// How long each startup poll waits between queries for the child's window.
pub const STARTUP_POLL_INTERVAL_MS: u64 = 250;

/// How long a fit attempt waits for the compositor to settle before the
/// geometry is re-queried.
pub const FIT_SETTLE_DELAY_MS: u64 = 80;

/// The steady-state loop's tick length.
pub const SESSION_TICK_SECS: u64 = 1;

/// Geometry is re-asserted every this many ticks.
pub const REFLOW_TICK_INTERVAL: u64 = 2;

/// What the startup poll does next: the window appeared, keep waiting, or
/// give up with a startup timeout.
#[derive(PartialEq, Eq, Structural, Clone, Copy, Debug)]
pub enum PollDecision {
    Ready,
    Wait,
    TimedOut,
}

/// One step of the bounded startup poll: stop as soon as a window of the
/// child's process is seen; keep polling while time remains; time out
/// otherwise.
pub fn startup_poll_decision(window_found: bool, elapsed_ms: u64, timeout_ms: u64) -> (r:
    PollDecision)
    ensures
        window_found ==> r == PollDecision::Ready,
        !window_found && elapsed_ms < timeout_ms ==> r == PollDecision::Wait,
        !window_found && elapsed_ms >= timeout_ms ==> r == PollDecision::TimedOut,
{
    if window_found {
        PollDecision::Ready
    } else if elapsed_ms < timeout_ms {
        PollDecision::Wait
    } else {
        PollDecision::TimedOut
    }
}

/// What one steady-state tick does: finish the session when the child has
/// exited, re-assert geometry on the reflow cadence, and otherwise sleep.
#[derive(PartialEq, Eq, Structural, Clone, Copy, Debug)]
pub enum TickAction {
    FinishSession,
    Reflow,
    Idle,
}

/// The steady-state decision: a child exit always wins; otherwise geometry
/// is re-asserted on every tick the reflow cadence selects, because the
/// child can recreate its window mid-session and silently undo the fit.
pub fn session_tick_action(child_exited: bool, tick: u64) -> (r: TickAction)
    ensures
        child_exited ==> r == TickAction::FinishSession,
        !child_exited && tick % REFLOW_TICK_INTERVAL == 0 ==> r == TickAction::Reflow,
        !child_exited && tick % REFLOW_TICK_INTERVAL != 0 ==> r == TickAction::Idle,
{
    if child_exited {
        TickAction::FinishSession
    } else if tick % REFLOW_TICK_INTERVAL == 0 {
        TickAction::Reflow
    } else {
        TickAction::Idle
    }
}

/// The once-only latch consulted before teardown runs.  The interrupt
/// handler and the steady-state loop both funnel through `try_engage`; only
/// the caller that flips the latch may run teardown.
pub struct TeardownGuard {
    pub engaged: bool,
}

/// The latch transition: it always ends engaged, and reports whether this
/// call was the one that flipped it.
pub open spec fn spec_guard_engage(g: TeardownGuard) -> (TeardownGuard, bool) {
    (TeardownGuard { engaged: true }, !g.engaged)
}

impl TeardownGuard {
    /// A fresh session has not begun teardown.
    pub fn new() -> (r: TeardownGuard)
        ensures
            !r.engaged,
    {
        TeardownGuard { engaged: false }
    }

    /// Flips the latch; returns true only for the first caller, which alone
    /// proceeds to run teardown.
    pub fn try_engage(&mut self) -> (r: bool)
        ensures
            (*final(self), r) == spec_guard_engage(*old(self)),
    {
        let was = self.engaged;
        self.engaged = true;
        !was
    }
}

/// However many times the signal is delivered, only one engage call returns
/// true, so teardown runs at most once: the second of any two consecutive
/// engagements is always refused, and the first is accepted exactly when the
/// latch was still clear.
pub proof fn lemma_teardown_runs_at_most_once(g: TeardownGuard)
    ensures
        ({
            let first = spec_guard_engage(g);
            let second = spec_guard_engage(first.0);
            &&& second.1 == false
            &&& !g.engaged ==> first.1
            &&& !(first.1 && second.1)
        }),
{
}

/// The durable record written after a successful launch and consumed by
/// teardown, possibly from a separate process.
pub struct SessionState {
    pub gamescope_pid: u32,
    pub span: Span,
    pub gamescope_args: Vec<String>,
    pub waybar_was_stopped: bool,
    pub exit_hotkey: Option<ExitHotkey>,
}

/// One best-effort cleanup action; a failing step never blocks the rest.
#[derive(Debug, PartialEq)]
pub enum TeardownStep {
    KillProcess { pid: u32 },
    RemoveStateFile,
    RestartWaybar,
    UnbindHotkey { mods: String, key: String },
}

/// The cleanup sequence for an explicit teardown of a recorded session:
/// kill the child, delete the state file, then restore the status bar and
/// release the hotkey exactly when the record says the session owns them.
pub fn teardown_plan(state: &SessionState) -> (r: Vec<TeardownStep>)
    ensures
        ({
            let base = seq![
                (TeardownStep::KillProcess { pid: state.gamescope_pid }),
                (TeardownStep::RemoveStateFile),
            ];
            let with_bar = if state.waybar_was_stopped {
                base.push(TeardownStep::RestartWaybar)
            } else {
                base
            };
            let full = match state.exit_hotkey {
                Some(h) => with_bar.push(
                    TeardownStep::UnbindHotkey { mods: h.mods, key: h.key },
                ),
                None => with_bar,
            };
            r@ == full
        }),
{
    let mut steps: Vec<TeardownStep> = Vec::new();
    steps.push(TeardownStep::KillProcess { pid: state.gamescope_pid });
    steps.push(TeardownStep::RemoveStateFile);
    if state.waybar_was_stopped {
        steps.push(TeardownStep::RestartWaybar);
    }
    match &state.exit_hotkey {
        Some(h) => {
            steps.push(TeardownStep::UnbindHotkey { mods: h.mods.clone(), key: h.key.clone() });
        },
        None => {},
    }
    proof {
        assert(steps@ =~= ({
            let base = seq![
                (TeardownStep::KillProcess { pid: state.gamescope_pid }),
                (TeardownStep::RemoveStateFile),
            ];
            let with_bar = if state.waybar_was_stopped {
                base.push(TeardownStep::RestartWaybar)
            } else {
                base
            };
            match state.exit_hotkey {
                Some(h) => with_bar.push(
                    TeardownStep::UnbindHotkey { mods: h.mods, key: h.key },
                ),
                None => with_bar,
            }
        }));
    }
    steps
}

/// The cleanup sequence when the child exits on its own: restore the status
/// bar and release the hotkey when owned, then delete the state file.  No
/// process is killed — the child is already gone.
pub fn child_exit_plan(waybar_was_stopped: bool, exit_hotkey: &Option<ExitHotkey>) -> (r: Vec<
    TeardownStep,
>)
    ensures
        ({
            let base = if waybar_was_stopped {
                seq![(TeardownStep::RestartWaybar)]
            } else {
                Seq::<TeardownStep>::empty()
            };
            let with_key = match *exit_hotkey {
                Some(h) => base.push((TeardownStep::UnbindHotkey { mods: h.mods, key: h.key })),
                None => base,
            };
            r@ == with_key.push(TeardownStep::RemoveStateFile)
        }),
{
    let mut steps: Vec<TeardownStep> = Vec::new();
    if waybar_was_stopped {
        steps.push(TeardownStep::RestartWaybar);
    }
    match exit_hotkey {
        Some(h) => {
            steps.push(TeardownStep::UnbindHotkey { mods: h.mods.clone(), key: h.key.clone() });
        },
        None => {},
    }
    steps.push(TeardownStep::RemoveStateFile);
    proof {
        assert(steps@ =~= ({
            let base = if waybar_was_stopped {
                seq![(TeardownStep::RestartWaybar)]
            } else {
                Seq::<TeardownStep>::empty()
            };
            let with_key = match *exit_hotkey {
                Some(h) => base.push((TeardownStep::UnbindHotkey { mods: h.mods, key: h.key })),
                None => base,
            };
            with_key.push(TeardownStep::RemoveStateFile)
        }));
    }
    steps
}

/// The rollback after a failed startup: undo the sidecar changes already
/// made — restore the status bar and release the hotkey — and nothing else.
/// No state file exists yet and the child, if spawned, is reaped by the
/// caller's error path.
pub fn startup_rollback_plan(waybar_was_stopped: bool, exit_hotkey: &Option<ExitHotkey>) -> (r:
    Vec<TeardownStep>)
    ensures
        ({
            let base = if waybar_was_stopped {
                seq![(TeardownStep::RestartWaybar)]
            } else {
                Seq::<TeardownStep>::empty()
            };
            let full = match *exit_hotkey {
                Some(h) => base.push((TeardownStep::UnbindHotkey { mods: h.mods, key: h.key })),
                None => base,
            };
            r@ == full
        }),
{
    let mut steps: Vec<TeardownStep> = Vec::new();
    if waybar_was_stopped {
        steps.push(TeardownStep::RestartWaybar);
    }
    match exit_hotkey {
        Some(h) => {
            steps.push(TeardownStep::UnbindHotkey { mods: h.mods.clone(), key: h.key.clone() });
        },
        None => {},
    }
    proof {
        assert(steps@ =~= ({
            let base = if waybar_was_stopped {
                seq![(TeardownStep::RestartWaybar)]
            } else {
                Seq::<TeardownStep>::empty()
            };
            match *exit_hotkey {
                Some(h) => base.push((TeardownStep::UnbindHotkey { mods: h.mods, key: h.key })),
                None => base,
            }
        }));
    }
    steps
}

/// Where the session stands in its life cycle.
#[derive(PartialEq, Eq, Structural, Clone, Copy, Debug)]
pub enum SessionPhase {
    Idle,
    Launching,
    Active,
    TearingDown,
    Terminated,
}

/// What moved the session along.
#[derive(PartialEq, Eq, Structural, Clone, Copy, Debug)]
pub enum SessionEvent {
    LaunchStarted,
    StartupSucceeded,
    StartupFailed,
    ChildExited,
    InterruptReceived,
    TeardownFinished,
}

/// The lifecycle transitions: launch, activate, tear down on child exit,
/// interrupt or startup failure, terminate when cleanup finishes.  Any other
/// event leaves the phase unchanged.
pub open spec fn spec_session_transition(phase: SessionPhase, event: SessionEvent) -> SessionPhase {
    match (phase, event) {
        (SessionPhase::Idle, SessionEvent::LaunchStarted) => SessionPhase::Launching,
        (SessionPhase::Launching, SessionEvent::StartupSucceeded) => SessionPhase::Active,
        (SessionPhase::Launching, SessionEvent::StartupFailed) => SessionPhase::TearingDown,
        (SessionPhase::Active, SessionEvent::ChildExited) => SessionPhase::TearingDown,
        (SessionPhase::Active, SessionEvent::InterruptReceived) => SessionPhase::TearingDown,
        (SessionPhase::TearingDown, SessionEvent::TeardownFinished) => SessionPhase::Terminated,
        _ => phase,
    }
}

pub fn session_transition(phase: SessionPhase, event: SessionEvent) -> (r: SessionPhase)
    ensures
        r == spec_session_transition(phase, event),
        phase == SessionPhase::Terminated ==> r == SessionPhase::Terminated,
        r == SessionPhase::Terminated && phase != SessionPhase::Terminated ==> phase
            == SessionPhase::TearingDown,
{
    match (phase, event) {
        (SessionPhase::Idle, SessionEvent::LaunchStarted) => SessionPhase::Launching,
        (SessionPhase::Launching, SessionEvent::StartupSucceeded) => SessionPhase::Active,
        (SessionPhase::Launching, SessionEvent::StartupFailed) => SessionPhase::TearingDown,
        (SessionPhase::Active, SessionEvent::ChildExited) => SessionPhase::TearingDown,
        (SessionPhase::Active, SessionEvent::InterruptReceived) => SessionPhase::TearingDown,
        (SessionPhase::TearingDown, SessionEvent::TeardownFinished) => SessionPhase::Terminated,
        _ => phase,
    }
}

/// Everything computed before the child process is spawned: the span, the
/// derived sizes, and the final argument vector.
pub struct LaunchPlan {
    pub span: Span,
    pub output_width: i32,
    pub output_height: i32,
    pub internal_width: i32,
    pub internal_height: i32,
    pub final_args: Vec<String>,
}

/// The plan holds the monitors' span, the output size the policy derives
/// from it, the internal size (a picker selection, when one was made, wins
/// over the derivation), and the argument vector with the size flags
/// injected.
pub open spec fn spec_launch_plan_ok(
    plan: LaunchPlan,
    monitors: Seq<Monitor>,
    args: Seq<Seq<char>>,
    render_scale_ppm: int,
    virtual_width: Option<i32>,
    virtual_height: Option<i32>,
    output_width: Option<i32>,
    output_height: Option<i32>,
    picked_internal: Option<(i32, i32)>,
) -> bool {
    &&& spec_span_covers(monitors, plan.span)
    &&& spec_span_tight(monitors, plan.span)
    &&& plan.span.width > 0
    &&& plan.span.height > 0
    &&& (plan.output_width as int, plan.output_height as int) == spec_derive_output(
        plan.span.width as int,
        plan.span.height as int,
        output_width,
        output_height,
    )
    &&& (match picked_internal {
        Some(p) => (plan.internal_width, plan.internal_height) == p,
        None => (plan.internal_width as int, plan.internal_height as int) == spec_derive_internal(
            plan.output_width as int,
            plan.output_height as int,
            render_scale_ppm,
            virtual_width,
            virtual_height,
        ),
    })
    &&& exists|sep: int|
        #[trigger] spec_is_first_sep(args, sep) && plan.final_args.deep_view() == spec_build_args(
            args,
            sep,
            plan.output_width as int,
            plan.output_height as int,
            plan.internal_width as int,
            plan.internal_height as int,
        )
}

/// Computes the whole launch plan: span aggregation, output and internal
/// size derivation, and the final child argument vector.  `gamescope_args`
/// must already carry the launch command (see `ensure_game_command`);
/// `picked_internal` is the interactive size selection, when the caller made
/// one.  Fails exactly when no monitor was reported.
pub fn prepare_launch(
    monitors: &Vec<Monitor>,
    gamescope_args: &Vec<String>,
    render_scale_ppm: u32,
    virtual_width: Option<i32>,
    virtual_height: Option<i32>,
    output_width: Option<i32>,
    output_height: Option<i32>,
    picked_internal: Option<(i32, i32)>,
) -> (r: Result<LaunchPlan, NoMonitorsError>)
    requires
        forall|i: int| 0 <= i < monitors@.len() ==> spec_monitor_wf(#[trigger] monitors@[i]),
        spec_span_fits(monitors@),
    ensures
        r is Err <==> monitors@.len() == 0,
        r matches Ok(plan) ==> spec_launch_plan_ok(
            plan,
            monitors@,
            gamescope_args.deep_view(),
            render_scale_ppm as int,
            virtual_width,
            virtual_height,
            output_width,
            output_height,
            picked_internal,
        ),
{
    let span = match compute_monitor_span(monitors) {
        Ok(span) => span,
        Err(e) => {
            return Err(e);
        },
    };
    let output = derive_output_size(span.width, span.height, output_width, output_height);
    assert(output.0 >= 1 && output.1 >= 1);
    let internal = match picked_internal {
        Some(p) => p,
        None => derive_internal_size(
            output.0,
            output.1,
            render_scale_ppm,
            virtual_width,
            virtual_height,
        ),
    };
    let final_args = build_gamescope_args_with_internal(
        gamescope_args,
        output.0,
        output.1,
        internal.0,
        internal.1,
    );
    Ok(
        LaunchPlan {
            span,
            output_width: output.0,
            output_height: output.1,
            internal_width: internal.0,
            internal_height: internal.1,
            final_args,
        },
    )
}

/// The startup poll ran out of time before any window of the child process
/// appeared.  Fatal: the session rolls back whatever sidecar changes it had
/// already made.
pub struct StartupTimeoutError {
    pub pid: u32,
}

impl StartupTimeoutError {
    /// The diagnostic line reported when the child's window never appears.
    pub fn message(&self) -> (r: String)
        ensures
            r@ == "Timed out waiting for Gamescope window (PID "@ + spec_udec(self.pid as int)
                + ")."@,
    {
        let mut s = String::from_str("Timed out waiting for Gamescope window (PID ");
        let digits = u64_dec_str(self.pid as u64);
        s.append(digits.as_str());
        s.append(").");
        s
    }
}

} // verus!
