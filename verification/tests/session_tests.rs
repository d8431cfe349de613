use hyprfinity::hyprland::Monitor;
use hyprfinity::session::{
    build_gamescope_args_with_internal, child_exit_plan, default_exit_hotkey, ensure_game_command,
    game_command_missing, has_arg, prepare_launch, register_exit_hotkey, session_tick_action,
    session_transition, startup_poll_decision, startup_rollback_plan, teardown_plan,
    unregister_exit_hotkey, ExitHotkey,
    PollDecision, SessionEvent, SessionPhase, SessionState, StartupTimeoutError, TeardownGuard,
    TeardownStep, TickAction, REFLOW_TICK_INTERVAL,
};

fn strings(v: &[&str]) -> Vec<String> {
    v.iter().map(|s| s.to_string()).collect()
}

#[test]
fn has_arg_matches_flag_forms() {
    let args = strings(&["-r", "60", "--output-width=800", "-W4480"]);
    assert!(has_arg(&args, "-r"));
    assert!(has_arg(&args, "--output-width"));
    assert!(has_arg(&args, "-W"));
    assert!(!has_arg(&args, "-H"));
    assert!(!has_arg(&args, "--output"));
}

#[test]
fn build_args_injects_missing_size_flags_before_separator() {
    let args = strings(&["-r", "60", "--", "steam"]);
    let built = build_gamescope_args_with_internal(&args, 4480, 1440, 3360, 1080);
    assert_eq!(
        built,
        strings(&[
            "-r", "60", "-W", "4480", "-H", "1440", "-w", "3360", "-h", "1080", "--", "steam",
        ])
    );
}

#[test]
fn build_args_respects_existing_flags() {
    let args = strings(&["-W", "1920", "--nested-height", "720", "--", "app"]);
    let built = build_gamescope_args_with_internal(&args, 4480, 1440, 3360, 1080);
    assert_eq!(
        built,
        strings(&["-W", "1920", "--nested-height", "720", "-H", "1440", "-w", "3360", "--", "app"])
    );
}

#[test]
fn game_command_missing_cases() {
    assert!(game_command_missing(&strings(&["-r", "60"]), false));
    assert!(game_command_missing(&strings(&["-r", "60", "--"]), false));
    assert!(!game_command_missing(&strings(&["--", "steam"]), false));
    // An explicit pick request wins even when a command is present.
    assert!(game_command_missing(&strings(&["--", "steam"]), true));
}

#[test]
fn ensure_game_command_appends_only_when_needed() {
    let picked = strings(&["steam", "-applaunch", "620"]);
    let appended = ensure_game_command(strings(&["-r", "60"]), false, &picked);
    assert_eq!(appended, strings(&["-r", "60", "--", "steam", "-applaunch", "620"]));

    let kept = ensure_game_command(strings(&["--", "game"]), false, &picked);
    assert_eq!(kept, strings(&["--", "game"]));
}

#[test]
fn prepare_launch_builds_the_whole_plan() {
    let monitors = vec![
        Monitor { name: None, width: 1920, height: 1080, x: -1920, y: 0 },
        Monitor { name: None, width: 2560, height: 1440, x: 0, y: 0 },
    ];
    let args = strings(&["-r", "60", "--", "steam"]);
    let plan = prepare_launch(&monitors, &args, 750_000, None, None, None, None, None).unwrap();
    assert_eq!((plan.span.origin_x, plan.span.origin_y), (-1920, 0));
    assert_eq!((plan.span.width, plan.span.height), (4480, 1440));
    assert_eq!((plan.output_width, plan.output_height), (4480, 1440));
    assert_eq!((plan.internal_width, plan.internal_height), (3360, 1080));
    assert_eq!(
        plan.final_args,
        strings(&[
            "-r", "60", "-W", "4480", "-H", "1440", "-w", "3360", "-h", "1080", "--", "steam",
        ])
    );
}

#[test]
fn prepare_launch_fails_without_monitors() {
    let args = strings(&["--", "steam"]);
    assert!(prepare_launch(&Vec::new(), &args, 750_000, None, None, None, None, None).is_err());
}

#[test]
fn prepare_launch_prefers_picked_internal_size() {
    let monitors = vec![Monitor { name: None, width: 1920, height: 1080, x: 0, y: 0 }];
    let args = strings(&["--", "game"]);
    let plan =
        prepare_launch(&monitors, &args, 1_000_000, None, None, None, None, Some((1280, 720)))
            .unwrap();
    assert_eq!((plan.internal_width, plan.internal_height), (1280, 720));
}

#[test]
fn teardown_guard_engages_only_once() {
    let mut guard = TeardownGuard::new();
    assert!(guard.try_engage());
    assert!(!guard.try_engage());
    assert!(!guard.try_engage());
}

#[test]
fn teardown_plan_lists_owned_resources_only() {
    let state = SessionState {
        gamescope_pid: 4321,
        span: hyprfinity::hyprland::Span { origin_x: 0, origin_y: 0, width: 1920, height: 1080 },
        gamescope_args: strings(&["--", "game"]),
        waybar_was_stopped: true,
        exit_hotkey: Some(ExitHotkey { mods: "SUPER SHIFT".to_string(), key: "F12".to_string() }),
    };
    let plan = teardown_plan(&state);
    assert_eq!(
        plan,
        vec![
            TeardownStep::KillProcess { pid: 4321 },
            TeardownStep::RemoveStateFile,
            TeardownStep::RestartWaybar,
            TeardownStep::UnbindHotkey { mods: "SUPER SHIFT".to_string(), key: "F12".to_string() },
        ]
    );

    let bare = SessionState { waybar_was_stopped: false, exit_hotkey: None, ..state };
    assert_eq!(
        teardown_plan(&bare),
        vec![TeardownStep::KillProcess { pid: 4321 }, TeardownStep::RemoveStateFile]
    );
}

#[test]
fn child_exit_plan_ends_with_state_file_removal() {
    let hotkey = Some(ExitHotkey { mods: "SUPER".to_string(), key: "F9".to_string() });
    assert_eq!(
        child_exit_plan(true, &hotkey),
        vec![
            TeardownStep::RestartWaybar,
            TeardownStep::UnbindHotkey { mods: "SUPER".to_string(), key: "F9".to_string() },
            TeardownStep::RemoveStateFile,
        ]
    );
    assert_eq!(child_exit_plan(false, &None), vec![TeardownStep::RemoveStateFile]);
}

#[test]
fn startup_poll_decision_bounds_the_wait() {
    assert_eq!(startup_poll_decision(true, 9_999, 10_000), PollDecision::Ready);
    assert_eq!(startup_poll_decision(false, 9_999, 10_000), PollDecision::Wait);
    assert_eq!(startup_poll_decision(false, 10_000, 10_000), PollDecision::TimedOut);
}

#[test]
fn session_tick_reflows_on_cadence() {
    assert_eq!(session_tick_action(true, 0), TickAction::FinishSession);
    assert_eq!(session_tick_action(false, 0), TickAction::Reflow);
    assert_eq!(session_tick_action(false, 1), TickAction::Idle);
    assert_eq!(session_tick_action(false, REFLOW_TICK_INTERVAL), TickAction::Reflow);
}

#[test]
fn session_phases_follow_the_lifecycle() {
    assert_eq!(
        session_transition(SessionPhase::Idle, SessionEvent::LaunchStarted),
        SessionPhase::Launching
    );
    assert_eq!(
        session_transition(SessionPhase::Launching, SessionEvent::StartupSucceeded),
        SessionPhase::Active
    );
    assert_eq!(
        session_transition(SessionPhase::Launching, SessionEvent::StartupFailed),
        SessionPhase::TearingDown
    );
    assert_eq!(
        session_transition(SessionPhase::Active, SessionEvent::ChildExited),
        SessionPhase::TearingDown
    );
    assert_eq!(
        session_transition(SessionPhase::Active, SessionEvent::InterruptReceived),
        SessionPhase::TearingDown
    );
    assert_eq!(
        session_transition(SessionPhase::TearingDown, SessionEvent::TeardownFinished),
        SessionPhase::Terminated
    );
    // Stray events leave the phase alone.
    assert_eq!(
        session_transition(SessionPhase::Terminated, SessionEvent::InterruptReceived),
        SessionPhase::Terminated
    );
    assert_eq!(
        session_transition(SessionPhase::Idle, SessionEvent::ChildExited),
        SessionPhase::Idle
    );
}

#[test]
fn exit_hotkey_registration_checks_the_bind_table() {
    let taken = "SUPER SHIFT, F12, exec, whatever\n";
    assert!(register_exit_hotkey(taken).is_none());

    let free = "SUPER, F1, exec, other\n";
    let (hotkey, cmd) = register_exit_hotkey(free).unwrap();
    assert_eq!(hotkey.mods, "SUPER SHIFT");
    assert_eq!(hotkey.key, "F12");
    assert_eq!(
        cmd.to_args(),
        strings(&["keyword", "bind", "SUPER SHIFT, F12, exec, hyprfinity gamescope-down"])
    );
}

#[test]
fn exit_hotkey_unbind_serializes_mods_and_key() {
    let hotkey = default_exit_hotkey();
    let cmd = unregister_exit_hotkey(&hotkey);
    assert_eq!(cmd.to_args(), strings(&["keyword", "unbind", "SUPER SHIFT, F12"]));
}

#[test]
fn startup_timeout_names_the_child_process() {
    let error = StartupTimeoutError { pid: 4242 };
    assert_eq!(
        error.message(),
        "Timed out waiting for Gamescope window (PID 4242)."
    );
}

#[test]
fn startup_rollback_undoes_only_sidecar_changes() {
    let hotkey = Some(ExitHotkey { mods: "SUPER SHIFT".to_string(), key: "F12".to_string() });
    assert_eq!(
        startup_rollback_plan(true, &hotkey),
        vec![
            TeardownStep::RestartWaybar,
            TeardownStep::UnbindHotkey { mods: "SUPER SHIFT".to_string(), key: "F12".to_string() },
        ]
    );
    assert_eq!(startup_rollback_plan(false, &None), Vec::<TeardownStep>::new());
}
