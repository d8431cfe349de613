use hyprfinity::command::{GatewayCommand, GatewayError};
use hyprfinity::text::debug_log_line;

fn strings(v: &[&str]) -> Vec<String> {
    v.iter().map(|s| s.to_string()).collect()
}

#[test]
fn move_command_serializes_exact_position() {
    let cmd = GatewayCommand::MoveWindow { x: -1920, y: 0, selector: "address:0x2".to_string() };
    assert_eq!(
        cmd.to_args(),
        strings(&["dispatch", "movewindowpixel", "exact -1920 0,address:0x2"])
    );
}

#[test]
fn resize_command_serializes_exact_size() {
    let cmd =
        GatewayCommand::ResizeWindow { width: 4480, height: 1440, selector: "pid:77".to_string() };
    assert_eq!(
        cmd.to_args(),
        strings(&["dispatch", "resizewindowpixel", "exact 4480 1440,pid:77"])
    );
}

#[test]
fn floating_and_pin_commands_take_the_selector() {
    let float = GatewayCommand::SetFloating { selector: "address:0xabc".to_string() };
    assert_eq!(float.to_args(), strings(&["dispatch", "setfloating", "address:0xabc"]));
    let pin = GatewayCommand::Pin { selector: "address:0xabc".to_string() };
    assert_eq!(pin.to_args(), strings(&["dispatch", "pin", "address:0xabc"]));
}

#[test]
fn query_commands_serialize_to_their_verbs() {
    assert_eq!(GatewayCommand::ListMonitors.to_args(), strings(&["monitors", "-j"]));
    assert_eq!(GatewayCommand::ListClients.to_args(), strings(&["clients", "-j"]));
    assert_eq!(GatewayCommand::ListBinds.to_args(), strings(&["binds"]));
}

#[test]
fn bind_command_spells_out_the_binding() {
    let cmd = GatewayCommand::BindKey {
        mods: "SUPER".to_string(),
        key: "F9".to_string(),
        action: "run-me".to_string(),
    };
    assert_eq!(cmd.to_args(), strings(&["keyword", "bind", "SUPER, F9, exec, run-me"]));
}

#[test]
fn debug_log_line_prefixes_the_timestamp() {
    assert_eq!(debug_log_line(0, "session start"), "[0] session start");
    assert_eq!(debug_log_line(1733000000123, "span computed"), "[1733000000123] span computed");
}

#[test]
fn gateway_error_names_the_failed_invocation() {
    let error = GatewayError {
        command: strings(&["dispatch", "pin", "address:0x2"]),
        stderr: "no such window".to_string(),
    };
    assert_eq!(
        error.message(),
        "hyprctl failed for args dispatch pin address:0x2: no such window"
    );
}
