use hyprfinity::hyprland::{
    bind_exists, client_geometry, clients_contain_pid, compute_monitor_span, normalize_bind_token,
    primary_client_for_pid, primary_window_selector, Client, Monitor,
};

fn monitor(name: &str, width: i32, height: i32, x: i32, y: i32) -> Monitor {
    Monitor { name: Some(name.to_string()), width, height, x, y }
}

#[test]
fn compute_monitor_span_combines_offsets() {
    let monitors = vec![
        monitor("left", 1920, 1080, -1920, 0),
        monitor("right", 2560, 1440, 0, 0),
    ];
    let span = compute_monitor_span(&monitors).unwrap();
    assert_eq!(span.origin_x, -1920);
    assert_eq!(span.origin_y, 0);
    assert_eq!(span.width, 4480);
    assert_eq!(span.height, 1440);
}

#[test]
fn compute_monitor_span_rejects_empty_list() {
    let error = compute_monitor_span(&Vec::new()).unwrap_err();
    assert_eq!(error.message(), "No monitors detected.");
}

#[test]
fn compute_monitor_span_single_monitor() {
    let monitors = vec![monitor("only", 2560, 1440, 100, 50)];
    let span = compute_monitor_span(&monitors).unwrap();
    assert_eq!(
        (span.origin_x, span.origin_y, span.width, span.height),
        (100, 50, 2560, 1440)
    );
}

fn client(pid: i32, address: Option<&str>, at: Option<(i32, i32)>, size: Option<(i32, i32)>) -> Client {
    Client { pid, address: address.map(|a| a.to_string()), at, size }
}

#[test]
fn primary_client_for_pid_prefers_largest_area() {
    let clients = vec![
        client(100, Some("0x1"), Some((0, 0)), Some((800, 600))),
        client(100, Some("0x2"), Some((0, 0)), Some((1920, 1080))),
        client(200, Some("0x3"), Some((0, 0)), Some((3840, 2160))),
    ];
    let selected = primary_client_for_pid(&clients, 100).unwrap();
    assert_eq!(selected.address.as_deref(), Some("0x2"));
}

#[test]
fn primary_client_ties_go_to_the_later_window() {
    let clients = vec![
        client(7, Some("0xa"), None, Some((800, 600))),
        client(7, Some("0xb"), None, Some((800, 600))),
    ];
    let selected = primary_client_for_pid(&clients, 7).unwrap();
    assert_eq!(selected.address.as_deref(), Some("0xb"));
}

#[test]
fn window_selector_prefers_address_and_falls_back_to_pid() {
    let clients = vec![client(42, Some("0x55aa"), None, Some((10, 10)))];
    assert_eq!(primary_window_selector(&clients, 42), "address:0x55aa");
    let anonymous = vec![client(42, None, None, Some((10, 10)))];
    assert_eq!(primary_window_selector(&anonymous, 42), "pid:42");
    assert_eq!(primary_window_selector(&Vec::new(), 4242), "pid:4242");
}

#[test]
fn client_geometry_needs_position_and_size() {
    let ready = vec![client(9, None, Some((-1920, 0)), Some((4480, 1440)))];
    let g = client_geometry(&ready, 9).unwrap();
    assert_eq!((g.x, g.y, g.width, g.height), (-1920, 0, 4480, 1440));

    let placing = vec![client(9, None, None, Some((4480, 1440)))];
    assert!(client_geometry(&placing, 9).is_none());
    assert!(client_geometry(&Vec::new(), 9).is_none());
}

#[test]
fn clients_contain_pid_scans_the_list() {
    let clients = vec![client(1, None, None, None), client(2, None, None, None)];
    assert!(clients_contain_pid(&clients, 2));
    assert!(!clients_contain_pid(&clients, 3));
}

#[test]
fn normalize_bind_token_strips_space_and_case() {
    assert_eq!(normalize_bind_token("SUPER SHIFT, F12"), "supershift,f12");
    assert_eq!(normalize_bind_token("  a\tB "), "ab");
    assert_eq!(normalize_bind_token(""), "");
}

#[test]
fn bind_exists_matches_line_by_line() {
    let binds = "bind\n\tmodmask: 65\n\tkey: F12\nSUPER SHIFT, F12, exec, something\nSUPER, F1, exec, other\n";
    assert!(bind_exists(binds, "SUPER SHIFT", "F12"));
    assert!(bind_exists(binds, "super", "F1"));
    assert!(!bind_exists(binds, "SUPER SHIFT", "F11"));
    assert!(!bind_exists("", "SUPER SHIFT", "F12"));
    // The modifier token and key may not match across a line break.
    assert!(!bind_exists("SUPER SHIFT,\nF12", "SUPER SHIFT", "F12"));
}
