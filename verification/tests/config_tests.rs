use hyprfinity::config::{
    apply_config, format_optional_size, resolve_config_path, Config, DEFAULT_RENDER_SCALE_PPM,
};
use hyprfinity::tui_config::{
    apply_editor_defaults, cycle_size_setting, output_size_options, push_unique_size_option,
    virtual_size_options,
};

fn strings(v: &[&str]) -> Vec<String> {
    v.iter().map(|s| s.to_string()).collect()
}

/// The render scale in parts per million, as the library takes it.
fn ppm(scale: f32) -> u32 {
    (scale * 1_000_000.0).round() as u32
}

fn base_config() -> Config {
    Config {
        gamescope_args: Some(strings(&["-r", "60"])),
        default_command: Some(strings(&["steam", "-applaunch", "620"])),
        no_pin: Some(false),
        pick: Some(false),
        hide_waybar: Some(true),
        pick_size: Some(false),
        render_scale_ppm: Some(ppm(0.9)),
        virtual_width: Some(1280),
        virtual_height: Some(720),
        output_width: Some(3840),
        output_height: Some(1080),
        startup_timeout_secs: Some(15),
    }
}

#[test]
fn apply_config_uses_config_defaults_and_appends_default_command() {
    let config = base_config();
    let launch = apply_config(
        &Vec::new(),
        false,
        false,
        false,
        false,
        None,
        None,
        None,
        10,
        &config,
    );

    assert_eq!(launch.args, strings(&["-r", "60", "--", "steam", "-applaunch", "620"]));
    assert!(!launch.no_pin);
    assert!(!launch.pick);
    assert!(launch.hide_waybar);
    assert!(!launch.pick_size);
    assert_eq!(launch.render_scale_ppm, ppm(0.9));
    assert_eq!(launch.virtual_width, Some(1280));
    assert_eq!(launch.virtual_height, Some(720));
    assert_eq!(launch.output_width, Some(3840));
    assert_eq!(launch.output_height, Some(1080));
    assert_eq!(launch.timeout, 15);
}

#[test]
fn apply_config_cli_overrides_and_clamps_render_scale() {
    let config = base_config();
    let launch = apply_config(
        &strings(&["-r", "120"]),
        true,
        true,
        true,
        true,
        Some(ppm(2.0)),
        Some(1600),
        None,
        25,
        &config,
    );

    assert_eq!(launch.args, strings(&["-r", "120", "--", "steam", "-applaunch", "620"]));
    assert!(launch.no_pin);
    assert!(launch.pick);
    assert!(launch.hide_waybar);
    assert!(launch.pick_size);
    assert_eq!(launch.render_scale_ppm, ppm(1.0));
    assert_eq!(launch.virtual_width, Some(1600));
    assert_eq!(launch.virtual_height, Some(720));
    assert_eq!(launch.timeout, 25);
}

#[test]
fn apply_config_on_empty_config_uses_built_in_defaults() {
    let config = Config {
        gamescope_args: None,
        default_command: None,
        no_pin: None,
        pick: None,
        hide_waybar: None,
        pick_size: None,
        render_scale_ppm: None,
        virtual_width: None,
        virtual_height: None,
        output_width: None,
        output_height: None,
        startup_timeout_secs: None,
    };
    let launch = apply_config(
        &Vec::new(),
        false,
        false,
        false,
        false,
        None,
        None,
        None,
        10,
        &config,
    );
    assert!(launch.args.is_empty());
    assert!(!launch.no_pin);
    assert!(launch.hide_waybar);
    assert_eq!(launch.render_scale_ppm, DEFAULT_RENDER_SCALE_PPM);
    assert_eq!(launch.timeout, 10);
}

#[test]
fn resolve_config_path_prefers_override_then_environment() {
    let over = Some("/tmp/custom.toml".to_string());
    let xdg = Some("/home/u/.config".to_string());
    let home = Some("/home/u".to_string());
    assert_eq!(resolve_config_path(&over, &xdg, &home).unwrap(), "/tmp/custom.toml");
    assert_eq!(
        resolve_config_path(&None, &xdg, &home).unwrap(),
        "/home/u/.config/hyprfinity/config.toml"
    );
    assert_eq!(
        resolve_config_path(&None, &None, &home).unwrap(),
        "/home/u/.config/hyprfinity/config.toml"
    );
    let error = resolve_config_path(&None, &None, &None).unwrap_err();
    assert_eq!(
        error.message(),
        "Unable to resolve config path (HOME and XDG_CONFIG_HOME are unset)."
    );
}

#[test]
fn format_optional_size_spells_out_missing_dimensions() {
    assert_eq!(format_optional_size(Some(1920), Some(1080)), "1920x1080");
    assert_eq!(format_optional_size(Some(1920), None), "1920x(auto)");
    assert_eq!(format_optional_size(None, Some(1080)), "(auto)x1080");
    assert_eq!(format_optional_size(None, None), "auto");
}

#[test]
fn editor_defaults_fill_unset_fields_only() {
    let config = Config {
        gamescope_args: None,
        default_command: None,
        no_pin: None,
        pick: None,
        hide_waybar: None,
        pick_size: None,
        render_scale_ppm: None,
        virtual_width: Some(1280),
        virtual_height: Some(720),
        output_width: None,
        output_height: None,
        startup_timeout_secs: None,
    };
    let filled = apply_editor_defaults(config, ppm(0.75));
    assert_eq!(filled.gamescope_args, Some(strings(&["-r", "60"])));
    assert_eq!(filled.no_pin, Some(false));
    assert_eq!(filled.hide_waybar, Some(true));
    assert_eq!(filled.render_scale_ppm, Some(ppm(0.75)));
    assert_eq!(filled.startup_timeout_secs, Some(10));
    assert_eq!(filled.virtual_width, Some(1280));
    assert_eq!(filled.virtual_height, Some(720));
}

#[test]
fn size_options_drop_duplicates() {
    let options = output_size_options(Some((1920, 1080)));
    assert_eq!(
        options,
        vec![None, Some((1920, 1080)), Some((2560, 1440)), Some((3440, 1440)), Some((3840, 2160))]
    );
    let mut list = vec![None, Some((10, 10))];
    push_unique_size_option(&mut list, Some((10, 10)));
    assert_eq!(list, vec![None, Some((10, 10))]);
}

#[test]
fn cycle_size_setting_wraps_both_ways() {
    let options = virtual_size_options(None);
    assert_eq!(options, vec![None, Some((1280, 720)), Some((1600, 900)), Some((1920, 1080))]);

    let mut width: Option<i32> = None;
    let mut height: Option<i32> = None;
    cycle_size_setting(&mut width, &mut height, &options, true);
    assert_eq!((width, height), (Some(1280), Some(720)));

    cycle_size_setting(&mut width, &mut height, &options, false);
    assert_eq!((width, height), (None, None));

    // Stepping back from the top wraps to the last option.
    cycle_size_setting(&mut width, &mut height, &options, false);
    assert_eq!((width, height), (Some(1920), Some(1080)));
}
