//! Resolving the effective launch settings: the configuration record as the
//! file provides it, the command-line overrides, and the merge rules between
//! them.  Reading and writing the file itself happens outside the crate.

use vstd::prelude::*;
use vstd::string::{StrSliceExecFns, StringExecFns};

use crate::session::{first_sep_index, spec_sep};
use crate::text::{clone_string_vec, i32_dec_str, spec_idec};
use crate::util::spec_clamp_i32;

verus! {

/// The render scale used when neither the command line nor the file sets
/// one: native resolution, in parts per million.
pub const DEFAULT_RENDER_SCALE_PPM: u32 = 1_000_000;

/// The lowest render scale accepted, in parts per million.
pub const MIN_RENDER_SCALE_PPM: u32 = 100_000;

/// The default startup timeout, in seconds.
pub const DEFAULT_STARTUP_TIMEOUT_SECS: u64 = 10;

/// The configuration file's contents: every field optional, the merge rules
/// supply the defaults.
#[derive(Clone)]
pub struct Config {
    pub gamescope_args: Option<Vec<String>>,
    pub default_command: Option<Vec<String>>,
    pub no_pin: Option<bool>,
    pub pick: Option<bool>,
    pub hide_waybar: Option<bool>,
    pub pick_size: Option<bool>,
    pub render_scale_ppm: Option<u32>,
    pub virtual_width: Option<i32>,
    pub virtual_height: Option<i32>,
    pub output_width: Option<i32>,
    pub output_height: Option<i32>,
    pub startup_timeout_secs: Option<u64>,
}

/// The resolved parameters a session is launched with.
pub struct LaunchSettings {
    pub args: Vec<String>,
    pub no_pin: bool,
    pub pick: bool,
    pub hide_waybar: bool,
    pub pick_size: bool,
    pub render_scale_ppm: u32,
    pub virtual_width: Option<i32>,
    pub virtual_height: Option<i32>,
    pub output_width: Option<i32>,
    pub output_height: Option<i32>,
    pub timeout: u64,
}

/// The argument vector the merge produces: command-line arguments win over
/// the configured ones, and the configured default command is appended —
/// behind a fresh `--` — when a default command exists and no separator is
/// present yet.
/// Whether the vector already holds the `--` separator.
pub open spec fn spec_args_have_sep(args: Seq<Seq<char>>) -> bool {
    exists|i: int| 0 <= i < args.len() && #[trigger] args[i] == spec_sep()
}

pub open spec fn spec_effective_args(
    cli_args: Seq<Seq<char>>,
    cfg_args: Option<Seq<Seq<char>>>,
    default_command: Option<Seq<Seq<char>>>,
) -> Seq<Seq<char>> {
    let base = if cli_args.len() > 0 {
        cli_args
    } else {
        match cfg_args {
            Some(a) => a,
            None => Seq::empty(),
        }
    };
    if default_command is Some && !spec_args_have_sep(base) {
        base + seq![spec_sep()] + default_command.unwrap()
    } else {
        base
    }
}

/// The scale the merge settles on: the command-line value, else the
/// configured one, else native — forced into the accepted range.
pub open spec fn spec_effective_scale_ppm(cli: Option<u32>, cfg: Option<u32>) -> int {
    let chosen = match cli {
        Some(s) => s as int,
        None => match cfg {
            Some(s) => s as int,
            None => DEFAULT_RENDER_SCALE_PPM as int,
        },
    };
    spec_clamp_i32(chosen, MIN_RENDER_SCALE_PPM as int, DEFAULT_RENDER_SCALE_PPM as int)
}

/// Merges the command-line overrides over the configuration: explicit flags
/// win, boolean flags combine with or, the render scale is clamped into
/// range, and a non-default command-line timeout wins over the configured
/// one.
pub fn apply_config(
    cli_args: &Vec<String>,
    cli_no_pin: bool,
    cli_pick: bool,
    cli_hide_waybar: bool,
    cli_pick_size: bool,
    cli_render_scale_ppm: Option<u32>,
    cli_virtual_width: Option<i32>,
    cli_virtual_height: Option<i32>,
    cli_timeout: u64,
    config: &Config,
) -> (r: LaunchSettings)
    ensures
        r.args.deep_view() == spec_effective_args(
            cli_args.deep_view(),
            match config.gamescope_args {
                Some(a) => Some(a.deep_view()),
                None => None,
            },
            match config.default_command {
                Some(c) => Some(c.deep_view()),
                None => None,
            },
        ),
        r.no_pin == (cli_no_pin || (config.no_pin matches Some(true))),
        r.pick == (cli_pick || (config.pick matches Some(true))),
        r.hide_waybar == (cli_hide_waybar || !(config.hide_waybar matches Some(false))),
        r.pick_size == (cli_pick_size || (config.pick_size matches Some(true))),
        r.render_scale_ppm == spec_effective_scale_ppm(
            cli_render_scale_ppm,
            config.render_scale_ppm,
        ),
        r.virtual_width == (if cli_virtual_width is Some {
            cli_virtual_width
        } else {
            config.virtual_width
        }),
        r.virtual_height == (if cli_virtual_height is Some {
            cli_virtual_height
        } else {
            config.virtual_height
        }),
        r.output_width == config.output_width,
        r.output_height == config.output_height,
        r.timeout == (if cli_timeout != DEFAULT_STARTUP_TIMEOUT_SECS {
            cli_timeout
        } else {
            match config.startup_timeout_secs {
                Some(t) => t,
                None => DEFAULT_STARTUP_TIMEOUT_SECS,
            }
        }),
{
    let mut args: Vec<String> = if cli_args.len() > 0 {
        clone_string_vec(cli_args)
    } else {
        match &config.gamescope_args {
            Some(a) => clone_string_vec(a),
            None => Vec::new(),
        }
    };
    let ghost base = args.deep_view();
    proof {
        if cli_args.deep_view().len() == 0 && config.gamescope_args is None {
            assert(base =~= Seq::<Seq<char>>::empty());
        }
    }

    let no_pin = if cli_no_pin {
        true
    } else {
        match config.no_pin {
            Some(b) => b,
            None => false,
        }
    };
    let pick = if cli_pick {
        true
    } else {
        match config.pick {
            Some(b) => b,
            None => false,
        }
    };
    let hide_waybar = if cli_hide_waybar {
        true
    } else {
        match config.hide_waybar {
            Some(b) => b,
            None => true,
        }
    };
    let pick_size = if cli_pick_size {
        true
    } else {
        match config.pick_size {
            Some(b) => b,
            None => false,
        }
    };

    let chosen_scale: u32 = match cli_render_scale_ppm {
        Some(s) => s,
        None => match config.render_scale_ppm {
            Some(s) => s,
            None => DEFAULT_RENDER_SCALE_PPM,
        },
    };
    let render_scale_ppm: u32 = if chosen_scale < MIN_RENDER_SCALE_PPM {
        MIN_RENDER_SCALE_PPM
    } else if chosen_scale > DEFAULT_RENDER_SCALE_PPM {
        DEFAULT_RENDER_SCALE_PPM
    } else {
        chosen_scale
    };

    let virtual_width = match cli_virtual_width {
        Some(w) => Some(w),
        None => config.virtual_width,
    };
    let virtual_height = match cli_virtual_height {
        Some(h) => Some(h),
        None => config.virtual_height,
    };

    let timeout = if cli_timeout != DEFAULT_STARTUP_TIMEOUT_SECS {
        cli_timeout
    } else {
        match config.startup_timeout_secs {
            Some(t) => t,
            None => DEFAULT_STARTUP_TIMEOUT_SECS,
        }
    };

    match &config.default_command {
        Some(cmd) => {
            let sep = first_sep_index(&args);
            if sep == args.len() {
                proof {
                    reveal_strlit("--");
                    assert(forall|i: int| 0 <= i < base.len() ==> #[trigger] base[i] != spec_sep());
                }
                args.push(String::from_str("--"));
                let ghost with_sep = args.deep_view();
                proof {
                    assert(with_sep =~= base + seq![spec_sep()]);
                }
                let mut k: usize = 0;
                while k < cmd.len()
                    invariant
                        0 <= k <= cmd@.len(),
                        with_sep == base + seq![spec_sep()],
                        forall|i: int| 0 <= i < base.len() ==> #[trigger] base[i] != spec_sep(),
                        args.deep_view() == with_sep + cmd.deep_view().subrange(0, k as int),
                    decreases cmd@.len() - k,
                {
                    let ghost old_args = args.deep_view();
                    args.push(cmd[k].clone());
                    proof {
                        assert(args.deep_view() =~= old_args.push(cmd@[k as int]@));
                        assert(args.deep_view() =~= with_sep + cmd.deep_view().subrange(
                            0,
                            k + 1,
                        ));
                    }
                    k = k + 1;
                }
                proof {
                    assert(cmd.deep_view().subrange(0, cmd@.len() as int) =~= cmd.deep_view());
                    assert(args.deep_view() == base + seq![spec_sep()] + cmd.deep_view());
                }
            } else {
                proof {
                    assert(base[sep as int] == spec_sep());
                }
            }
        },
        None => {},
    }

    LaunchSettings {
        args,
        no_pin,
        pick,
        hide_waybar,
        pick_size,
        render_scale_ppm,
        virtual_width,
        virtual_height,
        output_width: config.output_width,
        output_height: config.output_height,
        timeout,
    }
}

/// Could not settle on a configuration file location: no override was given
/// and neither environment value is available.
#[derive(Debug)]
pub struct ConfigPathError;

impl ConfigPathError {
    /// The diagnostic line reported when no location can be resolved.
    pub fn message(&self) -> (r: String)
        ensures
            r@ == "Unable to resolve config path (HOME and XDG_CONFIG_HOME are unset)."@,
    {
        String::from_str("Unable to resolve config path (HOME and XDG_CONFIG_HOME are unset).")
    }
}

/// The configuration file location: an explicit override wins; otherwise the
/// file lives under the configuration home, or under `.config` in the home
/// directory.  The caller reads the two environment values and passes them
/// in.
pub fn resolve_config_path(
    path_override: &Option<String>,
    xdg_config_home: &Option<String>,
    home: &Option<String>,
) -> (r: Result<String, ConfigPathError>)
    ensures
        ({
            match (*path_override, *xdg_config_home, *home) {
                (Some(p), _, _) => r matches Ok(s) && s@ == p@,
                (None, Some(x), _) => r matches Ok(s) && s@ == x@ + "/hyprfinity/config.toml"@,
                (None, None, Some(h)) => r matches Ok(s) && s@ == h@
                    + "/.config/hyprfinity/config.toml"@,
                (None, None, None) => r is Err,
            }
        }),
{
    match path_override {
        Some(p) => Ok(p.clone()),
        None => {
            match xdg_config_home {
                Some(x) => {
                    let mut s = x.clone();
                    s.append("/hyprfinity/config.toml");
                    Ok(s)
                },
                None => {
                    match home {
                        Some(h) => {
                            let mut s = h.clone();
                            s.append("/.config/hyprfinity/config.toml");
                            Ok(s)
                        },
                        None => Err(ConfigPathError),
                    }
                },
            }
        },
    }
}

/// `WxH`, with `(auto)` standing in for a missing dimension, and `auto`
/// alone when neither is set.
pub fn format_optional_size(width: Option<i32>, height: Option<i32>) -> (r: String)
    ensures
        ({
            match (width, height) {
                (Some(w), Some(h)) => r@ == spec_idec(w as int) + "x"@ + spec_idec(h as int),
                (Some(w), None) => r@ == spec_idec(w as int) + "x(auto)"@,
                (None, Some(h)) => r@ == "(auto)x"@ + spec_idec(h as int),
                (None, None) => r@ == "auto"@,
            }
        }),
{
    match (width, height) {
        (Some(w), Some(h)) => {
            let mut s = i32_dec_str(w);
            s.append("x");
            let hs = i32_dec_str(h);
            s.append(hs.as_str());
            s
        },
        (Some(w), None) => {
            let mut s = i32_dec_str(w);
            s.append("x(auto)");
            s
        },
        (None, Some(h)) => {
            let mut s = String::from_str("(auto)x");
            let hs = i32_dec_str(h);
            s.append(hs.as_str());
            s
        },
        (None, None) => String::from_str("auto"),
    }
}

} // verus!
