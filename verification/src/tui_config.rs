//! The pure rules behind the interactive configuration editor: filling a
//! loaded configuration with editor defaults, the preset size options, and
//! cycling a size setting through them.  Drawing the editor and reading keys
//! happen outside the crate.

use vstd::prelude::*;
use vstd::string::StringExecFns;

use crate::config::{Config, DEFAULT_STARTUP_TIMEOUT_SECS};

verus! {

/// Fills every unset field a fresh editor session needs with its default:
/// a modest refresh-rate argument, conservative flags, the auto-tuned render
/// scale, and the standard startup timeout.  Explicit sizes stay untouched —
/// absent means automatic.
pub fn apply_editor_defaults(config: Config, auto_scale_ppm: u32) -> (r: Config)
    ensures
        config.gamescope_args is Some ==> r.gamescope_args == config.gamescope_args,
        config.gamescope_args is None ==> (r.gamescope_args matches Some(a) && a.deep_view()
            == seq!["-r"@, "60"@]),
        r.default_command == config.default_command,
        r.no_pin == Some(config.no_pin matches Some(true)),
        r.pick == Some(config.pick matches Some(true)),
        r.hide_waybar == Some(!(config.hide_waybar matches Some(false))),
        r.pick_size == Some(config.pick_size matches Some(true)),
        config.render_scale_ppm is Some ==> r.render_scale_ppm == config.render_scale_ppm,
        config.render_scale_ppm is None ==> r.render_scale_ppm == Some(auto_scale_ppm),
        r.virtual_width == config.virtual_width,
        r.virtual_height == config.virtual_height,
        r.output_width == config.output_width,
        r.output_height == config.output_height,
        config.startup_timeout_secs is Some ==> r.startup_timeout_secs
            == config.startup_timeout_secs,
        config.startup_timeout_secs is None ==> r.startup_timeout_secs == Some(
            DEFAULT_STARTUP_TIMEOUT_SECS,
        ),
{
    let mut config = config;
    if config.gamescope_args.is_none() {
        let mut default_args: Vec<String> = Vec::new();
        default_args.push(String::from_str("-r"));
        default_args.push(String::from_str("60"));
        proof {
            assert(default_args.deep_view() =~= seq!["-r"@, "60"@]);
        }
        config.gamescope_args = Some(default_args);
    }
    if config.no_pin.is_none() {
        config.no_pin = Some(false);
    }
    if config.pick.is_none() {
        config.pick = Some(false);
    }
    if config.hide_waybar.is_none() {
        config.hide_waybar = Some(true);
    }
    if config.pick_size.is_none() {
        config.pick_size = Some(false);
    }
    if config.render_scale_ppm.is_none() {
        config.render_scale_ppm = Some(auto_scale_ppm);
    }
    if config.startup_timeout_secs.is_none() {
        config.startup_timeout_secs = Some(DEFAULT_STARTUP_TIMEOUT_SECS);
    }
    config
}

/// The list with `candidate` appended, unless it is already present.
pub open spec fn spec_push_unique(
    s: Seq<Option<(i32, i32)>>,
    c: Option<(i32, i32)>,
) -> Seq<Option<(i32, i32)>> {
    if exists|i: int| 0 <= i < s.len() && #[trigger] s[i] == c {
        s
    } else {
        s.push(c)
    }
}

fn opt_pair_eq(a: Option<(i32, i32)>, b: Option<(i32, i32)>) -> (r: bool)
    ensures
        r == (a == b),
{
    match (a, b) {
        (None, None) => true,
        (Some(x), Some(y)) => x.0 == y.0 && x.1 == y.1,
        _ => false,
    }
}

/// Appends a size option to the cycling list unless an equal one is already
/// listed.
pub fn push_unique_size_option(
    options: &mut Vec<Option<(i32, i32)>>,
    candidate: Option<(i32, i32)>,
)
    ensures
        final(options)@ == spec_push_unique(old(options)@, candidate),
{
    let mut i: usize = 0;
    while i < options.len()
        invariant
            0 <= i <= options@.len(),
            forall|k: int| 0 <= k < i ==> #[trigger] options@[k] != candidate,
        decreases options@.len() - i,
    {
        if opt_pair_eq(options[i], candidate) {
            return ;
        }
        i = i + 1;
    }
    options.push(candidate);
}

/// The output-size options the editor cycles through: automatic, the live
/// span, and a few common resolutions, duplicates dropped.
pub open spec fn spec_output_size_options(span: Option<(i32, i32)>) -> Seq<Option<(i32, i32)>> {
    let s0 = seq![Option::<(i32, i32)>::None];
    let s1 = spec_push_unique(s0, span);
    let s2 = spec_push_unique(s1, Some((1920, 1080)));
    let s3 = spec_push_unique(s2, Some((2560, 1440)));
    let s4 = spec_push_unique(s3, Some((3440, 1440)));
    spec_push_unique(s4, Some((3840, 2160)))
}

pub fn output_size_options(span: Option<(i32, i32)>) -> (r: Vec<Option<(i32, i32)>>)
    ensures
        r@ == spec_output_size_options(span),
        r@.len() > 0,
{
    let mut options: Vec<Option<(i32, i32)>> = Vec::new();
    options.push(None);
    proof {
        assert(options@ =~= seq![Option::<(i32, i32)>::None]);
    }
    push_unique_size_option(&mut options, span);
    push_unique_size_option(&mut options, Some((1920, 1080)));
    push_unique_size_option(&mut options, Some((2560, 1440)));
    push_unique_size_option(&mut options, Some((3440, 1440)));
    push_unique_size_option(&mut options, Some((3840, 2160)));
    options
}

/// The internal-size options the editor cycles through: automatic, a few
/// common render resolutions, and the live span, duplicates dropped.
pub open spec fn spec_virtual_size_options(span: Option<(i32, i32)>) -> Seq<Option<(i32, i32)>> {
    let s0 = seq![Option::<(i32, i32)>::None];
    let s1 = spec_push_unique(s0, Some((1280, 720)));
    let s2 = spec_push_unique(s1, Some((1600, 900)));
    let s3 = spec_push_unique(s2, Some((1920, 1080)));
    match span {
        Some(p) => spec_push_unique(s3, Some(p)),
        None => s3,
    }
}

pub fn virtual_size_options(span: Option<(i32, i32)>) -> (r: Vec<Option<(i32, i32)>>)
    ensures
        r@ == spec_virtual_size_options(span),
        r@.len() > 0,
{
    let mut options: Vec<Option<(i32, i32)>> = Vec::new();
    options.push(None);
    proof {
        assert(options@ =~= seq![Option::<(i32, i32)>::None]);
    }
    push_unique_size_option(&mut options, Some((1280, 720)));
    push_unique_size_option(&mut options, Some((1600, 900)));
    push_unique_size_option(&mut options, Some((1920, 1080)));
    match span {
        Some(p) => push_unique_size_option(&mut options, Some(p)),
        None => {},
    }
    options
}

/// `i` is where the currently selected option stands: the first equal entry,
/// or position 0 when the selection is not listed.
pub open spec fn spec_cycle_index(
    opts: Seq<Option<(i32, i32)>>,
    cur: Option<(i32, i32)>,
    i: int,
) -> bool {
    ||| (0 <= i < opts.len() && opts[i] == cur && forall|k: int|
        0 <= k < i ==> #[trigger] opts[k] != cur)
    ||| (i == 0 && forall|k: int| 0 <= k < opts.len() ==> #[trigger] opts[k] != cur)
}

/// The explicit pair currently selected, or automatic when either dimension
/// is unset.
pub open spec fn spec_current_pair(w: Option<i32>, h: Option<i32>) -> Option<(i32, i32)> {
    match (w, h) {
        (Some(a), Some(b)) => Some((a, b)),
        _ => None,
    }
}

/// Steps a size setting to the neighbouring option in the cycling list,
/// wrapping at either end; an unlisted current selection steps from the top.
pub fn cycle_size_setting(
    width: &mut Option<i32>,
    height: &mut Option<i32>,
    options: &Vec<Option<(i32, i32)>>,
    forward: bool,
)
    requires
        options@.len() > 0,
    ensures
        exists|idx: int|
            #[trigger] spec_cycle_index(
                options@,
                spec_current_pair(*old(width), *old(height)),
                idx,
            ) && ({
                let n = if forward {
                    (idx + 1) % (options@.len() as int)
                } else if idx == 0 {
                    options@.len() - 1
                } else {
                    idx - 1
                };
                match options@[n] {
                    Some(p) => *final(width) == Some(p.0) && *final(height) == Some(p.1),
                    None => *final(width) is None && *final(height) is None,
                }
            }),
{
    let current: Option<(i32, i32)> = match (*width, *height) {
        (Some(a), Some(b)) => Some((a, b)),
        _ => None,
    };
    let mut idx: usize = 0;
    let mut found = false;
    let mut i: usize = 0;
    while i < options.len()
        invariant
            0 <= i <= options@.len(),
            current == spec_current_pair(*old(width), *old(height)),
            !found ==> idx == 0 && forall|k: int| 0 <= k < i ==> #[trigger] options@[k] != current,
            found ==> spec_cycle_index(options@, current, idx as int),
        decreases options@.len() - i,
    {
        if !found && opt_pair_eq(options[i], current) {
            idx = i;
            found = true;
        }
        i = i + 1;
    }
    proof {
        assert(spec_cycle_index(options@, current, idx as int));
    }
    let len = options.len();
    let next_idx: usize = if forward {
        (idx + 1) % len
    } else if idx == 0 {
        len - 1
    } else {
        idx - 1
    };
    match options[next_idx] {
        Some(p) => {
            *width = Some(p.0);
            *height = Some(p.1);
        },
        None => {
            *width = None;
            *height = None;
        },
    }
}

} // verus!
