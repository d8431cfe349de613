//! The closed set of commands this tool issues to the compositor's control
//! tool, and their serialization into its argument strings.  Executing a
//! command is a side effect and happens outside the crate; everything here
//! only describes what to run.

use vstd::prelude::*;
use vstd::string::{StrSliceExecFns, StringExecFns};

use crate::text::{i32_dec_str, join_space, spec_idec, spec_join_space};

verus! {

/// One invocation of the control tool: a window manipulation, a key binding
/// change, or a query.
pub enum GatewayCommand {
    MoveWindow { x: i32, y: i32, selector: String },
    ResizeWindow { width: i32, height: i32, selector: String },
    SetFloating { selector: String },
    Pin { selector: String },
    BindKey { mods: String, key: String, action: String },
    UnbindKey { mods: String, key: String },
    ListMonitors,
    ListClients,
    ListBinds,
}

/// The exact argument vector each command serializes to.
pub open spec fn spec_command_args(c: GatewayCommand) -> Seq<Seq<char>> {
    match c {
        GatewayCommand::MoveWindow { x, y, selector } => seq![
            "dispatch"@,
            "movewindowpixel"@,
            "exact "@ + spec_idec(x as int) + seq![' '] + spec_idec(y as int) + seq![',']
                + selector@,
        ],
        GatewayCommand::ResizeWindow { width, height, selector } => seq![
            "dispatch"@,
            "resizewindowpixel"@,
            "exact "@ + spec_idec(width as int) + seq![' '] + spec_idec(height as int) + seq![',']
                + selector@,
        ],
        GatewayCommand::SetFloating { selector } => seq!["dispatch"@, "setfloating"@, selector@],
        GatewayCommand::Pin { selector } => seq!["dispatch"@, "pin"@, selector@],
        GatewayCommand::BindKey { mods, key, action } => seq![
            "keyword"@,
            "bind"@,
            mods@ + ", "@ + key@ + ", exec, "@ + action@,
        ],
        GatewayCommand::UnbindKey { mods, key } => seq![
            "keyword"@,
            "unbind"@,
            mods@ + ", "@ + key@,
        ],
        GatewayCommand::ListMonitors => seq!["monitors"@, "-j"@],
        GatewayCommand::ListClients => seq!["clients"@, "-j"@],
        GatewayCommand::ListBinds => seq!["binds"@],
    }
}

/// `exact {a} {b},{selector}` — the positional argument the move and resize
/// dispatchers take.
fn exact_pair_arg(a: i32, b: i32, selector: &String) -> (r: String)
    ensures
        r@ == "exact "@ + spec_idec(a as int) + seq![' '] + spec_idec(b as int) + seq![',']
            + selector@,
{
    proof {
        reveal_strlit(" ");
        reveal_strlit(",");
    }
    let mut s = String::from_str("exact ");
    let a_str = i32_dec_str(a);
    s.append(a_str.as_str());
    s.append(" ");
    let b_str = i32_dec_str(b);
    s.append(b_str.as_str());
    s.append(",");
    s.append(selector.as_str());
    proof {
        assert(" "@ =~= seq![' ']);
        assert(","@ =~= seq![',']);
    }
    s
}

impl GatewayCommand {
    /// Serializes the command into the control tool's argument vector.
    pub fn to_args(&self) -> (r: Vec<String>)
        ensures
            r.deep_view() == spec_command_args(*self),
    {
        let mut v: Vec<String> = Vec::new();
        match self {
            GatewayCommand::MoveWindow { x, y, selector } => {
                v.push(String::from_str("dispatch"));
                v.push(String::from_str("movewindowpixel"));
                v.push(exact_pair_arg(*x, *y, selector));
            },
            GatewayCommand::ResizeWindow { width, height, selector } => {
                v.push(String::from_str("dispatch"));
                v.push(String::from_str("resizewindowpixel"));
                v.push(exact_pair_arg(*width, *height, selector));
            },
            GatewayCommand::SetFloating { selector } => {
                v.push(String::from_str("dispatch"));
                v.push(String::from_str("setfloating"));
                v.push(selector.clone());
            },
            GatewayCommand::Pin { selector } => {
                v.push(String::from_str("dispatch"));
                v.push(String::from_str("pin"));
                v.push(selector.clone());
            },
            GatewayCommand::BindKey { mods, key, action } => {
                v.push(String::from_str("keyword"));
                v.push(String::from_str("bind"));
                let mut b = mods.clone();
                b.append(", ");
                b.append(key.as_str());
                b.append(", exec, ");
                b.append(action.as_str());
                v.push(b);
            },
            GatewayCommand::UnbindKey { mods, key } => {
                v.push(String::from_str("keyword"));
                v.push(String::from_str("unbind"));
                let mut b = mods.clone();
                b.append(", ");
                b.append(key.as_str());
                v.push(b);
            },
            GatewayCommand::ListMonitors => {
                v.push(String::from_str("monitors"));
                v.push(String::from_str("-j"));
            },
            GatewayCommand::ListClients => {
                v.push(String::from_str("clients"));
                v.push(String::from_str("-j"));
            },
            GatewayCommand::ListBinds => {
                v.push(String::from_str("binds"));
            },
        }
        proof {
            assert(v.deep_view() =~= spec_command_args(*self));
        }
        v
    }
}

/// A control-tool invocation that failed: the arguments it was run with and
/// what it printed on standard error.  Raised by the caller that ran the
/// command; fatal during setup, logged and ignored during best-effort
/// teardown and reflow steps.
pub struct GatewayError {
    pub command: Vec<String>,
    pub stderr: String,
}

impl GatewayError {
    /// The diagnostic line reported for a failed invocation.
    pub fn message(&self) -> (r: String)
        ensures
            r@ == "hyprctl failed for args "@ + spec_join_space(self.command.deep_view()) + ": "@
                + self.stderr@,
    {
        let mut s = String::from_str("hyprctl failed for args ");
        let joined = join_space(&self.command);
        s.append(joined.as_str());
        s.append(": ");
        s.append(self.stderr.as_str());
        s
    }
}

} // verus!
