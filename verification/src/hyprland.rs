//! Data parsed from the compositor's control tool — monitors and client
//! windows — together with the span aggregation over monitors and the client
//! selection rules.  The querying itself is a side effect and lives outside
//! the crate; these functions take the already-parsed records.

use vstd::prelude::*;
use vstd::string::{StrSliceExecFns, StringExecFns};

use crate::text::{char_is_whitespace, contains_str, is_white, lower_of, lowercase_str,
    spec_contains, spec_udec, u64_dec_str};

verus! {

/// One physical monitor as the compositor reports it: a position and a
/// non-empty rectangle.
pub struct Monitor {
    pub name: Option<String>,
    pub width: i32,
    pub height: i32,
    pub x: i32,
    pub y: i32,
}

/// The bounding rectangle covering all monitors; the target geometry for the
/// spanned window.
#[derive(PartialEq, Eq, Structural, Clone, Copy, Debug)]
pub struct Span {
    pub origin_x: i32,
    pub origin_y: i32,
    pub width: i32,
    pub height: i32,
}

/// Computing a span from an empty monitor list is an error, not a zero span.
#[derive(Debug)]
pub struct NoMonitorsError;

impl NoMonitorsError {
    /// The diagnostic line reported when the compositor lists no monitor.
    pub fn message(&self) -> (r: String)
        ensures
            r@ == "No monitors detected."@,
    {
        String::from_str("No monitors detected.")
    }
}

/// A monitor record as the data model demands it: positive dimensions, with
/// its far corner still representable.
pub open spec fn spec_monitor_wf(m: Monitor) -> bool {
    &&& m.width > 0
    &&& m.height > 0
    &&& m.x + m.width <= i32::MAX
    &&& m.y + m.height <= i32::MAX
}

/// The distance from any monitor's near edge to any monitor's far edge fits
/// in an `i32` — the machine-level bound that makes the span representable.
pub open spec fn spec_span_fits(ms: Seq<Monitor>) -> bool {
    forall|i: int, j: int|
        0 <= i < ms.len() && 0 <= j < ms.len() ==> {
            &&& #[trigger] ms[i].x + ms[i].width - #[trigger] ms[j].x <= i32::MAX
            &&& ms[i].y + ms[i].height - ms[j].y <= i32::MAX
        }
}

/// Every monitor's rectangle lies inside the span.
pub open spec fn spec_span_covers(ms: Seq<Monitor>, s: Span) -> bool {
    forall|i: int|
        0 <= i < ms.len() ==> {
            &&& s.origin_x <= #[trigger] ms[i].x
            &&& ms[i].x + ms[i].width <= s.origin_x + s.width
            &&& s.origin_y <= ms[i].y
            &&& ms[i].y + ms[i].height <= s.origin_y + s.height
        }
}

/// Each edge of the span touches some monitor, so no smaller box covers them
/// all.
pub open spec fn spec_span_tight(ms: Seq<Monitor>, s: Span) -> bool {
    &&& exists|i: int| 0 <= i < ms.len() && s.origin_x == #[trigger] ms[i].x
    &&& exists|i: int| 0 <= i < ms.len() && s.origin_y == #[trigger] ms[i].y
    &&& exists|i: int|
        0 <= i < ms.len() && s.origin_x + s.width == #[trigger] ms[i].x + ms[i].width
    &&& exists|i: int|
        0 <= i < ms.len() && s.origin_y + s.height == #[trigger] ms[i].y + ms[i].height
}

/// The bounding box covering every monitor: origin at the least x and y, far
/// corner at the greatest x+width and y+height.  Fails exactly on an empty
/// list.
pub fn compute_monitor_span(monitors: &Vec<Monitor>) -> (r: Result<Span, NoMonitorsError>)
    requires
        forall|i: int| 0 <= i < monitors@.len() ==> spec_monitor_wf(#[trigger] monitors@[i]),
        spec_span_fits(monitors@),
    ensures
        r is Err <==> monitors@.len() == 0,
        r matches Ok(span) ==> {
            &&& spec_span_covers(monitors@, span)
            &&& spec_span_tight(monitors@, span)
            &&& span.width > 0
            &&& span.height > 0
        },
{
    if monitors.len() == 0 {
        return Err(NoMonitorsError);
    }
    let first = &monitors[0];
    let mut min_x: i32 = first.x;
    let mut min_y: i32 = first.y;
    let mut max_xw: i32 = first.x + first.width;
    let mut max_yh: i32 = first.y + first.height;
    let mut idx: usize = 1;
    while idx < monitors.len()
        invariant
            1 <= idx <= monitors@.len(),
            forall|i: int| 0 <= i < monitors@.len() ==> spec_monitor_wf(#[trigger] monitors@[i]),
            forall|k: int|
                0 <= k < idx ==> {
                    &&& min_x <= #[trigger] monitors@[k].x
                    &&& monitors@[k].x + monitors@[k].width <= max_xw
                    &&& min_y <= monitors@[k].y
                    &&& monitors@[k].y + monitors@[k].height <= max_yh
                },
            exists|k: int| 0 <= k < idx && min_x == #[trigger] monitors@[k].x,
            exists|k: int| 0 <= k < idx && min_y == #[trigger] monitors@[k].y,
            exists|k: int|
                0 <= k < idx && max_xw == #[trigger] monitors@[k].x + monitors@[k].width,
            exists|k: int|
                0 <= k < idx && max_yh == #[trigger] monitors@[k].y + monitors@[k].height,
        decreases monitors@.len() - idx,
    {
        let m = &monitors[idx];
        let xw = m.x + m.width;
        let yh = m.y + m.height;
        if m.x < min_x {
            min_x = m.x;
        }
        if m.y < min_y {
            min_y = m.y;
        }
        if xw > max_xw {
            max_xw = xw;
        }
        if yh > max_yh {
            max_yh = yh;
        }
        idx = idx + 1;
    }
    proof {
        let k1 = choose|k: int|
            0 <= k < monitors@.len() && max_xw == #[trigger] monitors@[k].x + monitors@[k].width;
        let k2 = choose|k: int| 0 <= k < monitors@.len() && min_x == #[trigger] monitors@[k].x;
        assert(monitors@[k1].x + monitors@[k1].width - monitors@[k2].x <= i32::MAX);
        assert(monitors@[k2].x + monitors@[k2].width <= max_xw);
        let k3 = choose|k: int|
            0 <= k < monitors@.len() && max_yh == #[trigger] monitors@[k].y + monitors@[k].height;
        let k4 = choose|k: int| 0 <= k < monitors@.len() && min_y == #[trigger] monitors@[k].y;
        assert(monitors@[k3].y + monitors@[k3].height - monitors@[k4].y <= i32::MAX);
        assert(monitors@[k4].y + monitors@[k4].height <= max_yh);
    }
    let span_width = max_xw - min_x;
    let span_height = max_yh - min_y;
    Ok(
        Span {
            origin_x: min_x,
            origin_y: min_y,
            width: span_width,
            height: span_height,
        },
    )
}

/// One client window as the compositor reports it.  Position and size are
/// absent while the window is still materializing.
pub struct Client {
    pub pid: i32,
    pub address: Option<String>,
    pub at: Option<(i32, i32)>,
    pub size: Option<(i32, i32)>,
}

/// The observed position and size of a window at a point in time.
#[derive(PartialEq, Eq, Structural, Clone, Copy, Debug)]
pub struct Geometry {
    pub x: i32,
    pub y: i32,
    pub width: i32,
    pub height: i32,
}

/// A window's area for the largest-window tie-break; negative or missing
/// dimensions count as zero.
pub open spec fn spec_client_area(c: Client) -> int {
    match c.size {
        Some(s) => (if s.0 > 0 {
            s.0 as int
        } else {
            0
        }) * (if s.1 > 0 {
            s.1 as int
        } else {
            0
        }),
        None => 0,
    }
}

fn client_area(c: &Client) -> (r: i64)
    ensures
        r == spec_client_area(*c),
{
    match c.size {
        Some(s) => {
            let w: i64 = if s.0 > 0 {
                s.0 as i64
            } else {
                0
            };
            let h: i64 = if s.1 > 0 {
                s.1 as i64
            } else {
                0
            };
            proof {
                assert(w * h <= 0x7fff_ffff * 0x7fff_ffff && w * h >= 0) by (nonlinear_arith)
                    requires
                        0 <= w < 0x8000_0000,
                        0 <= h < 0x8000_0000,
                ;
            }
            w * h
        },
        None => 0,
    }
}

/// Whether any reported client belongs to the given process — the condition
/// the startup poll waits for.
pub fn clients_contain_pid(clients: &Vec<Client>, pid: u32) -> (r: bool)
    requires
        pid <= i32::MAX as u32,
    ensures
        r == exists|i: int| 0 <= i < clients@.len() && #[trigger] clients@[i].pid == pid as i32,
{
    let target: i32 = pid as i32;
    let mut idx: usize = 0;
    while idx < clients.len()
        invariant
            0 <= idx <= clients@.len(),
            target == pid as i32,
            forall|i: int| 0 <= i < idx ==> #[trigger] clients@[i].pid != pid as i32,
        decreases clients@.len() - idx,
    {
        if clients[idx].pid == target {
            return true;
        }
        idx = idx + 1;
    }
    false
}

/// Position `i` holds the client treated as the process's primary window:
/// its pid matches, no matching client has a greater area, and no later
/// matching client ties it.
pub open spec fn spec_is_primary(cs: Seq<Client>, pid: int, i: int) -> bool {
    &&& 0 <= i < cs.len()
    &&& cs[i].pid == pid
    &&& forall|j: int|
        0 <= j < cs.len() && #[trigger] cs[j].pid == pid ==> spec_client_area(cs[j])
            <= spec_client_area(cs[i])
    &&& forall|j: int|
        i < j < cs.len() && #[trigger] cs[j].pid == pid ==> spec_client_area(cs[j])
            < spec_client_area(cs[i])
}

/// The one window treated as the session's surface: among the clients of the
/// given process, the last one of greatest area — helper and splash windows
/// are smaller than the spanned surface.
pub fn primary_client_for_pid<'a>(clients: &'a Vec<Client>, pid: u32) -> (r: Option<&'a Client>)
    requires
        pid <= i32::MAX as u32,
    ensures
        r is Some <==> exists|i: int| 0 <= i < clients@.len() && #[trigger] clients@[i].pid
            == pid as i32,
        r matches Some(c) ==> exists|i: int|
            spec_is_primary(clients@, pid as int, i) && #[trigger] clients@[i] == *c,
{
    let target: i32 = pid as i32;
    let mut best: Option<usize> = None;
    let mut best_area: i64 = 0;
    let mut idx: usize = 0;
    while idx < clients.len()
        invariant
            0 <= idx <= clients@.len(),
            target == pid as i32,
            best is None ==> forall|i: int| 0 <= i < idx ==> #[trigger] clients@[i].pid
                != pid as i32,
            best matches Some(b) ==> {
                &&& 0 <= b < idx
                &&& clients@[b as int].pid == pid as i32
                &&& best_area == spec_client_area(clients@[b as int])
                &&& forall|j: int|
                    0 <= j < idx && #[trigger] clients@[j].pid == pid as i32 ==> spec_client_area(
                        clients@[j],
                    ) <= best_area
                &&& forall|j: int|
                    b < j < idx && #[trigger] clients@[j].pid == pid as i32 ==> spec_client_area(
                        clients@[j],
                    ) < best_area
            },
        decreases clients@.len() - idx,
    {
        if clients[idx].pid == target {
            let area = client_area(&clients[idx]);
            match best {
                None => {
                    best = Some(idx);
                    best_area = area;
                },
                Some(_) => {
                    if area >= best_area {
                        best = Some(idx);
                        best_area = area;
                    }
                },
            }
        }
        idx = idx + 1;
    }
    match best {
        None => None,
        Some(b) => Some(&clients[b]),
    }
}

/// The primary window's observed geometry, once both its position and size
/// are reported; `None` while the window is still materializing or absent.
pub fn client_geometry(clients: &Vec<Client>, pid: u32) -> (r: Option<Geometry>)
    requires
        pid <= i32::MAX as u32,
    ensures
        r matches Some(g) ==> exists|i: int|
            {
                &&& #[trigger] spec_is_primary(clients@, pid as int, i)
                &&& clients@[i].at == Some((g.x, g.y))
                &&& clients@[i].size == Some((g.width, g.height))
            },
        r is None ==> forall|i: int|
            #[trigger] spec_is_primary(clients@, pid as int, i) ==> clients@[i].at is None
                || clients@[i].size is None,
{
    match primary_client_for_pid(clients, pid) {
        None => None,
        Some(c) => {
            match (c.at, c.size) {
                (Some(at), Some(size)) => Some(
                    Geometry { x: at.0, y: at.1, width: size.0, height: size.1 },
                ),
                _ => None,
            }
        },
    }
}

/// Two positions cannot both hold the primary window: the later one would
/// need a strictly smaller and a no-smaller area at once.
pub proof fn lemma_primary_unique(cs: Seq<Client>, pid: int, i: int, j: int)
    requires
        spec_is_primary(cs, pid, i),
        spec_is_primary(cs, pid, j),
    ensures
        i == j,
{
    if i < j {
        assert(spec_client_area(cs[j]) < spec_client_area(cs[i]));
        assert(spec_client_area(cs[i]) <= spec_client_area(cs[j]));
    }
    if j < i {
        assert(spec_client_area(cs[i]) < spec_client_area(cs[j]));
        assert(spec_client_area(cs[j]) <= spec_client_area(cs[i]));
    }
}

/// The selector under which the session's window is addressed in every
/// dispatched command: the primary window's stable address when it has one,
/// else the process id.
pub fn primary_window_selector(clients: &Vec<Client>, pid: u32) -> (r: String)
    requires
        pid <= i32::MAX as u32,
    ensures
        forall|i: int|
            #[trigger] spec_is_primary(clients@, pid as int, i) ==> (match clients@[i].address {
                Some(a) => r@ == "address:"@ + a@,
                None => r@ == "pid:"@ + spec_udec(pid as int),
            }),
        (forall|i: int| 0 <= i < clients@.len() ==> #[trigger] clients@[i].pid != pid as i32)
            ==> r@ == "pid:"@ + spec_udec(pid as int),
{
    match primary_client_for_pid(clients, pid) {
        Some(c) => {
            match &c.address {
                Some(a) => {
                    let mut s = String::from_str("address:");
                    s.append(a.as_str());
                    proof {
                        let i = choose|i: int|
                            spec_is_primary(clients@, pid as int, i) && #[trigger] clients@[i]
                                == *c;
                        assert forall|j: int| #[trigger]
                            spec_is_primary(clients@, pid as int, j) implies clients@[j] == *c by {
                            lemma_primary_unique(clients@, pid as int, i, j);
                        }
                    }
                    s
                },
                None => {
                    proof {
                        let i = choose|i: int|
                            spec_is_primary(clients@, pid as int, i) && #[trigger] clients@[i]
                                == *c;
                        assert forall|j: int| #[trigger]
                            spec_is_primary(clients@, pid as int, j) implies clients@[j] == *c by {
                            lemma_primary_unique(clients@, pid as int, i, j);
                        }
                    }
                    pid_selector(pid)
                },
            }
        },
        None => pid_selector(pid),
    }
}

fn pid_selector(pid: u32) -> (r: String)
    ensures
        r@ == "pid:"@ + spec_udec(pid as int),
{
    let mut s = String::from_str("pid:");
    let digits = u64_dec_str(pid as u64);
    s.append(digits.as_str());
    s
}

/// A bind-table token with every white-space character removed and the rest
/// lowercased, so that `SUPER SHIFT, F12` and `supershift,f12` compare equal.
pub open spec fn spec_normalize_bind(s: Seq<char>) -> Seq<char> {
    lower_of(s.filter(|c: char| !is_white(c)))
}

pub fn normalize_bind_token(value: &str) -> (r: String)
    ensures
        r@ == spec_normalize_bind(value@),
{
    let n = value.unicode_len();
    let mut kept = String::new();
    let mut i: usize = 0;
    while i < n
        invariant
            0 <= i <= n,
            n == value@.len(),
            kept@ == value@.subrange(0, i as int).filter(|c: char| !is_white(c)),
        decreases n - i,
    {
        let ghost prefix = value@.subrange(0, i as int);
        let c = value.get_char(i);
        if !char_is_whitespace(c) {
            let piece = value.substring_char(i, i + 1);
            kept.append(piece);
        }
        proof {
            reveal(Seq::filter);
            assert(value@.subrange(0, i + 1).drop_last() =~= prefix);
            assert(value@.subrange(0, i + 1).last() == value@[i as int]);
            if !is_white(value@[i as int]) {
                assert(prefix.filter(|c: char| !is_white(c)) + value@.subrange(i as int, i + 1)
                    =~= value@.subrange(0, i + 1).filter(|c: char| !is_white(c)));
            }
        }
        i = i + 1;
    }
    proof {
        assert(value@.subrange(0, n as int) =~= value@);
    }
    lowercase_str(kept.as_str())
}

/// `[a, b)` delimits one line of `s`: it abuts the start of the text or a
/// newline, runs to the end of the text or the next newline, and holds no
/// newline itself.
pub open spec fn spec_is_line_extent(s: Seq<char>, a: int, b: int) -> bool {
    &&& 0 <= a <= b <= s.len()
    &&& (a == 0 || s[a - 1] == '\n')
    &&& (b == s.len() || s[b] == '\n')
    &&& forall|t: int| a <= t < b ==> s[t] != '\n'
}

/// The token looked up in the bind table for a modifier set and key.
pub open spec fn spec_bind_needle(mods: Seq<char>, key: Seq<char>) -> Seq<char> {
    spec_normalize_bind(mods + seq![','] + key)
}

/// Whether some line of the bind-table listing, once normalized, contains the
/// normalized `mods,key` token.
pub open spec fn spec_bind_exists(binds: Seq<char>, mods: Seq<char>, key: Seq<char>) -> bool {
    exists|a: int, b: int|
        #[trigger] spec_is_line_extent(binds, a, b) && spec_contains(
            spec_normalize_bind(binds.subrange(a, b)),
            spec_bind_needle(mods, key),
        )
}

/// Searches the compositor's bind-table listing for an existing binding of
/// the given modifiers and key, comparing tokens with white space removed and
/// case folded, line by line.
pub fn bind_exists(binds_output: &str, mods: &str, key: &str) -> (r: bool)
    requires
        binds_output@.len() < usize::MAX,
    ensures
        r == spec_bind_exists(binds_output@, mods@, key@),
{
    proof {
        reveal_strlit(",");
    }
    let mut joined = String::from_str(mods);
    joined.append(",");
    joined.append(key);
    proof {
        assert(joined@ =~= mods@ + seq![','] + key@);
    }
    let needle = normalize_bind_token(joined.as_str());

    let n = binds_output.unicode_len();
    let mut start: usize = 0;
    let mut k: usize = 0;
    while k <= n
        invariant
            0 <= start <= k <= n + 1,
            n < usize::MAX,
            k == n + 1 ==> start == n + 1,
            n == binds_output@.len(),
            needle@ == spec_bind_needle(mods@, key@),
            start == 0 || start > n || binds_output@[start as int - 1] == '\n',
            forall|t: int| start <= t < k && t < n ==> binds_output@[t] != '\n',
            forall|a: int, b: int|
                #[trigger] spec_is_line_extent(binds_output@, a, b) && b < start ==> !spec_contains(
                    spec_normalize_bind(binds_output@.subrange(a, b)),
                    spec_bind_needle(mods@, key@),
                ),
        decreases n + 1 - k,
    {
        let at_boundary: bool = if k == n {
            true
        } else {
            binds_output.get_char(k) == '\n'
        };
        if at_boundary {
            let line = binds_output.substring_char(start, k);
            let norm = normalize_bind_token(line);
            proof {
                assert(spec_is_line_extent(binds_output@, start as int, k as int));
            }
            if contains_str(norm.as_str(), needle.as_str()) {
                return true;
            }
            proof {
                assert forall|a: int, b: int|
                    #[trigger] spec_is_line_extent(binds_output@, a, b) && b < k + 1 implies
                    !spec_contains(
                        spec_normalize_bind(binds_output@.subrange(a, b)),
                        spec_bind_needle(mods@, key@),
                    ) by {
                    if b >= start {
                        assert(b == k) by {
                            if b < k {
                                assert(binds_output@[b] != '\n');
                            }
                        }
                        assert(a == start) by {
                            if a < start {
                                assert(binds_output@[start as int - 1] == '\n');
                                assert(a <= start - 1 < b);
                            }
                            if a > start {
                                assert(binds_output@[a - 1] == '\n');
                                assert(start <= a - 1 < k);
                            }
                        }
                    }
                }
            }
            start = k + 1;
        }
        k = k + 1;
    }
    false
}

} // verus!
