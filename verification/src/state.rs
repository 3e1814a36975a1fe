//! Classification of `sv status` output lines.
//!
//! A status line is matched against three mutually exclusive grammars,
//! distinguished by their fixed prefixes:
//!
//! ```text
//! run: NAME: (pid PID) UPTIMEs ...
//! down: NAME: SINCEs ...          ("normally up" may follow the since field)
//! fail: NAME: (pid PID) UPTIMEs, exit CODE ...
//! ```
//!
//! Tokens are separated by one or more spaces; the name is everything up to
//! the first colon after the prefix and must be non-empty. A line that
//! matches none of the grammars, or any of whose captured numbers does not
//! fit its integer type, degrades to `Unknown` carrying the trimmed first
//! line; classification never fails.
use vstd::prelude::*;

use crate::text::contains_at_or_after;
use crate::text::contains_from;
use crate::text::digits_val;
use crate::text::digits_value_u64;
use crate::text::end_of_digits;
use crate::text::find_char;
use crate::text::first_line_trimmed;
use crate::text::lemma_end_of_digits_bounds;
use crate::text::lemma_rskip_ws_bounds;
use crate::text::lemma_skip_ws_bounds;
use crate::text::rskip_ws;
use crate::text::scan_digits;
use crate::text::scan_spaces;
use crate::text::scan_to_char;
use crate::text::skip_spaces;
use crate::text::space_char;
use crate::text::skip_ws;

verus! {

/// High-level state of a runit service instance.
#[derive(Debug, Clone)]
pub enum ServiceRuntimeState {
    Running { pid: u32, uptime_seconds: u64 },
    Down { since_seconds: u64, normally_up: bool },
    Failed { pid: u32, uptime_seconds: u64, exit_code: i32 },
    Unknown { raw: String },
}

/// Mathematical model of a runtime state; `Unknown` carries the character
/// sequence of the preserved line.
pub enum StateView {
    Running { pid: u32, uptime_seconds: u64 },
    Down { since_seconds: u64, normally_up: bool },
    Failed { pid: u32, uptime_seconds: u64, exit_code: i32 },
    Unknown { raw: Seq<char> },
}

impl View for ServiceRuntimeState {
    type V = StateView;

    open spec fn view(&self) -> StateView {
        match self {
            ServiceRuntimeState::Running { pid, uptime_seconds } => StateView::Running {
                pid: *pid,
                uptime_seconds: *uptime_seconds,
            },
            ServiceRuntimeState::Down { since_seconds, normally_up } => StateView::Down {
                since_seconds: *since_seconds,
                normally_up: *normally_up,
            },
            ServiceRuntimeState::Failed { pid, uptime_seconds, exit_code } => StateView::Failed {
                pid: *pid,
                uptime_seconds: *uptime_seconds,
                exit_code: *exit_code,
            },
            ServiceRuntimeState::Unknown { raw } => StateView::Unknown { raw: raw@ },
        }
    }
}

/// After a grammar's prefix of length `plen`: one space, then a non-empty
/// name containing no colon, then the colon that ends it. Returns the index
/// of that colon.
pub open spec fn name_end(t: Seq<char>, plen: int) -> Option<int> {
    if plen < t.len() && t[plen] == ' ' {
        let j = find_char(t, plen + 1, ':');
        if plen + 2 <= j < t.len() {
            Some(j)
        } else {
            None
        }
    } else {
        None
    }
}

/// The `(pid PID) UPTIMEs` tail shared by the run and fail grammars,
/// starting at `i` with at least one leading space. Returns the pid value,
/// the uptime value and the index of the terminating `s`.
pub open spec fn parse_pid_uptime(t: Seq<char>, i: int) -> Option<(nat, nat, int)> {
    let a = skip_spaces(t, i);
    if a == i || a + 4 > t.len() || t[a] != '(' || t[a + 1] != 'p' || t[a + 2] != 'i' || t[a + 3]
        != 'd' {
        None
    } else {
        let b = skip_spaces(t, a + 4);
        let d1 = end_of_digits(t, b);
        if b == a + 4 || d1 == b || d1 >= t.len() || t[d1] != ')' {
            None
        } else {
            let c1 = skip_spaces(t, d1 + 1);
            let d2 = end_of_digits(t, c1);
            if c1 == d1 + 1 || d2 == c1 || d2 >= t.len() || t[d2] != 's' {
                None
            } else {
                Some(
                    (digits_val(t.subrange(b, d1)), digits_val(t.subrange(c1, d2)), d2),
                )
            }
        }
    }
}

/// Fields of a line in the run grammar: pid and uptime values.
pub open spec fn run_line_fields(t: Seq<char>) -> Option<(nat, nat)> {
    if t.len() >= 4 && t[0] == 'r' && t[1] == 'u' && t[2] == 'n' && t[3] == ':' {
        match name_end(t, 4) {
            Some(j) => match parse_pid_uptime(t, j + 1) {
                Some(f) => Some((f.0, f.1)),
                None => None,
            },
            None => None,
        }
    } else {
        None
    }
}

/// Fields of a line in the down grammar: seconds since the service went
/// down (no match when the digit run does not fit a `u64`), and whether
/// the literal `normally up` occurs after the since field.
pub open spec fn down_line_fields(t: Seq<char>) -> Option<(u64, bool)> {
    if t.len() >= 5 && t[0] == 'd' && t[1] == 'o' && t[2] == 'w' && t[3] == 'n' && t[4] == ':' {
        match name_end(t, 5) {
            Some(j) => {
                let c = skip_spaces(t, j + 1);
                let d = end_of_digits(t, c);
                if c > j + 1 && d > c && d < t.len() && t[d] == 's' {
                    let v = digits_val(t.subrange(c, d));
                    if v <= u64::MAX {
                        Some((v as u64, contains_from(t, d + 1, "normally up"@)))
                    } else {
                        None
                    }
                } else {
                    None
                }
            },
            None => None,
        }
    } else {
        None
    }
}

/// Exit code of the fail grammar: the digit run's value with its optional
/// sign, or nothing when it does not fit an `i32`.
pub open spec fn exit_value(neg: bool, v: nat) -> Option<int> {
    if neg {
        if v <= 0x8000_0000 {
            Some(-(v as int))
        } else {
            None
        }
    } else {
        if v <= 0x7fff_ffff {
            Some(v as int)
        } else {
            None
        }
    }
}

/// Fields of a line in the fail grammar: pid, uptime and exit code.
pub open spec fn fail_line_fields(t: Seq<char>) -> Option<(nat, nat, int)> {
    if t.len() >= 5 && t[0] == 'f' && t[1] == 'a' && t[2] == 'i' && t[3] == 'l' && t[4] == ':' {
        match name_end(t, 5) {
            Some(j) => match parse_pid_uptime(t, j + 1) {
                Some(f) => {
                    let k = f.2 + 1;
                    if k >= t.len() || t[k] != ',' {
                        None
                    } else {
                        let e0 = skip_spaces(t, k + 1);
                        if e0 == k + 1 || e0 + 4 > t.len() || t[e0] != 'e' || t[e0 + 1] != 'x'
                            || t[e0 + 2] != 'i' || t[e0 + 3] != 't' {
                            None
                        } else {
                            let e1 = skip_spaces(t, e0 + 4);
                            if e1 == e0 + 4 {
                                None
                            } else {
                                let neg = e1 < t.len() && t[e1] == '-';
                                let ds = if neg {
                                    e1 + 1
                                } else {
                                    e1
                                };
                                let de = end_of_digits(t, ds);
                                if de == ds {
                                    None
                                } else {
                                    match exit_value(neg, digits_val(t.subrange(ds, de))) {
                                        Some(e) => Some((f.0, f.1, e)),
                                        None => None,
                                    }
                                }
                            }
                        }
                    }
                },
                None => None,
            },
            None => None,
        }
    } else {
        None
    }
}

/// What classification returns for a raw `sv status` output: the trimmed
/// first line is matched against the three grammars in order, and anything
/// else (including a matching line whose pid or uptime does not fit its
/// integer type) is `Unknown` carrying that line.
pub open spec fn spec_from_sv_status(raw: Seq<char>) -> StateView {
    let t = first_line_trimmed(raw);
    match run_line_fields(t) {
        Some(f) => if f.0 <= u32::MAX && f.1 <= u64::MAX {
            StateView::Running { pid: f.0 as u32, uptime_seconds: f.1 as u64 }
        } else {
            StateView::Unknown { raw: t }
        },
        None => match down_line_fields(t) {
            Some(f) => StateView::Down { since_seconds: f.0, normally_up: f.1 },
            None => match fail_line_fields(t) {
                Some(f) => if f.0 <= u32::MAX && f.1 <= u64::MAX {
                    StateView::Failed {
                        pid: f.0 as u32,
                        uptime_seconds: f.1 as u64,
                        exit_code: f.2 as i32,
                    }
                } else {
                    StateView::Unknown { raw: t }
                },
                None => StateView::Unknown { raw: t },
            },
        },
    }
}

/// The first line of the raw output, trimmed of surrounding whitespace.
pub fn status_line(s: &str) -> (r: &str)
    ensures
        r@ == first_line_trimmed(s@),
{
    let nl = scan_to_char(s, 0, '\n');
    let mut a: usize = 0;
    while a < nl && space_char(s.get_char(a))
        invariant
            0 <= a <= nl <= s@.len(),
            nl == find_char(s@, 0, '\n'),
            skip_ws(s@, 0, nl as int) == skip_ws(s@, a as int, nl as int),
        decreases nl - a,
    {
        a += 1;
    }
    proof {
        lemma_skip_ws_bounds(s@, a as int, nl as int);
        assert(skip_ws(s@, a as int, nl as int) == a);
    }
    let mut b: usize = nl;
    while b > a && space_char(s.get_char(b - 1))
        invariant
            0 <= a <= b <= nl <= s@.len(),
            rskip_ws(s@, nl as int, a as int) == rskip_ws(s@, b as int, a as int),
        decreases b,
    {
        b -= 1;
    }
    proof {
        lemma_rskip_ws_bounds(s@, b as int, a as int);
        assert(rskip_ws(s@, b as int, a as int) == b);
    }
    s.substring_char(a, b)
}

/// Scan a grammar's name segment: one space at `plen`, then the name up to
/// its closing colon, whose index is returned.
fn scan_name(line: &str, plen: usize) -> (r: Option<usize>)
    requires
        plen <= line@.len(),
    ensures
        match r {
            Some(j) => name_end(line@, plen as int) == Some(j as int),
            None => name_end(line@, plen as int) is None,
        },
{
    let len = line.unicode_len();
    if plen == len || line.get_char(plen) != ' ' {
        return None;
    }
    let j = scan_to_char(line, plen + 1, ':');
    if j == len || j < plen + 2 {
        return None;
    }
    Some(j)
}

/// Scan the `(pid PID) UPTIMEs` tail; `None` either when the grammar does
/// not match or when a matched pid or uptime exceeds `u64::MAX`.
fn scan_pid_uptime(line: &str, i: usize) -> (r: Option<(u64, u64, usize)>)
    requires
        i <= line@.len(),
    ensures
        match r {
            Some(f) => parse_pid_uptime(line@, i as int) == Some(
                (f.0 as nat, f.1 as nat, f.2 as int),
            ),
            None => match parse_pid_uptime(line@, i as int) {
                Some(f) => f.0 > u64::MAX || f.1 > u64::MAX,
                None => true,
            },
        },
{
    let len = line.unicode_len();
    let a = scan_spaces(line, i);
    if a == i || len - a < 4 || line.get_char(a) != '(' || line.get_char(a + 1) != 'p'
        || line.get_char(a + 2) != 'i' || line.get_char(a + 3) != 'd' {
        return None;
    }
    let b = scan_spaces(line, a + 4);
    let d1 = scan_digits(line, b);
    if b == a + 4 || d1 == b || d1 == len || line.get_char(d1) != ')' {
        return None;
    }
    let c1 = scan_spaces(line, d1 + 1);
    let d2 = scan_digits(line, c1);
    if c1 == d1 + 1 || d2 == c1 || d2 == len || line.get_char(d2) != 's' {
        return None;
    }
    proof {
        lemma_end_of_digits_bounds(line@, b as int);
        lemma_end_of_digits_bounds(line@, c1 as int);
    }
    let pid = digits_value_u64(line, b, d1);
    let up = digits_value_u64(line, c1, d2);
    match (pid, up) {
        (Some(p), Some(u)) => Some((p, u, d2)),
        _ => None,
    }
}

/// Match the run grammar; `None` either when it does not match or when the
/// pid or uptime does not fit its integer type.
fn scan_run_line(line: &str) -> (r: Option<(u32, u64)>)
    ensures
        match r {
            Some(f) => run_line_fields(line@) == Some((f.0 as nat, f.1 as nat)),
            None => match run_line_fields(line@) {
                Some(f) => f.0 > u32::MAX || f.1 > u64::MAX,
                None => true,
            },
        },
{
    let len = line.unicode_len();
    if len < 4 || line.get_char(0) != 'r' || line.get_char(1) != 'u' || line.get_char(2) != 'n'
        || line.get_char(3) != ':' {
        return None;
    }
    let j = match scan_name(line, 4) {
        Some(j) => j,
        None => {
            return None;
        },
    };
    match scan_pid_uptime(line, j + 1) {
        Some((pid, up, _)) => {
            if pid <= u32::MAX as u64 {
                Some((pid as u32, up))
            } else {
                None
            }
        },
        None => None,
    }
}

/// Match the down grammar.
fn scan_down_line(line: &str) -> (r: Option<(u64, bool)>)
    ensures
        match r {
            Some(f) => down_line_fields(line@) == Some((f.0, f.1)),
            None => down_line_fields(line@) is None,
        },
{
    let len = line.unicode_len();
    if len < 5 || line.get_char(0) != 'd' || line.get_char(1) != 'o' || line.get_char(2) != 'w'
        || line.get_char(3) != 'n' || line.get_char(4) != ':' {
        return None;
    }
    let j = match scan_name(line, 5) {
        Some(j) => j,
        None => {
            return None;
        },
    };
    let c = scan_spaces(line, j + 1);
    let d = scan_digits(line, c);
    if !(c > j + 1 && d > c && d < len && line.get_char(d) == 's') {
        return None;
    }
    proof {
        lemma_end_of_digits_bounds(line@, c as int);
    }
    let since = match digits_value_u64(line, c, d) {
        Some(v) => v,
        None => {
            return None;
        },
    };
    let normally_up = contains_at_or_after(line, d + 1, "normally up");
    Some((since, normally_up))
}

/// Match the fail grammar; `None` either when it does not match or when the
/// pid or uptime does not fit its integer type.
fn scan_fail_line(line: &str) -> (r: Option<(u32, u64, i32)>)
    ensures
        match r {
            Some(f) => fail_line_fields(line@) == Some((f.0 as nat, f.1 as nat, f.2 as int)),
            None => match fail_line_fields(line@) {
                Some(f) => f.0 > u32::MAX || f.1 > u64::MAX,
                None => true,
            },
        },
{
    let len = line.unicode_len();
    if len < 5 || line.get_char(0) != 'f' || line.get_char(1) != 'a' || line.get_char(2) != 'i'
        || line.get_char(3) != 'l' || line.get_char(4) != ':' {
        return None;
    }
    let j = match scan_name(line, 5) {
        Some(j) => j,
        None => {
            return None;
        },
    };
    let (pid64, up, s_idx) = match scan_pid_uptime(line, j + 1) {
        Some(f) => f,
        None => {
            return None;
        },
    };
    let k = s_idx + 1;
    if k == len || line.get_char(k) != ',' {
        return None;
    }
    let e0 = scan_spaces(line, k + 1);
    if e0 == k + 1 || len - e0 < 4 || line.get_char(e0) != 'e' || line.get_char(e0 + 1) != 'x'
        || line.get_char(e0 + 2) != 'i' || line.get_char(e0 + 3) != 't' {
        return None;
    }
    let e1 = scan_spaces(line, e0 + 4);
    if e1 == e0 + 4 {
        return None;
    }
    let neg = e1 < len && line.get_char(e1) == '-';
    let ds = if neg {
        e1 + 1
    } else {
        e1
    };
    let de = scan_digits(line, ds);
    if de == ds {
        return None;
    }
    proof {
        lemma_end_of_digits_bounds(line@, ds as int);
    }
    let exit: i32 = match digits_value_u64(line, ds, de) {
        Some(v) => {
            if neg {
                if v <= 0x8000_0000 {
                    (-(v as i64)) as i32
                } else {
                    return None;
                }
            } else {
                if v <= 0x7fff_ffff {
                    v as i32
                } else {
                    return None;
                }
            }
        },
        None => {
            return None;
        },
    };
    if pid64 <= u32::MAX as u64 {
        Some((pid64 as u32, up, exit))
    } else {
        None
    }
}

impl ServiceRuntimeState {
    /// Classify the raw output of `sv status`: only the first line is
    /// considered, and a line matching no grammar yields `Unknown` rather
    /// than an error.
    pub fn from_sv_status(status_output: &str) -> (r: ServiceRuntimeState)
        ensures
            r@ == spec_from_sv_status(status_output@),
    {
        let line = status_line(status_output);
        if let Some((pid, uptime_seconds)) = scan_run_line(line) {
            return ServiceRuntimeState::Running { pid, uptime_seconds };
        }
        if let Some((since_seconds, normally_up)) = scan_down_line(line) {
            return ServiceRuntimeState::Down { since_seconds, normally_up };
        }
        if let Some((pid, uptime_seconds, exit_code)) = scan_fail_line(line) {
            return ServiceRuntimeState::Failed { pid, uptime_seconds, exit_code };
        }
        ServiceRuntimeState::Unknown { raw: line.to_owned() }
    }
}

} // verus!
