//! Library for observing and controlling runit-supervised services:
//! status-line parsing, TAI64N timestamp decoding, service-name
//! validation, log tailing, and the decision logic of the privileged
//! command daemon and its unprivileged dispatcher.
use vstd::prelude::*;

pub mod daemon;
pub mod decimal;
pub mod describe;
pub mod dispatch;
pub mod error;
pub mod json;
pub mod laws;
pub mod logs;
pub mod manager;
pub mod present;
pub mod state;
pub mod tai64n;
pub mod text;

verus! {

/// What running an external command produced, as plain values: captured
/// output, whether the exit status reported success, and the exit code when
/// there was one (a process ended by a signal has none).
#[derive(Debug, Clone)]
pub struct ProcessResult {
    pub stdout: String,
    pub stderr: String,
    pub success: bool,
    pub exit_code: Option<i32>,
}

/// A service name is accepted iff it is non-empty and every character is an
/// ASCII letter, digit, `-`, `_` or `.`; this is the guard against path
/// traversal and shell-argument injection.
pub open spec fn valid_name_char(c: char) -> bool {
    ('a' <= c && c <= 'z') || ('A' <= c && c <= 'Z') || ('0' <= c && c <= '9') || c == '-'
        || c == '_' || c == '.'
}

pub open spec fn valid_service_name(s: Seq<char>) -> bool {
    s.len() > 0 && forall|i: int| 0 <= i < s.len() ==> valid_name_char(#[trigger] s[i])
}

/// Check a candidate service name character by character.
pub fn is_valid_service_name(s: &str) -> (r: bool)
    ensures
        r == valid_service_name(s@),
{
    let len = s.unicode_len();
    if len == 0 {
        return false;
    }
    let mut i: usize = 0;
    while i < len
        invariant
            len == s@.len(),
            0 <= i <= len,
            forall|j: int| 0 <= j < i ==> valid_name_char(#[trigger] s@[j]),
        decreases len - i,
    {
        let c = s.get_char(i);
        let ok = ('a' <= c && c <= 'z') || ('A' <= c && c <= 'Z') || ('0' <= c && c <= '9') || c
            == '-' || c == '_' || c == '.';
        if !ok {
            return false;
        }
        i += 1;
    }
    true
}

} // verus!
