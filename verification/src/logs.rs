//! svlogd-style log lines and the sliding tail window.
//!
//! A logger line may begin with `@` followed by a 24-character TAI64N stamp
//! and the message; a line without that prefix is all message. A stamp that
//! does not decode is preserved verbatim so nothing is lost.
use vstd::prelude::*;

use crate::tai64n::decode_tai64n;
use crate::tai64n::spec_decode_tai64n;
use crate::text::scan_ws;
use crate::text::skip_ws;

verus! {

/// Structured log entry emitted by a runit service logger. Either both
/// timestamp numbers are present (a decoded stamp), or only the raw stamp
/// (a `@` prefix that did not decode), or none of the three (a plain line).
#[derive(Debug, Clone)]
pub struct ServiceLogEntry {
    pub timestamp_unix: Option<i64>,
    pub timestamp_nanos: Option<u32>,
    pub timestamp_raw: Option<String>,
    pub message: String,
}

/// Mathematical model of a log entry.
pub struct LogEntryView {
    pub timestamp_unix: Option<i64>,
    pub timestamp_nanos: Option<u32>,
    pub timestamp_raw: Option<Seq<char>>,
    pub message: Seq<char>,
}

impl View for ServiceLogEntry {
    type V = LogEntryView;

    open spec fn view(&self) -> LogEntryView {
        LogEntryView {
            timestamp_unix: self.timestamp_unix,
            timestamp_nanos: self.timestamp_nanos,
            timestamp_raw: match self.timestamp_raw {
                Some(s) => Some(s@),
                None => None,
            },
            message: self.message@,
        }
    }
}

/// What parsing a logger line yields: with a `@` prefix and at least 24
/// characters after it, those characters are the stamp and the left-trimmed
/// remainder is the message; the timestamp numbers are present exactly when
/// the stamp decodes to a non-negative second count.
pub open spec fn spec_parse_svlogd_line(line: Seq<char>) -> LogEntryView {
    if line.len() >= 25 && line[0] == '@' {
        let stamp = line.subrange(1, 25);
        let msg = line.subrange(skip_ws(line, 25, line.len() as int), line.len() as int);
        match spec_decode_tai64n(stamp) {
            Some(p) => if p.0 >= 0 {
                LogEntryView {
                    timestamp_unix: Some(p.0 as i64),
                    timestamp_nanos: Some(p.1 as u32),
                    timestamp_raw: Some(stamp),
                    message: msg,
                }
            } else {
                LogEntryView {
                    timestamp_unix: None,
                    timestamp_nanos: None,
                    timestamp_raw: Some(stamp),
                    message: msg,
                }
            },
            None => LogEntryView {
                timestamp_unix: None,
                timestamp_nanos: None,
                timestamp_raw: Some(stamp),
                message: msg,
            },
        }
    } else {
        LogEntryView {
            timestamp_unix: None,
            timestamp_nanos: None,
            timestamp_raw: None,
            message: line,
        }
    }
}

/// Parse one logger line; never fails, a malformed stamp degrades to the
/// raw-stamp form.
pub fn parse_svlogd_line(line: &str) -> (r: ServiceLogEntry)
    ensures
        r@ == spec_parse_svlogd_line(line@),
{
    let len = line.unicode_len();
    if len >= 25 && line.get_char(0) == '@' {
        let stamp = line.substring_char(1, 25);
        let m0 = scan_ws(line, 25, len);
        let message = line.substring_char(m0, len).to_owned();
        match decode_tai64n(stamp) {
            Some((unix, nanos)) => {
                if unix >= 0 {
                    ServiceLogEntry {
                        timestamp_unix: Some(unix),
                        timestamp_nanos: Some(nanos),
                        timestamp_raw: Some(stamp.to_owned()),
                        message,
                    }
                } else {
                    ServiceLogEntry {
                        timestamp_unix: None,
                        timestamp_nanos: None,
                        timestamp_raw: Some(stamp.to_owned()),
                        message,
                    }
                }
            },
            None => ServiceLogEntry {
                timestamp_unix: None,
                timestamp_nanos: None,
                timestamp_raw: Some(stamp.to_owned()),
                message,
            },
        }
    } else {
        ServiceLogEntry {
            timestamp_unix: None,
            timestamp_nanos: None,
            timestamp_raw: None,
            message: line.to_owned(),
        }
    }
}

/// Number of entries a tail of `limit` over `n` lines holds.
pub open spec fn tail_len(limit: nat, n: nat) -> nat {
    if limit <= n {
        limit
    } else {
        n
    }
}

/// Parse the most recent `limit` lines, in file order: the sliding window
/// over the whole file keeps exactly its last `limit` lines.
pub fn tail_entries(lines: &Vec<String>, limit: usize) -> (r: Vec<ServiceLogEntry>)
    ensures
        r@.len() == tail_len(limit as nat, lines@.len()),
        forall|i: int|
            0 <= i < r@.len() ==> r@[i]@ == spec_parse_svlogd_line(
                lines@[lines@.len() - r@.len() + i]@,
            ),
{
    let n = lines.len();
    let start = if limit <= n {
        n - limit
    } else {
        0
    };
    let mut out: Vec<ServiceLogEntry> = Vec::new();
    let mut i = start;
    while i < n
        invariant
            start <= i <= n == lines@.len(),
            start == lines@.len() - tail_len(limit as nat, lines@.len()),
            out@.len() == i - start,
            forall|k: int| 0 <= k < out@.len() ==> out@[k]@ == spec_parse_svlogd_line(
                lines@[start + k]@,
            ),
        decreases n - i,
    {
        let entry = parse_svlogd_line(lines[i].as_str());
        out.push(entry);
        i += 1;
    }
    out
}

} // verus!
