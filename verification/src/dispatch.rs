//! The unprivileged dispatcher.
//!
//! It decides how the daemon is invoked (optionally through a
//! privilege-escalation wrapper), and how a finished invocation is read:
//! empty output with a successful exit is a protocol violation, empty
//! output with a failing exit surfaces standard error or the exit status,
//! and anything else is parsed as the daemon's one-line JSON response,
//! whose `status` tag decides between the reported message and a failure.
//! The caller launches the process and hands the outcome in.
use vstd::prelude::*;

use crate::ProcessResult;
use crate::decimal::dec_str;
use crate::decimal::dec_str_signed;
use crate::decimal::i64_to_string;
use crate::decimal::u64_to_string;
use crate::json::json_as_array;
use crate::json::json_as_bool;
use crate::json::json_as_i64;
use crate::json::json_as_str;
use crate::json::json_as_u64;
use crate::json::json_get;
use crate::json::json_is_null;
use crate::json::json_parse;
use crate::json::member_str;
use crate::json::opt_member_str;
use crate::json::opt_member_u64;
use crate::json::parsed_json;
use crate::json::value_bool;
use crate::json::value_i64;
use crate::json::value_is_null;
use crate::json::value_items;
use crate::json::value_member;
use crate::json::value_str;
use crate::manager::DesiredState;
use crate::manager::ServiceInfo;
use crate::manager::ServiceInfoView;
use crate::manager::stdout_blank;
use crate::manager::stderr_trimmed;
use crate::state::ServiceRuntimeState;
use crate::state::StateView;
use crate::text::contains_from;
use crate::text::eq_ignore_ascii_case;
use crate::text::has_substring_at;
use crate::text::str_eq;
use crate::text::str_eq_ignore_ascii_case;
use crate::text::trim_in;
use crate::text::trim_spaces;

verus! {

/// A log entry as decoded from the daemon's response.
#[derive(Debug, Clone)]
pub struct LogEntry {
    pub unix_seconds: Option<i64>,
    pub nanos: Option<u32>,
    pub raw: Option<String>,
    pub message: String,
}

/// Mathematical model of a decoded log entry.
pub struct LogView {
    pub unix_seconds: Option<i64>,
    pub nanos: Option<u32>,
    pub raw: Option<Seq<char>>,
    pub message: Seq<char>,
}

impl View for LogEntry {
    type V = LogView;

    open spec fn view(&self) -> LogView {
        LogView {
            unix_seconds: self.unix_seconds,
            nanos: self.nanos,
            raw: match self.raw {
                Some(r) => Some(r@),
                None => None,
            },
            message: self.message@,
        }
    }
}

impl DeepView for LogEntry {
    type V = LogView;

    open spec fn deep_view(&self) -> LogView {
        self.view()
    }
}

/// Mathematical model of a dispatcher: the daemon's path and whether the
/// escalation wrapper is used.
pub struct DispatcherView {
    pub helper_path: Seq<char>,
    pub use_pkexec: bool,
}

/// Invokes the privileged daemon and decodes its responses.
#[derive(Debug, Clone)]
pub struct ActionDispatcher {
    helper_path: String,
    use_pkexec: bool,
}

impl View for ActionDispatcher {
    type V = DispatcherView;

    closed spec fn view(&self) -> DispatcherView {
        DispatcherView { helper_path: self.helper_path@, use_pkexec: self.use_pkexec }
    }
}

/// Whether an override variable's value turns the escalation wrapper off:
/// anything but `0` or a case variant of `false` does.
pub open spec fn spec_use_pkexec(no_pkexec_var: Option<Seq<char>>) -> bool {
    match no_pkexec_var {
        Some(v) => v == "0"@ || eq_ignore_ascii_case(v, "false"@),
        None => true,
    }
}

/// The daemon path the environment selects: the first of the two override
/// variables that is set, else the stock location.
pub open spec fn spec_helper_path(
    path_var: Option<Seq<char>>,
    alt_path_var: Option<Seq<char>>,
) -> Seq<char> {
    match path_var {
        Some(p) => p,
        None => match alt_path_var {
            Some(p) => p,
            None => "/usr/libexec/runkitd"@,
        },
    }
}

impl ActionDispatcher {
    pub fn new(helper_path: &str, use_pkexec: bool) -> (r: ActionDispatcher)
        ensures
            r@.helper_path == helper_path@,
            r@.use_pkexec == use_pkexec,
    {
        ActionDispatcher { helper_path: helper_path.to_owned(), use_pkexec }
    }

    /// Configure from the override variables' observed values: a path
    /// override (first variable wins), and a flag whose value `0` or
    /// `false` (any case) keeps the escalation wrapper on.
    pub fn from_environment(
        path_var: Option<String>,
        alt_path_var: Option<String>,
        no_pkexec_var: Option<String>,
        alt_no_pkexec_var: Option<String>,
    ) -> (r: ActionDispatcher)
        ensures
            r@.helper_path == spec_helper_path(path_var.deep_view(), alt_path_var.deep_view()),
            r@.use_pkexec == spec_use_pkexec(
                match no_pkexec_var {
                    Some(v) => Some(v@),
                    None => alt_no_pkexec_var.deep_view(),
                },
            ),
    {
        let helper_path: String = match path_var {
            Some(p) => p,
            None => match alt_path_var {
                Some(p) => p,
                None => "/usr/libexec/runkitd".to_owned(),
            },
        };
        let flag: Option<String> = match no_pkexec_var {
            Some(v) => Some(v),
            None => alt_no_pkexec_var,
        };
        let use_pkexec = match flag {
            Some(v) => str_eq(v.as_str(), "0") || str_eq_ignore_ascii_case(v.as_str(), "false"),
            None => true,
        };
        ActionDispatcher { helper_path, use_pkexec }
    }

    /// The full command line of one invocation: the wrapper when it is in
    /// use, the daemon, the command, the service if the command takes one,
    /// then any extra arguments.
    pub fn helper_argv(&self, action: &str, service: Option<&str>, extra: &Vec<String>) -> (r: Vec<
        String,
    >)
        ensures
            r.deep_view() == spec_helper_argv(
                self@,
                action@,
                match service {
                    Some(s) => Some(s@),
                    None => None,
                },
                extra.deep_view(),
            ),
    {
        let ghost sv: Option<Seq<char>> = match service {
            Some(s) => Some(s@),
            None => None,
        };
        let mut argv: Vec<String> = Vec::new();
        if self.use_pkexec {
            argv.push("pkexec".to_owned());
        }
        argv.push(self.helper_path.clone());
        argv.push(action.to_owned());
        if let Some(s) = service {
            argv.push(s.to_owned());
        }
        proof {
            assert(argv.deep_view() =~= spec_helper_argv(
                self@,
                action@,
                sv,
                extra.deep_view().take(0),
            ));
        }
        let mut i: usize = 0;
        while i < extra.len()
            invariant
                0 <= i <= extra@.len(),
                argv.deep_view() == spec_helper_argv(self@, action@, sv, extra.deep_view().take(
                    i as int,
                )),
            decreases extra@.len() - i,
        {
            let ghost pre = argv.deep_view();
            argv.push(extra[i].clone());
            proof {
                assert(argv.deep_view() =~= pre.push(extra@[i as int].deep_view()));
                assert(extra.deep_view().take(i + 1 as int) =~= extra.deep_view().take(
                    i as int,
                ).push(extra@[i as int].deep_view()));
                assert(argv.deep_view() =~= spec_helper_argv(
                    self@,
                    action@,
                    sv,
                    extra.deep_view().take(i + 1 as int),
                ));
            }
            i += 1;
        }
        proof {
            assert(extra.deep_view().take(extra@.len() as int) =~= extra.deep_view());
        }
        argv
    }

    /// Ask the daemon to act on a service and read the answer: the reported
    /// message on success, the reported or synthesized failure otherwise.
    pub fn run(&self, action: &str, service: &str, output: &ProcessResult) -> (r: Result<
        String,
        String,
    >)
        ensures
            stdout_blank(*output) && output.success ==> (r matches Err(m) && m@
                == empty_response_message(spec_action_label(action@, Some(service@)))),
            stdout_blank(*output) && !output.success && stderr_trimmed(*output).len() > 0 ==> (r
                matches Err(m) && m@ == stderr_trimmed(*output)),
            stdout_blank(*output) && !output.success && stderr_trimmed(*output).len() == 0 ==> (r
                matches Err(m) && m@ == exited_message(
                spec_action_label(action@, Some(service@)),
                output.exit_code,
            )),
            !stdout_blank(*output) ==> ({
                let s = trim_in(output.stdout@, 0, output.stdout@.len() as int);
                let label = spec_action_label(action@, Some(service@));
                match response_of(s) {
                    ResponseShape::Fields { status, message, data } => (status == "ok"@ ==> (r
                        matches Ok(m) && m@ == (match message {
                        Some(x) => x,
                        None => action@ + " command completed for "@ + service@,
                    }))) && (status != "ok"@ ==> (r matches Err(m) && m@ == (match message {
                        Some(x) => x,
                        None => "runkitd reported failure for "@ + service@,
                    }))),
                    ResponseShape::Malformed { text } => (r matches Err(m) && m@ == (
                    if output.success {
                        parse_failure_message(label, text, s)
                    } else {
                        spec_failure_text(label, *output)
                    })),
                    ResponseShape::Unparsed => (r matches Err(m) && (if output.success {
                        exists|e: Seq<char>| m@ == parse_failure_message(label, e, s)
                    } else {
                        m@ == spec_failure_text(label, *output)
                    })),
                }
            }),
    {
        let response = self.exchange(action, Some(service), output)?;
        interpret_status(action, service, response.status.as_str(), response.message)
    }

    /// Ask the daemon for the service list and decode it.
    pub fn fetch_services(&self, output: &ProcessResult) -> (r: Result<Vec<ServiceInfo>, String>)
        ensures
            stdout_blank(*output) && output.success ==> (r matches Err(m) && m@
                == empty_response_message(spec_action_label("list"@, None))),
            stdout_blank(*output) && !output.success && stderr_trimmed(*output).len() > 0 ==> (r
                matches Err(m) && m@ == stderr_trimmed(*output)),
            stdout_blank(*output) && !output.success && stderr_trimmed(*output).len() == 0 ==> (r
                matches Err(m) && m@ == exited_message(
                spec_action_label("list"@, None),
                output.exit_code,
            )),
            !stdout_blank(*output) ==> ({
                let s = trim_in(output.stdout@, 0, output.stdout@.len() as int);
                let label = spec_action_label("list"@, None);
                match response_of(s) {
                    ResponseShape::Fields { status, message, data } => {
                        &&& (status != "ok"@ ==> (r matches Err(m) && m@ == (match message {
                            Some(x) => x,
                            None => "runkitd failed to enumerate services"@,
                        })))
                        &&& (status == "ok"@ ==> match data {
                            Some(d) => match value_items(d) {
                                Some(items) => match wire_services_of(items) {
                                    Some(views) => r matches Ok(list) && list.deep_view() == views,
                                    None => r matches Err(m) && m@
                                        == "Failed to decode runkitd response: unexpected service data"@,
                                },
                                None => r matches Err(m) && m@
                                    == "Failed to decode runkitd response: unexpected service data"@,
                            },
                            None => r matches Err(m) && m@ == "runkitd returned no service data"@,
                        })
                    },
                    ResponseShape::Malformed { text } => (r matches Err(m) && m@ == (
                    if output.success {
                        parse_failure_message(label, text, s)
                    } else {
                        spec_failure_text(label, *output)
                    })),
                    ResponseShape::Unparsed => (r matches Err(m) && (if output.success {
                        exists|e: Seq<char>| m@ == parse_failure_message(label, e, s)
                    } else {
                        m@ == spec_failure_text(label, *output)
                    })),
                }
            }),
    {
        let response = self.exchange("list", None, output)?;
        if !str_eq(response.status.as_str(), "ok") {
            return Err(
                match response.message {
                    Some(m) => m,
                    None => {
                        let mut m = String::new();
                        m.append("runkitd failed to enumerate services");
                        m
                    },
                },
            );
        }
        let data = match response.data {
            Some(d) => d,
            None => {
                let mut m = String::new();
                m.append("runkitd returned no service data");
                return Err(m);
            },
        };
        match decode_services(&data) {
            Some(services) => Ok(services),
            None => {
                let mut m = String::new();
                m.append("Failed to decode runkitd response: unexpected service data");
                Err(m)
            },
        }
    }

    /// Ask the daemon for a service's log tail and decode it.
    pub fn fetch_logs(&self, service: &str, output: &ProcessResult) -> (r: Result<
        Vec<LogEntry>,
        String,
    >)
        ensures
            stdout_blank(*output) && output.success ==> (r matches Err(m) && m@
                == empty_response_message(spec_action_label("logs"@, Some(service@)))),
            stdout_blank(*output) && !output.success && stderr_trimmed(*output).len() > 0 ==> (r
                matches Err(m) && m@ == stderr_trimmed(*output)),
            stdout_blank(*output) && !output.success && stderr_trimmed(*output).len() == 0 ==> (r
                matches Err(m) && m@ == exited_message(
                spec_action_label("logs"@, Some(service@)),
                output.exit_code,
            )),
            !stdout_blank(*output) ==> ({
                let s = trim_in(output.stdout@, 0, output.stdout@.len() as int);
                let label = spec_action_label("logs"@, Some(service@));
                match response_of(s) {
                    ResponseShape::Fields { status, message, data } => {
                        &&& (status != "ok"@ ==> (r matches Err(m) && m@ == (match message {
                            Some(x) => x,
                            None => "runkitd failed to stream logs for "@ + service@,
                        })))
                        &&& (status == "ok"@ ==> match data {
                            Some(d) => match value_items(d) {
                                Some(items) => match wire_logs_of(items) {
                                    Some(views) => r matches Ok(list) && list.deep_view() == views,
                                    None => r matches Err(m) && m@
                                        == "Failed to decode runkitd logs response: unexpected log data"@,
                                },
                                None => r matches Err(m) && m@
                                    == "Failed to decode runkitd logs response: unexpected log data"@,
                            },
                            None => r matches Err(m) && m@ == "runkitd returned no log data"@,
                        })
                    },
                    ResponseShape::Malformed { text } => (r matches Err(m) && m@ == (
                    if output.success {
                        parse_failure_message(label, text, s)
                    } else {
                        spec_failure_text(label, *output)
                    })),
                    ResponseShape::Unparsed => (r matches Err(m) && (if output.success {
                        exists|e: Seq<char>| m@ == parse_failure_message(label, e, s)
                    } else {
                        m@ == spec_failure_text(label, *output)
                    })),
                }
            }),
    {
        let response = self.exchange("logs", Some(service), output)?;
        if !str_eq(response.status.as_str(), "ok") {
            return Err(
                match response.message {
                    Some(m) => m,
                    None => {
                        let mut m = String::new();
                        m.append("runkitd failed to stream logs for ");
                        m.append(service);
                        m
                    },
                },
            );
        }
        let data = match response.data {
            Some(d) => d,
            None => {
                let mut m = String::new();
                m.append("runkitd returned no log data");
                return Err(m);
            },
        };
        match decode_log_entries(&data) {
            Some(entries) => Ok(entries),
            None => {
                let mut m = String::new();
                m.append("Failed to decode runkitd logs response: unexpected log data");
                Err(m)
            },
        }
    }

    /// Read one finished invocation into the daemon's response shape, or
    /// the failure to report instead.
    #[verifier::spinoff_prover]
    #[verifier::rlimit(100)]
    fn exchange(&self, action: &str, service: Option<&str>, output: &ProcessResult) -> (r: Result<
        WireResponse,
        String,
    >)
        ensures
            ({
                let label = spec_action_label(
                    action@,
                    match service {
                        Some(s) => Some(s@),
                        None => None,
                    },
                );
                &&& (stdout_blank(*output) && output.success ==> (r matches Err(m) && m@
                    == empty_response_message(label)))
                &&& (stdout_blank(*output) && !output.success && stderr_trimmed(*output).len() > 0
                    ==> (r matches Err(m) && m@ == stderr_trimmed(*output)))
                &&& (stdout_blank(*output) && !output.success && stderr_trimmed(*output).len() == 0
                    ==> (r matches Err(m) && m@ == exited_message(label, output.exit_code)))
                &&& (!stdout_blank(*output) ==> read_outcome(
                    r,
                    label,
                    trim_in(output.stdout@, 0, output.stdout@.len() as int),
                    *output,
                ))
            }),
    {
        let ghost label = spec_action_label(
            action@,
            match service {
                Some(x) => Some(x@),
                None => None,
            },
        );
        let trimmed = trim_spaces(output.stdout.as_str());
        if trimmed.is_empty() {
            if output.success {
                let mut m = String::new();
                m.append("runkitd returned an ");
                m.append("empty response");
                m.append(" for ");
                m.append(action);
                if let Some(s) = service {
                    m.append(" ");
                    m.append(s);
                }
                proof {
                    assert(m@ =~= empty_response_message(label));
                }
                return Err(m);
            }
            return Err(failure_text(action, service, output));
        }
        match read_response(trimmed) {
            Ok(response) => {
                proof {
                    assert(read_outcome(
                        Result::<WireResponse, String>::Ok(response),
                        label,
                        trimmed@,
                        *output,
                    ));
                }
                Ok(response)
            },
            Err(parse_err) => {
                if output.success {
                    let mut m = String::new();
                    m.append("Failed to parse runkitd response for ");
                    m.append(action);
                    if let Some(s) = service {
                        m.append(" ");
                        m.append(s);
                    }
                    m.append(": ");
                    m.append(parse_err.as_str());
                    m.append(" (raw: ");
                    m.append(trimmed);
                    m.append(")");
                    proof {
                        assert(m@ == parse_failure_message(label, parse_err@, trimmed@));
                        assert(read_outcome(
                            Result::<WireResponse, String>::Err(m),
                            label,
                            trimmed@,
                            *output,
                        ));
                    }
                    Err(m)
                } else {
                    let m = failure_text(action, service, output);
                    proof {
                        assert(read_outcome(
                            Result::<WireResponse, String>::Err(m),
                            label,
                            trimmed@,
                            *output,
                        ));
                    }
                    Err(m)
                }
            },
        }
    }
}

/// The command line's human label: the command, with its service if any.
pub open spec fn spec_action_label(action: Seq<char>, service: Option<Seq<char>>) -> Seq<char> {
    match service {
        Some(s) => action + " "@ + s,
        None => action,
    }
}

/// The message for an empty response on a successful exit — the protocol
/// violation case.
pub open spec fn empty_response_message(label: Seq<char>) -> Seq<char> {
    "runkitd returned an "@ + "empty response"@ + " for "@ + label
}

/// However the command was labelled, the protocol-violation message names
/// the violation: it contains the literal `empty response`.
pub proof fn lemma_empty_response_message_names_the_violation(label: Seq<char>)
    ensures
        contains_from(empty_response_message(label), 0, "empty response"@),
{
    reveal_strlit("runkitd returned an ");
    reveal_strlit("empty response");
    reveal_strlit(" for ");
    let m = empty_response_message(label);
    assert("runkitd returned an "@.len() == 20);
    assert("empty response"@.len() == 14);
    assert forall|i: int| 0 <= i < 14 implies m[20 + i] == "empty response"@[i] by {
        assert(("runkitd returned an "@ + "empty response"@)[20 + i] == "empty response"@[i]);
    }
    assert(m.subrange(20, 34) =~= "empty response"@);
    assert(has_substring_at(m, 20, "empty response"@));
}

/// The message for an empty response on a failing exit with nothing on
/// standard error.
pub open spec fn exited_message(label: Seq<char>, code: Option<i32>) -> Seq<char> {
    "runkitd exited with status "@ + dec_str_signed(
        match code {
            Some(c) => c as int,
            None => -1,
        },
    ) + " for "@ + label
}

/// The full command line an invocation uses.
pub open spec fn spec_helper_argv(
    d: DispatcherView,
    action: Seq<char>,
    service: Option<Seq<char>>,
    extra: Seq<Seq<char>>,
) -> Seq<Seq<char>> {
    (if d.use_pkexec {
        seq!["pkexec"@, d.helper_path]
    } else {
        seq![d.helper_path]
    }) + seq![action] + (match service {
        Some(s) => seq![s],
        None => Seq::empty(),
    }) + extra
}

/// The extra arguments of a `logs` invocation: at least one line is always
/// requested.
pub fn logs_args(lines: usize) -> (r: Vec<String>)
    ensures
        r.deep_view() =~= seq![
            "--lines"@,
            dec_str(if lines > 0 {
                lines as nat
            } else {
                1
            }),
        ],
{
    let n: usize = if lines > 0 {
        lines
    } else {
        1
    };
    let mut argv: Vec<String> = Vec::new();
    argv.push("--lines".to_owned());
    argv.push(u64_to_string(n as u64));
    argv
}

/// The message reported when a response could not be parsed on a
/// successful exit: the parse complaint, with the raw line for diagnosis.
pub open spec fn parse_failure_message(label: Seq<char>, err: Seq<char>, raw: Seq<char>) -> Seq<
    char,
> {
    "Failed to parse runkitd response for "@ + label + ": "@ + err + " (raw: "@ + raw + ")"@
}

/// The failure reported for a non-zero exit with no readable response:
/// standard error if it says anything, else the exit status.
pub open spec fn spec_failure_text(label: Seq<char>, output: ProcessResult) -> Seq<char> {
    if stderr_trimmed(output).len() > 0 {
        stderr_trimmed(output)
    } else {
        exited_message(label, output.exit_code)
    }
}

/// The failure text when the daemon exited non-zero and no response could
/// be read.
fn failure_text(action: &str, service: Option<&str>, output: &ProcessResult) -> (r: String)
    ensures
        r@ == spec_failure_text(
            spec_action_label(
                action@,
                match service {
                    Some(s) => Some(s@),
                    None => None,
                },
            ),
            *output,
        ),
{
    let stderr = trim_spaces(output.stderr.as_str());
    if !stderr.is_empty() {
        return stderr.to_owned();
    }
    let mut m = String::new();
    m.append("runkitd exited with status ");
    let code: i64 = match output.exit_code {
        Some(c) => c as i64,
        None => -1,
    };
    let digits = i64_to_string(code);
    m.append(digits.as_str());
    m.append(" for ");
    m.append(action);
    if let Some(s) = service {
        m.append(" ");
        m.append(s);
    }
    m
}

/// How a response's status tag is read: the literal `ok` means success and
/// the reported message (or a stock completion note) is returned; any other
/// tag is a reported failure carrying the message (or a stock failure
/// note).
pub fn interpret_status(action: &str, service: &str, status: &str, message: Option<String>) -> (r:
    Result<String, String>)
    ensures
        status@ == "ok"@ ==> (r matches Ok(m) && m@ == (match message {
            Some(x) => x@,
            None => action@ + " command completed for "@ + service@,
        })),
        status@ != "ok"@ ==> (r matches Err(m) && m@ == (match message {
            Some(x) => x@,
            None => "runkitd reported failure for "@ + service@,
        })),
{
    if str_eq(status, "ok") {
        Ok(
            match message {
                Some(x) => x,
                None => {
                    let mut m = String::new();
                    m.append(action);
                    m.append(" command completed for ");
                    m.append(service);
                    m
                },
            },
        )
    } else {
        Err(
            match message {
                Some(x) => x,
                None => {
                    let mut m = String::new();
                    m.append("runkitd reported failure for ");
                    m.append(service);
                    m
                },
            },
        )
    }
}

/// The daemon's response shape: a status tag, an optional message, and the
/// command's data when there is any.
/// How a finished invocation with output on standard out must have been
/// read: the parsed response's fields verbatim, or (on a parse or shape
/// failure) the synthesized error — the parse complaint with the raw line
/// when the exit was successful, standard error or the exit status when it
/// was not.
spec fn read_outcome(
    r: Result<WireResponse, String>,
    label: Seq<char>,
    s: Seq<char>,
    output: ProcessResult,
) -> bool {
    match response_of(s) {
        ResponseShape::Fields { status, message, data } => (r matches Ok(w) && w.status@ == status
            && w.message.deep_view() == message && w.data == data),
        ResponseShape::Malformed { text } => (r matches Err(m) && m@ == (if output.success {
            parse_failure_message(label, text, s)
        } else {
            spec_failure_text(label, output)
        })),
        ResponseShape::Unparsed => (r matches Err(m) && (if output.success {
            exists|e: Seq<char>| m@ == parse_failure_message(label, e, s)
        } else {
            m@ == spec_failure_text(label, output)
        })),
    }
}

/// The daemon's response shape: a status tag, an optional message, and the
/// command's data when there is any.
struct WireResponse {
    status: String,
    message: Option<String>,
    data: Option<serde_json::Value>,
}

/// What the daemon's line holds, read through the JSON names: the response
/// fields, a shape this library refuses (with its complaint), or no parse
/// at all.
pub enum ResponseShape {
    Fields { status: Seq<char>, message: Option<Seq<char>>, data: Option<serde_json::Value> },
    Malformed { text: Seq<char> },
    Unparsed,
}

/// How a trimmed line reads as a daemon response.
pub open spec fn response_of(s: Seq<char>) -> ResponseShape {
    match parsed_json(s) {
        Some(v) => match value_member(v, "status"@) {
            Some(sv) => match value_str(sv) {
                Some(tag) => match opt_member_str(v, "message"@) {
                    Some(message) => ResponseShape::Fields {
                        status: tag,
                        message,
                        data: match value_member(v, "data"@) {
                            Some(d) => if value_is_null(d) {
                                None
                            } else {
                                Some(d)
                            },
                            None => None,
                        },
                    },
                    None => ResponseShape::Malformed {
                        text: "response `message` is not a string"@,
                    },
                },
                None => ResponseShape::Malformed { text: "response `status` is not a string"@ },
            },
            None => ResponseShape::Malformed { text: "response has no `status` field"@ },
        },
        None => ResponseShape::Unparsed,
    }
}

/// Read the response object out of the line; a document without the
/// expected shape reads as a parse failure carrying this library's
/// complaint.
fn read_response(s: &str) -> (r: Result<WireResponse, String>)
    ensures
        match response_of(s@) {
            ResponseShape::Fields { status, message, data } => (r matches Ok(w) && w.status@
                == status && w.message.deep_view() == message && w.data == data),
            ResponseShape::Malformed { text } => (r matches Err(e) && e@ == text),
            ResponseShape::Unparsed => r is Err,
        },
{
    let value = match json_parse(s) {
        Ok(v) => v,
        Err(e) => {
            return Err(e);
        },
    };
    let status = match json_get(&value, "status") {
        Some(v) => match json_as_str(v) {
            Some(tag) => tag.to_owned(),
            None => {
                let mut m = String::new();
                m.append("response `status` is not a string");
                return Err(m);
            },
        },
        None => {
            let mut m = String::new();
            m.append("response has no `status` field");
            return Err(m);
        },
    };
    let message = match json_get(&value, "message") {
        Some(v) => {
            if json_is_null(v) {
                None
            } else {
                match json_as_str(v) {
                    Some(text) => Some(text.to_owned()),
                    None => {
                        let mut m = String::new();
                        m.append("response `message` is not a string");
                        return Err(m);
                    },
                }
            }
        },
        None => None,
    };
    let data = match json_get(&value, "data") {
        Some(v) => {
            if json_is_null(v) {
                None
            } else {
                Some(v.clone())
            }
        },
        None => None,
    };
    Ok(WireResponse { status, message, data })
}

/// The desired state a wire tag denotes.
pub open spec fn spec_desired_of(tag: Seq<char>) -> Option<DesiredState> {
    if tag == "auto_start"@ {
        Some(DesiredState::AutoStart)
    } else if tag == "manual"@ {
        Some(DesiredState::Manual)
    } else {
        None
    }
}

/// Map a wire tag to the desired state it denotes.
pub fn desired_state_from_wire(tag: &str) -> (r: Option<DesiredState>)
    ensures
        r == spec_desired_of(tag@),
{
    proof {
        reveal_strlit("auto_start");
        reveal_strlit("manual");
        assert("manual"@.len() == 6);
        assert("auto_start"@.len() == 10);
    }
    if str_eq(tag, "auto_start") {
        Some(DesiredState::AutoStart)
    } else if str_eq(tag, "manual") {
        Some(DesiredState::Manual)
    } else {
        None
    }
}

/// The runtime state the extracted wire fields denote: each tag needs its
/// own fields, with pid and exit code range-checked, and any other tag or
/// a missing field fails the decode.
pub open spec fn spec_state_from_parts(
    tag: Seq<char>,
    pid: Option<u64>,
    uptime_seconds: Option<u64>,
    since_seconds: Option<u64>,
    normally_up: Option<bool>,
    exit_code: Option<i64>,
    raw: Option<Seq<char>>,
) -> Option<StateView> {
    if tag == "running"@ {
        match (pid, uptime_seconds) {
            (Some(p), Some(u)) => if p <= u32::MAX {
                Some(StateView::Running { pid: p as u32, uptime_seconds: u })
            } else {
                None
            },
            _ => None,
        }
    } else if tag == "down"@ {
        match (since_seconds, normally_up) {
            (Some(sec), Some(n)) => Some(StateView::Down { since_seconds: sec, normally_up: n }),
            _ => None,
        }
    } else if tag == "failed"@ {
        match (pid, uptime_seconds, exit_code) {
            (Some(p), Some(u), Some(e)) => if p <= u32::MAX && i32::MIN <= e <= i32::MAX {
                Some(StateView::Failed { pid: p as u32, uptime_seconds: u, exit_code: e as i32 })
            } else {
                None
            },
            _ => None,
        }
    } else if tag == "unknown"@ {
        match raw {
            Some(text) => Some(StateView::Unknown { raw: text }),
            None => None,
        }
    } else {
        None
    }
}

/// Assemble a runtime state from the fields found beside a wire tag.
pub fn state_from_parts(
    tag: &str,
    pid: Option<u64>,
    uptime_seconds: Option<u64>,
    since_seconds: Option<u64>,
    normally_up: Option<bool>,
    exit_code: Option<i64>,
    raw: Option<String>,
) -> (r: Option<ServiceRuntimeState>)
    ensures
        match r {
            Some(st) => spec_state_from_parts(
                tag@,
                pid,
                uptime_seconds,
                since_seconds,
                normally_up,
                exit_code,
                raw.deep_view(),
            ) == Some(st@),
            None => spec_state_from_parts(
                tag@,
                pid,
                uptime_seconds,
                since_seconds,
                normally_up,
                exit_code,
                raw.deep_view(),
            ) is None,
        },
{
    proof {
        reveal_strlit("running");
        reveal_strlit("down");
        reveal_strlit("failed");
        reveal_strlit("unknown");
        assert("running"@.len() == 7);
        assert("down"@.len() == 4);
        assert("failed"@.len() == 6);
        assert("unknown"@.len() == 7);
        assert("running"@[0] == 'r' && "unknown"@[0] == 'u');
    }
    if str_eq(tag, "running") {
        match (pid, uptime_seconds) {
            (Some(p), Some(u)) => {
                if p <= u32::MAX as u64 {
                    Some(ServiceRuntimeState::Running { pid: p as u32, uptime_seconds: u })
                } else {
                    None
                }
            },
            _ => None,
        }
    } else if str_eq(tag, "down") {
        match (since_seconds, normally_up) {
            (Some(sec), Some(n)) => Some(
                ServiceRuntimeState::Down { since_seconds: sec, normally_up: n },
            ),
            _ => None,
        }
    } else if str_eq(tag, "failed") {
        match (pid, uptime_seconds, exit_code) {
            (Some(p), Some(u), Some(e)) => {
                if p <= u32::MAX as u64 && i32::MIN as i64 <= e && e <= i32::MAX as i64 {
                    Some(
                        ServiceRuntimeState::Failed {
                            pid: p as u32,
                            uptime_seconds: u,
                            exit_code: e as i32,
                        },
                    )
                } else {
                    None
                }
            },
            _ => None,
        }
    } else if str_eq(tag, "unknown") {
        match raw {
            Some(text) => Some(ServiceRuntimeState::Unknown { raw: text }),
            None => None,
        }
    } else {
        None
    }
}

/// A string field of a wire object.
fn get_string_field(v: &serde_json::Value, key: &str) -> (r: Option<String>)
    ensures
        match r {
            Some(s) => member_str(*v, key@) == Some(s@),
            None => member_str(*v, key@) is None,
        },
{
    match json_get(v, key) {
        Some(f) => match json_as_str(f) {
            Some(s) => Some(s.to_owned()),
            None => None,
        },
        None => None,
    }
}

/// An optional string field: absent or null reads as nothing, a value of
/// another type fails the decode.
fn get_opt_string_field(v: &serde_json::Value, key: &str) -> (r: Result<Option<String>, ()>)
    ensures
        match r {
            Ok(x) => opt_member_str(*v, key@) == Some(x.deep_view()),
            Err(_) => opt_member_str(*v, key@) is None,
        },
{
    match json_get(v, key) {
        Some(f) => {
            if json_is_null(f) {
                Ok(None)
            } else {
                match json_as_str(f) {
                    Some(s) => Ok(Some(s.to_owned())),
                    None => Err(()),
                }
            }
        },
        None => Ok(None),
    }
}

/// An optional unsigned field, read the same way.
fn get_opt_u64_field(v: &serde_json::Value, key: &str) -> (r: Result<Option<u64>, ()>)
    ensures
        match r {
            Ok(x) => opt_member_u64(*v, key@) == Some(x),
            Err(_) => opt_member_u64(*v, key@) is None,
        },
{
    match json_get(v, key) {
        Some(f) => {
            if json_is_null(f) {
                Ok(None)
            } else {
                match json_as_u64(f) {
                    Some(n) => Ok(Some(n)),
                    None => Err(()),
                }
            }
        },
        None => Ok(None),
    }
}

/// The runtime state a wire object denotes: the tag and every field read
/// cleanly, assembled per tag.
pub open spec fn wire_state_of(v: serde_json::Value) -> Option<StateView> {
    match member_str(v, "state"@) {
        Some(tag) => match (
            opt_member_u64(v, "pid"@),
            opt_member_u64(v, "uptime_seconds"@),
            opt_member_u64(v, "since_seconds"@),
            opt_member_str(v, "raw"@),
        ) {
            (Some(pid), Some(uptime), Some(since), Some(raw)) => spec_state_from_parts(
                tag,
                pid,
                uptime,
                since,
                match value_member(v, "normally_up"@) {
                    Some(f) => value_bool(f),
                    None => None,
                },
                match value_member(v, "exit_code"@) {
                    Some(f) => value_i64(f),
                    None => None,
                },
                raw,
            ),
            _ => None,
        },
        None => None,
    }
}

/// Decode one runtime-state object.
fn decode_runtime_state(v: &serde_json::Value) -> (r: Option<ServiceRuntimeState>)
    ensures
        match r {
            Some(st) => wire_state_of(*v) == Some(st@),
            None => wire_state_of(*v) is None,
        },
{
    let tag = match get_string_field(v, "state") {
        Some(t) => t,
        None => {
            return None;
        },
    };
    let pid = match get_opt_u64_field(v, "pid") {
        Ok(x) => x,
        Err(()) => {
            return None;
        },
    };
    let uptime_seconds = match get_opt_u64_field(v, "uptime_seconds") {
        Ok(x) => x,
        Err(()) => {
            return None;
        },
    };
    let since_seconds = match get_opt_u64_field(v, "since_seconds") {
        Ok(x) => x,
        Err(()) => {
            return None;
        },
    };
    let normally_up = match json_get(v, "normally_up") {
        Some(f) => json_as_bool(f),
        None => None,
    };
    let exit_code = match json_get(v, "exit_code") {
        Some(f) => json_as_i64(f),
        None => None,
    };
    let raw = match get_opt_string_field(v, "raw") {
        Ok(x) => x,
        Err(()) => {
            return None;
        },
    };
    state_from_parts(
        tag.as_str(),
        pid,
        uptime_seconds,
        since_seconds,
        normally_up,
        exit_code,
        raw,
    )
}

/// The service snapshot a wire object denotes: every field read cleanly.
pub open spec fn wire_service_of(v: serde_json::Value) -> Option<ServiceInfoView> {
    match (member_str(v, "name"@), member_str(v, "definition_path"@)) {
        (Some(name), Some(definition_path)) => match (match value_member(v, "enabled"@) {
            Some(f) => value_bool(f),
            None => None,
        }) {
            Some(enabled) => match member_str(v, "desired_state"@) {
                Some(dtag) => match spec_desired_of(dtag) {
                    Some(desired_state) => match value_member(v, "runtime_state"@) {
                        Some(rv) => match wire_state_of(rv) {
                            Some(runtime_state) => match opt_member_str(v, "description"@) {
                                Some(description) => Some(
                                    ServiceInfoView {
                                        name,
                                        definition_path,
                                        enabled,
                                        desired_state,
                                        runtime_state,
                                        description,
                                    },
                                ),
                                None => None,
                            },
                            None => None,
                        },
                        None => None,
                    },
                    None => None,
                },
                None => None,
            },
            None => None,
        },
        _ => None,
    }
}

/// Decode one service snapshot object.
fn decode_service_snapshot(v: &serde_json::Value) -> (r: Option<ServiceInfo>)
    ensures
        match r {
            Some(info) => wire_service_of(*v) == Some(info@),
            None => wire_service_of(*v) is None,
        },
{
    let name = match get_string_field(v, "name") {
        Some(x) => x,
        None => {
            return None;
        },
    };
    let definition_path = match get_string_field(v, "definition_path") {
        Some(x) => x,
        None => {
            return None;
        },
    };
    let enabled = match json_get(v, "enabled") {
        Some(f) => match json_as_bool(f) {
            Some(b) => b,
            None => {
                return None;
            },
        },
        None => {
            return None;
        },
    };
    let desired_tag = match get_string_field(v, "desired_state") {
        Some(x) => x,
        None => {
            return None;
        },
    };
    let desired_state = match desired_state_from_wire(desired_tag.as_str()) {
        Some(d) => d,
        None => {
            return None;
        },
    };
    let runtime_state = match json_get(v, "runtime_state") {
        Some(f) => match decode_runtime_state(f) {
            Some(st) => st,
            None => {
                return None;
            },
        },
        None => {
            return None;
        },
    };
    let description = match get_opt_string_field(v, "description") {
        Ok(x) => x,
        Err(()) => {
            return None;
        },
    };
    Some(ServiceInfo { name, definition_path, enabled, desired_state, runtime_state, description })
}

/// The snapshots a wire array denotes, when every element denotes one.
pub open spec fn wire_services_of(items: Seq<serde_json::Value>) -> Option<Seq<ServiceInfoView>>
    decreases items.len(),
{
    if items.len() == 0 {
        Some(Seq::empty())
    } else {
        match wire_service_of(items[0]) {
            Some(h) => match wire_services_of(items.drop_first()) {
                Some(t) => Some(seq![h] + t),
                None => None,
            },
            None => None,
        }
    }
}

/// Decode the `list` data array, one-to-one and in order.
#[verifier::spinoff_prover]
#[verifier::rlimit(50)]
fn decode_services(v: &serde_json::Value) -> (r: Option<Vec<ServiceInfo>>)
    ensures
        match r {
            Some(out) => value_items(*v) matches Some(items) && wire_services_of(items) == Some(
                out.deep_view(),
            ),
            None => match value_items(*v) {
                Some(items) => wire_services_of(items) is None,
                None => true,
            },
        },
{
    let items = match json_as_array(v) {
        Some(a) => a,
        None => {
            return None;
        },
    };
    let ghost iv = items@;
    let mut out: Vec<ServiceInfo> = Vec::new();
    proof {
        assert(iv.skip(0) =~= iv);
        assert(out.deep_view() =~= Seq::<ServiceInfoView>::empty());
    }
    let mut i: usize = 0;
    while i < items.len()
        invariant
            0 <= i <= iv.len(),
            items@ == iv,
            value_items(*v) == Some(iv),
            out.deep_view().len() == i,
            match wire_services_of(iv.skip(i as int)) {
                Some(t) => wire_services_of(iv) == Some(out.deep_view() + t),
                None => wire_services_of(iv) is None,
            },
        decreases iv.len() - i,
    {
        proof {
            assert(iv.skip(i as int)[0] == iv[i as int]);
            assert(iv.skip(i as int).drop_first() =~= iv.skip(i + 1 as int));
        }
        match decode_service_snapshot(&items[i]) {
            Some(info) => {
                let ghost pre = out.deep_view();
                out.push(info);
                proof {
                    assert(out.deep_view() =~= pre.push(info@));
                    if wire_services_of(iv.skip(i + 1 as int)) is Some {
                        let t = wire_services_of(iv.skip(i + 1 as int))->Some_0;
                        assert(pre + (seq![info@] + t) =~= pre.push(info@) + t);
                    }
                }
            },
            None => {
                proof {
                    assert(iv.skip(i as int).len() > 0);
                    assert(wire_services_of(iv.skip(i as int)) is None);
                    assert(wire_services_of(iv) is None);
                }
                return None;
            },
        }
        i += 1;
    }
    proof {
        assert(iv.skip(iv.len() as int).len() == 0);
        assert(out.deep_view() + Seq::<ServiceInfoView>::empty() =~= out.deep_view());
    }
    Some(out)
}

/// The log entry a wire object denotes: every field read cleanly, the
/// nanosecond count fitting 32 bits.
pub open spec fn wire_log_of(v: serde_json::Value) -> Option<LogView> {
    let unix_read = match value_member(v, "unix_seconds"@) {
        Some(f) => if value_is_null(f) {
            Some(None)
        } else {
            match value_i64(f) {
                Some(n) => Some(Some(n)),
                None => None,
            }
        },
        None => Some(None),
    };
    match unix_read {
        Some(unix_seconds) => match opt_member_u64(v, "nanos"@) {
            Some(nanos_raw) => {
                let nanos_read = match nanos_raw {
                    Some(n) => if n <= u32::MAX {
                        Some(Some(n as u32))
                    } else {
                        None
                    },
                    None => Some(None),
                };
                match nanos_read {
                    Some(nanos) => match opt_member_str(v, "raw"@) {
                        Some(raw) => match member_str(v, "message"@) {
                            Some(message) => Some(LogView { unix_seconds, nanos, raw, message }),
                            None => None,
                        },
                        None => None,
                    },
                    None => None,
                }
            },
            None => None,
        },
        None => None,
    }
}

/// Decode one log-entry object.
fn decode_log_entry(v: &serde_json::Value) -> (r: Option<LogEntry>)
    ensures
        match r {
            Some(entry) => wire_log_of(*v) == Some(entry@),
            None => wire_log_of(*v) is None,
        },
{
    let unix_seconds = match json_get(v, "unix_seconds") {
        Some(f) => {
            if json_is_null(f) {
                None
            } else {
                match json_as_i64(f) {
                    Some(n) => Some(n),
                    None => {
                        return None;
                    },
                }
            }
        },
        None => None,
    };
    let nanos = match get_opt_u64_field(v, "nanos") {
        Ok(Some(n)) => {
            if n <= u32::MAX as u64 {
                Some(n as u32)
            } else {
                return None;
            }
        },
        Ok(None) => None,
        Err(()) => {
            return None;
        },
    };
    let raw = match get_opt_string_field(v, "raw") {
        Ok(x) => x,
        Err(()) => {
            return None;
        },
    };
    let message = match get_string_field(v, "message") {
        Some(x) => x,
        None => {
            return None;
        },
    };
    Some(LogEntry { unix_seconds, nanos, raw, message })
}

/// The entries a wire array denotes, when every element denotes one.
pub open spec fn wire_logs_of(items: Seq<serde_json::Value>) -> Option<Seq<LogView>>
    decreases items.len(),
{
    if items.len() == 0 {
        Some(Seq::empty())
    } else {
        match wire_log_of(items[0]) {
            Some(h) => match wire_logs_of(items.drop_first()) {
                Some(t) => Some(seq![h] + t),
                None => None,
            },
            None => None,
        }
    }
}

/// Decode the `logs` data array, one-to-one and in order.
#[verifier::spinoff_prover]
#[verifier::rlimit(50)]
fn decode_log_entries(v: &serde_json::Value) -> (r: Option<Vec<LogEntry>>)
    ensures
        match r {
            Some(out) => value_items(*v) matches Some(items) && wire_logs_of(items) == Some(
                out.deep_view(),
            ),
            None => match value_items(*v) {
                Some(items) => wire_logs_of(items) is None,
                None => true,
            },
        },
{
    let items = match json_as_array(v) {
        Some(a) => a,
        None => {
            return None;
        },
    };
    let ghost iv = items@;
    let mut out: Vec<LogEntry> = Vec::new();
    proof {
        assert(iv.skip(0) =~= iv);
        assert(out.deep_view() =~= Seq::<LogView>::empty());
    }
    let mut i: usize = 0;
    while i < items.len()
        invariant
            0 <= i <= iv.len(),
            items@ == iv,
            value_items(*v) == Some(iv),
            out.deep_view().len() == i,
            match wire_logs_of(iv.skip(i as int)) {
                Some(t) => wire_logs_of(iv) == Some(out.deep_view() + t),
                None => wire_logs_of(iv) is None,
            },
        decreases iv.len() - i,
    {
        proof {
            assert(iv.skip(i as int)[0] == iv[i as int]);
            assert(iv.skip(i as int).drop_first() =~= iv.skip(i + 1 as int));
        }
        match decode_log_entry(&items[i]) {
            Some(entry) => {
                let ghost pre = out.deep_view();
                out.push(entry);
                proof {
                    assert(out.deep_view() =~= pre.push(entry@));
                    if wire_logs_of(iv.skip(i + 1 as int)) is Some {
                        let t = wire_logs_of(iv.skip(i + 1 as int))->Some_0;
                        assert(pre + (seq![entry@] + t) =~= pre.push(entry@) + t);
                    }
                }
            },
            None => {
                proof {
                    assert(iv.skip(i as int).len() > 0);
                    assert(wire_logs_of(iv.skip(i as int)) is None);
                    assert(wire_logs_of(iv) is None);
                }
                return None;
            },
        }
        i += 1;
    }
    proof {
        assert(iv.skip(iv.len() as int).len() == 0);
        assert(out.deep_view() + Seq::<LogView>::empty() =~= out.deep_view());
    }
    Some(out)
}

} // verus!
