//! Discovery and interrogation of runit services.
//!
//! The manager holds the configured directories and the path of the `sv`
//! tool, and makes every decision of the discovery layer; running external
//! commands and touching the filesystem is its caller's part, which hands
//! the observed outcomes in as plain values.
use vstd::prelude::*;

use crate::ProcessResult;
use crate::error::ServiceError;
use crate::is_valid_service_name;
use crate::logs::ServiceLogEntry;
use crate::logs::spec_parse_svlogd_line;
use crate::logs::tail_entries;
use crate::logs::tail_len;
use crate::state::ServiceRuntimeState;
use crate::state::StateView;
use crate::state::spec_from_sv_status;
use crate::decimal::dec_str_signed;
use crate::decimal::i64_to_string;
use crate::text::lemma_seq_lex_le_total;
use crate::text::lemma_seq_lex_le_trans;
use crate::text::seq_lex_le;
use crate::text::str_lex_le;
use crate::text::trim_in;
use crate::text::trim_spaces;
use crate::valid_service_name;

verus! {

/// Default directory of service definitions.
pub const DEFAULT_SERVICE_DIR: &'static str = "/etc/sv";

/// Default directory whose entries mark services as enabled.
pub const DEFAULT_ENABLED_DIR: &'static str = "/var/service";

/// Desired state of a service as configured by the user: a service is
/// `AutoStart` iff an entry bearing its name exists in the enabled
/// directory.
#[derive(Debug, Clone, Copy, PartialEq, Eq, Structural)]
pub enum DesiredState {
    AutoStart,
    Manual,
}

/// Immutable snapshot of a runit service.
#[derive(Debug, Clone)]
pub struct ServiceInfo {
    pub name: String,
    pub definition_path: String,
    pub enabled: bool,
    pub desired_state: DesiredState,
    pub runtime_state: ServiceRuntimeState,
    pub description: Option<String>,
}

impl ServiceInfo {
    /// Every snapshot holds a validated name, and `enabled` and
    /// `desired_state` encode the same fact.
    pub open spec fn wf(self) -> bool {
        &&& valid_service_name(self.name@)
        &&& self.enabled <==> self.desired_state == DesiredState::AutoStart
    }
}

/// Mathematical model of a service snapshot.
pub struct ServiceInfoView {
    pub name: Seq<char>,
    pub definition_path: Seq<char>,
    pub enabled: bool,
    pub desired_state: DesiredState,
    pub runtime_state: StateView,
    pub description: Option<Seq<char>>,
}

impl View for ServiceInfo {
    type V = ServiceInfoView;

    open spec fn view(&self) -> ServiceInfoView {
        ServiceInfoView {
            name: self.name@,
            definition_path: self.definition_path@,
            enabled: self.enabled,
            desired_state: self.desired_state,
            runtime_state: self.runtime_state@,
            description: match self.description {
                Some(d) => Some(d@),
                None => None,
            },
        }
    }
}

impl DeepView for ServiceInfo {
    type V = ServiceInfoView;

    open spec fn deep_view(&self) -> ServiceInfoView {
        self.view()
    }
}

/// Mathematical model of a manager: its three configured paths.
pub struct ManagerView {
    pub definitions_dir: Seq<char>,
    pub enabled_dir: Seq<char>,
    pub sv_command: Seq<char>,
}

/// Discover and interrogate runit services.
#[derive(Debug, Clone)]
pub struct ServiceManager {
    definitions_dir: String,
    enabled_dir: String,
    sv_command: String,
}

impl View for ServiceManager {
    type V = ManagerView;

    closed spec fn view(&self) -> ManagerView {
        ManagerView {
            definitions_dir: self.definitions_dir@,
            enabled_dir: self.enabled_dir@,
            sv_command: self.sv_command@,
        }
    }
}

impl Default for ServiceManager {
    /// The stock Void Linux layout, controlled through `sv` found on the
    /// search path.
    fn default() -> (r: Self)
        ensures
            r@.definitions_dir == DEFAULT_SERVICE_DIR@,
            r@.enabled_dir == DEFAULT_ENABLED_DIR@,
            r@.sv_command == "sv"@,
    {
        ServiceManager::new(DEFAULT_SERVICE_DIR, DEFAULT_ENABLED_DIR)
    }
}

/// Service list entries in ascending name order, for deterministic
/// presentation and diffing.
pub open spec fn names_sorted(s: Seq<ServiceInfo>) -> bool {
    forall|i: int, j: int|
        0 <= i < j < s.len() ==> seq_lex_le((#[trigger] s[i]).name@, (#[trigger] s[j]).name@)
}

/// Sort a freshly discovered service list by name; nothing is added or
/// lost.
pub fn sort_services_by_name(services: Vec<ServiceInfo>) -> (r: Vec<ServiceInfo>)
    ensures
        names_sorted(r@),
        r@.to_multiset() == services@.to_multiset(),
{
    let mut rest = services;
    let mut out: Vec<ServiceInfo> = Vec::new();
    proof {
        out@.to_multiset_ensures();
        assert(out@.to_multiset().add(rest@.to_multiset()) =~= rest@.to_multiset());
    }
    while rest.len() > 0
        invariant
            names_sorted(out@),
            forall|i: int, j: int|
                0 <= i < out@.len() && 0 <= j < rest@.len() ==> seq_lex_le(
                    (#[trigger] out@[i]).name@,
                    (#[trigger] rest@[j]).name@,
                ),
            out@.to_multiset().add(rest@.to_multiset()) == services@.to_multiset(),
        decreases rest@.len(),
    {
        let mut m: usize = 0;
        let mut j: usize = 1;
        proof {
            lemma_seq_lex_le_total(rest@[0].name@, rest@[0].name@);
        }
        while j < rest.len()
            invariant
                0 <= m < j <= rest@.len(),
                forall|k: int|
                    0 <= k < j ==> seq_lex_le(rest@[m as int].name@, (#[trigger] rest@[k]).name@),
            decreases rest@.len() - j,
        {
            if !str_lex_le(rest[m].name.as_str(), rest[j].name.as_str()) {
                proof {
                    lemma_seq_lex_le_total(rest@[m as int].name@, rest@[j as int].name@);
                    assert forall|k: int|
                        0 <= k <= j implies seq_lex_le(
                        rest@[j as int].name@,
                        (#[trigger] rest@[k]).name@,
                    ) by {
                        if k < j {
                            lemma_seq_lex_le_trans(
                                rest@[j as int].name@,
                                rest@[m as int].name@,
                                rest@[k].name@,
                            );
                        } else {
                            lemma_seq_lex_le_total(rest@[j as int].name@, rest@[j as int].name@);
                        }
                    }
                }
                m = j;
            }
            j += 1;
        }
        let ghost rest_old = rest@;
        let ghost out_old = out@;
        let item = rest.remove(m);
        out.push(item);
        proof {
            rest_old.to_multiset_ensures();
            out_old.to_multiset_ensures();
            assert(rest@.to_multiset() =~= rest_old.to_multiset().remove(item));
            assert(out@.to_multiset() =~= out_old.to_multiset().insert(item));
            assert(rest_old.contains(item));
            assert(out@.to_multiset().add(rest@.to_multiset()) =~= out_old.to_multiset().add(
                rest_old.to_multiset(),
            ));
            assert forall|jj: int|
                0 <= jj < rest@.len() implies seq_lex_le(
                item.name@,
                (#[trigger] rest@[jj]).name@,
            ) by {
                if jj < m {
                    assert(rest@[jj] == rest_old[jj]);
                } else {
                    assert(rest@[jj] == rest_old[jj + 1]);
                }
            }
        }
    }
    proof {
        rest@.to_multiset_ensures();
        assert(out@.to_multiset() =~= services@.to_multiset());
    }
    out
}

/// A filename appended to a directory path.
pub open spec fn path_join(dir: Seq<char>, name: Seq<char>) -> Seq<char> {
    dir + "/"@ + name
}

/// The trimmed standard error of a command.
pub open spec fn stderr_trimmed(output: ProcessResult) -> Seq<char> {
    trim_in(output.stderr@, 0, output.stderr@.len() as int)
}

/// Whether a command printed nothing but whitespace on standard output.
pub open spec fn stdout_blank(output: ProcessResult) -> bool {
    trim_in(output.stdout@, 0, output.stdout@.len() as int).len() == 0
}

/// Description of an exit status, for error messages.
pub open spec fn exit_status_desc(exit_code: Option<i32>) -> Seq<char> {
    match exit_code {
        Some(c) => "exit status "@ + dec_str_signed(c as int),
        None => "terminated by signal"@,
    }
}

/// The message reported when `sv status` produced no output.
pub open spec fn no_output_message(exit_code: Option<i32>) -> Seq<char> {
    "sv status returned no output ("@ + exit_status_desc(exit_code) + ")"@
}

impl ServiceManager {
    pub fn new(definitions_dir: &str, enabled_dir: &str) -> (r: Self)
        ensures
            r@.definitions_dir == definitions_dir@,
            r@.enabled_dir == enabled_dir@,
            r@.sv_command == "sv"@,
    {
        ServiceManager {
            definitions_dir: definitions_dir.to_owned(),
            enabled_dir: enabled_dir.to_owned(),
            sv_command: "sv".to_owned(),
        }
    }

    pub fn with_sv_command(self, cmd: &str) -> (r: Self)
        ensures
            r@.definitions_dir == self@.definitions_dir,
            r@.enabled_dir == self@.enabled_dir,
            r@.sv_command == cmd@,
    {
        ServiceManager {
            definitions_dir: self.definitions_dir,
            enabled_dir: self.enabled_dir,
            sv_command: cmd.to_owned(),
        }
    }

    pub fn definitions_dir(&self) -> (r: &str)
        ensures
            r@ == self@.definitions_dir,
    {
        self.definitions_dir.as_str()
    }

    pub fn enabled_dir(&self) -> (r: &str)
        ensures
            r@ == self@.enabled_dir,
    {
        self.enabled_dir.as_str()
    }

    pub fn sv_command_path(&self) -> (r: &str)
        ensures
            r@ == self@.sv_command,
    {
        self.sv_command.as_str()
    }

    /// The directory holding a service's definition.
    pub fn definition_path_of(&self, service: &str) -> (r: String)
        ensures
            r@ == path_join(self@.definitions_dir, service@),
    {
        let mut p = self.definitions_dir.clone();
        p.append("/");
        p.append(service);
        p
    }

    /// The entry whose existence marks a service as enabled.
    pub fn enabled_path_of(&self, service: &str) -> (r: String)
        ensures
            r@ == path_join(self@.enabled_dir, service@),
    {
        let mut p = self.enabled_dir.clone();
        p.append("/");
        p.append(service);
        p
    }

    /// Where a service's current logger file may live, in the order the
    /// locations are to be checked: under the definition directory, then
    /// under the enabled directory.
    pub fn log_file_candidates(&self, service: &str) -> (r: (String, String))
        ensures
            r.0@ == path_join(self@.definitions_dir, service@) + "/log/main/current"@,
            r.1@ == path_join(self@.enabled_dir, service@) + "/log/main/current"@,
    {
        let mut a = self.definition_path_of(service);
        a.append("/log/main/current");
        let mut b = self.enabled_path_of(service);
        b.append("/log/main/current");
        (a, b)
    }

    /// Refuse any name that could traverse paths or smuggle arguments;
    /// names reach filesystem paths and external command lines.
    pub fn validate_service_name(&self, service: &str) -> (r: Result<(), ServiceError>)
        ensures
            match r {
                Ok(()) => valid_service_name(service@),
                Err(e) => !valid_service_name(service@) && (e
                    matches ServiceError::InvalidServiceName(n) && n@ == service@),
            },
    {
        if is_valid_service_name(service) {
            Ok(())
        } else {
            Err(ServiceError::InvalidServiceName(service.to_owned()))
        }
    }

    /// Classify the outcome of `sv status <service>`: any standard-error
    /// output is a failure even on a zero exit, an empty standard output is
    /// a failure carrying the exit status, and otherwise the first line is
    /// classified.
    pub fn status(&self, service: &str, output: &ProcessResult) -> (r: Result<
        ServiceRuntimeState,
        ServiceError,
    >)
        ensures
            !valid_service_name(service@) ==> (r matches Err(e) && e
                matches ServiceError::InvalidServiceName(n) && n@ == service@),
            valid_service_name(service@) && stderr_trimmed(*output).len() > 0 ==> (r matches Err(e)
                && e matches ServiceError::SvCommand { service: s, message: m } && s@ == service@
                && m@ == stderr_trimmed(*output)),
            valid_service_name(service@) && stderr_trimmed(*output).len() == 0 && stdout_blank(
                *output,
            ) ==> (r matches Err(e) && e matches ServiceError::SvCommand { service: s, message: m }
                && s@ == service@ && m@ == no_output_message(output.exit_code)),
            valid_service_name(service@) && stderr_trimmed(*output).len() == 0 && !stdout_blank(
                *output,
            ) ==> (r matches Ok(state) && state@ == spec_from_sv_status(output.stdout@)),
    {
        self.validate_service_name(service)?;

        let stderr = trim_spaces(output.stderr.as_str());
        if !stderr.is_empty() {
            return Err(
                ServiceError::SvCommand {
                    service: service.to_owned(),
                    message: stderr.to_owned(),
                },
            );
        }

        let stdout_trimmed = trim_spaces(output.stdout.as_str());
        if stdout_trimmed.is_empty() {
            let mut message = String::new();
            message.append("sv status returned no output (");
            match output.exit_code {
                Some(code) => {
                    message.append("exit status ");
                    let digits = i64_to_string(code as i64);
                    message.append(digits.as_str());
                },
                None => {
                    message.append("terminated by signal");
                },
            }
            message.append(")");
            return Err(
                ServiceError::SvCommand { service: service.to_owned(), message },
            );
        }

        Ok(ServiceRuntimeState::from_sv_status(output.stdout.as_str()))
    }

    /// Assemble a snapshot from the observed facts about one definition
    /// directory entry; a dotfile-prefixed name is skipped.
    pub fn build_service_info(
        &self,
        name: &str,
        definition_path: &str,
        enabled: bool,
        runtime_state: ServiceRuntimeState,
        description: Option<String>,
    ) -> (r: Option<ServiceInfo>)
        requires
            valid_service_name(name@),
        ensures
            name@[0] == '.' ==> r is None,
            name@[0] != '.' ==> (r matches Some(info) && {
                &&& info.wf()
                &&& info.name@ == name@
                &&& info.definition_path@ == definition_path@
                &&& info.enabled == enabled
                &&& info.desired_state == (if enabled {
                    DesiredState::AutoStart
                } else {
                    DesiredState::Manual
                })
                &&& info.runtime_state@ == runtime_state@
                &&& info.description.deep_view() == description.deep_view()
            }),
    {
        if name.get_char(0) == '.' {
            return None;
        }
        let desired_state = if enabled {
            DesiredState::AutoStart
        } else {
            DesiredState::Manual
        };
        Some(
            ServiceInfo {
                name: name.to_owned(),
                definition_path: definition_path.to_owned(),
                enabled,
                desired_state,
                runtime_state,
                description,
            },
        )
    }

    /// Whether tailing would read the log file at all: a zero limit or an
    /// invalid name never touches the disk.
    pub fn needs_log_read(&self, service: &str, limit: usize) -> (r: bool)
        ensures
            r == (valid_service_name(service@) && limit > 0),
    {
        is_valid_service_name(service) && limit > 0
    }

    /// Tail the newest entries of a service's log. The caller reads the
    /// current logger file and hands its lines in, or `None` when no such
    /// file exists (not every service has a logger); a zero limit returns
    /// no entries without any lines being read.
    pub fn tail_logs(&self, service: &str, limit: usize, log_lines: Option<&Vec<String>>) -> (r:
        Result<Vec<ServiceLogEntry>, ServiceError>)
        ensures
            !valid_service_name(service@) ==> (r matches Err(e) && e
                matches ServiceError::InvalidServiceName(n) && n@ == service@),
            valid_service_name(service@) && (limit == 0 || log_lines is None) ==> (r matches Ok(v)
                && v@.len() == 0),
            valid_service_name(service@) && limit > 0 ==> match log_lines {
                Some(lines) => r matches Ok(v) && v@.len() == tail_len(limit as nat, lines@.len())
                    && (forall|i: int|
                    0 <= i < v@.len() ==> v@[i]@ == spec_parse_svlogd_line(
                        lines@[lines@.len() - v@.len() + i]@,
                    )),
                None => r matches Ok(v) && v@.len() == 0,
            },
    {
        self.validate_service_name(service)?;

        if limit == 0 {
            return Ok(Vec::new());
        }

        match log_lines {
            None => Ok(Vec::new()),
            Some(lines) => Ok(tail_entries(lines, limit)),
        }
    }
}

} // verus!
