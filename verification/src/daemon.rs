//! Decision logic of the privileged command daemon.
//!
//! The daemon runs one command per invocation and emits exactly one line of
//! JSON on standard output before exiting; its exit code is a coarse
//! per-category signal beside that authoritative body. Everything the
//! daemon decides — which `sv` subcommand a verb maps to, when enabling or
//! disabling is refused, how a finished `sv` run is classified, which exit
//! code an error carries — lives here; its caller performs the process
//! launches and symlink changes the returned plans call for.
use vstd::prelude::*;

use crate::ProcessResult;
use crate::error::ServiceError;
use crate::logs::ServiceLogEntry;
use crate::manager::ServiceInfo;
use crate::manager::ServiceManager;
use crate::manager::path_join;
use crate::manager::stderr_trimmed;
use crate::manager::exit_status_desc;
use crate::text::trim_in;
use crate::text::trim_spaces;
use crate::decimal::i64_to_string;
use crate::valid_service_name;
use crate::is_valid_service_name;

verus! {

/// The daemon's command set.
#[derive(Debug, Clone)]
pub enum HelperCommand {
    Start { service: String },
    Stop { service: String },
    Restart { service: String },
    Reload { service: String },
    Check { service: String },
    Once { service: String },
    Enable { service: String },
    Disable { service: String },
    List,
    Logs { service: String, lines: usize },
}

/// The `sv` subcommand a verb maps to; the non-`sv` commands map to none.
pub open spec fn spec_sv_subcommand(cmd: HelperCommand) -> Option<Seq<char>> {
    match cmd {
        HelperCommand::Start { .. } => Some("up"@),
        HelperCommand::Stop { .. } => Some("down"@),
        HelperCommand::Restart { .. } => Some("restart"@),
        HelperCommand::Reload { .. } => Some("reload"@),
        HelperCommand::Check { .. } => Some("check"@),
        HelperCommand::Once { .. } => Some("once"@),
        HelperCommand::Enable { .. } => None,
        HelperCommand::Disable { .. } => None,
        HelperCommand::List => None,
        HelperCommand::Logs { .. } => None,
    }
}

/// Map a verb to its `sv` subcommand.
pub fn sv_subcommand(cmd: &HelperCommand) -> (r: Option<&'static str>)
    ensures
        match r {
            Some(s) => spec_sv_subcommand(*cmd) == Some(s@),
            None => spec_sv_subcommand(*cmd) is None,
        },
{
    match cmd {
        HelperCommand::Start { .. } => Some("up"),
        HelperCommand::Stop { .. } => Some("down"),
        HelperCommand::Restart { .. } => Some("restart"),
        HelperCommand::Reload { .. } => Some("reload"),
        HelperCommand::Check { .. } => Some("check"),
        HelperCommand::Once { .. } => Some("once"),
        HelperCommand::Enable { .. } => None,
        HelperCommand::Disable { .. } => None,
        HelperCommand::List => None,
        HelperCommand::Logs { .. } => None,
    }
}

/// Error categories of the daemon, each with its own exit code.
#[derive(Debug, Clone)]
pub enum HelperError {
    InvalidService(String),
    DefinitionMissing { service: String, path: String },
    AlreadyEnabled(String),
    NotEnabled(String),
    SvFailure { command: String, service: String, message: String },
    Io { path: String, message: String },
    Other(String),
}

/// The message text of each error category.
pub open spec fn spec_helper_error_message(e: HelperError) -> Seq<char> {
    match e {
        HelperError::InvalidService(name) => "invalid service name: "@ + name@,
        HelperError::DefinitionMissing { service, path } => "service definition missing: "@
            + service@ + " ("@ + path@ + ")"@,
        HelperError::AlreadyEnabled(name) => "service already enabled: "@ + name@,
        HelperError::NotEnabled(name) => "service is not enabled: "@ + name@,
        HelperError::SvFailure { command, service, message } => "command `"@ + command@
            + "` failed for "@ + service@ + ": "@ + message@,
        HelperError::Io { path, message } => "I/O error at \""@ + path@ + "\": "@ + message@,
        HelperError::Other(message) => message@,
    }
}

impl HelperError {
    /// The distinct non-zero process exit code of each category.
    pub fn exit_code(&self) -> (r: i32)
        ensures
            r == match self {
                HelperError::InvalidService(_) => 2int,
                HelperError::DefinitionMissing { .. } => 3int,
                HelperError::AlreadyEnabled(_) => 4int,
                HelperError::NotEnabled(_) => 5int,
                HelperError::SvFailure { .. } => 6int,
                HelperError::Io { .. } => 7int,
                HelperError::Other(_) => 1int,
            },
    {
        match self {
            HelperError::InvalidService(_) => 2,
            HelperError::DefinitionMissing { .. } => 3,
            HelperError::AlreadyEnabled(_) => 4,
            HelperError::NotEnabled(_) => 5,
            HelperError::SvFailure { .. } => 6,
            HelperError::Io { .. } => 7,
            HelperError::Other(_) => 1,
        }
    }

    /// The message the daemon reports for this error.
    pub fn message(&self) -> (r: String)
        ensures
            r@ == spec_helper_error_message(*self),
    {
        match self {
            HelperError::InvalidService(name) => {
                let mut m = String::new();
                m.append("invalid service name: ");
                m.append(name.as_str());
                m
            },
            HelperError::DefinitionMissing { service, path } => {
                let mut m = String::new();
                m.append("service definition missing: ");
                m.append(service.as_str());
                m.append(" (");
                m.append(path.as_str());
                m.append(")");
                m
            },
            HelperError::AlreadyEnabled(name) => {
                let mut m = String::new();
                m.append("service already enabled: ");
                m.append(name.as_str());
                m
            },
            HelperError::NotEnabled(name) => {
                let mut m = String::new();
                m.append("service is not enabled: ");
                m.append(name.as_str());
                m
            },
            HelperError::SvFailure { command, service, message } => {
                let mut m = String::new();
                m.append("command `");
                m.append(command.as_str());
                m.append("` failed for ");
                m.append(service.as_str());
                m.append(": ");
                m.append(message.as_str());
                m
            },
            HelperError::Io { path, message } => {
                let mut m = String::new();
                m.append("I/O error at \"");
                m.append(path.as_str());
                m.append("\": ");
                m.append(message.as_str());
                m
            },
            HelperError::Other(message) => message.clone(),
        }
    }

    /// Fold a discovery-layer error into the daemon's taxonomy.
    pub fn from_service_error(e: ServiceError) -> (r: HelperError)
        ensures
            match e {
                ServiceError::InvalidServiceName(n) => r matches HelperError::InvalidService(n2)
                    && n2@ == n@,
                ServiceError::Io { path, message } => r matches HelperError::Io {
                    path: p2,
                    message: m2,
                } && p2@ == path@ && m2@ == message@,
                ServiceError::SvCommand { service, message } => r matches HelperError::SvFailure {
                    command: c2,
                    service: s2,
                    message: m2,
                } && c2@ == "status"@ && s2@ == service@ && m2@ == message@,
                ServiceError::LogUnavailable(s) => r matches HelperError::Other(m2) && m2@
                    == "log stream unavailable for "@ + s@,
                ServiceError::Other(m) => r matches HelperError::Other(m2) && m2@ == m@,
            },
    {
        match e {
            ServiceError::InvalidServiceName(n) => HelperError::InvalidService(n),
            ServiceError::Io { path, message } => HelperError::Io { path, message },
            ServiceError::SvCommand { service, message } => HelperError::SvFailure {
                command: "status".to_owned(),
                service,
                message,
            },
            ServiceError::LogUnavailable(s) => {
                let mut m = String::new();
                m.append("log stream unavailable for ");
                m.append(s.as_str());
                HelperError::Other(m)
            },
            ServiceError::Other(m) => HelperError::Other(m),
        }
    }
}

/// What a command hands back on success.
#[derive(Debug, Clone)]
pub enum ResponseData {
    Services(Vec<ServiceInfo>),
    Logs(Vec<ServiceLogEntry>),
}

/// Successful outcome of one daemon command.
#[derive(Debug, Clone)]
pub struct CommandOutcome {
    pub message: Option<String>,
    pub data: Option<ResponseData>,
}

/// Status tag of the daemon's one-line response.
#[derive(Debug, Clone, Copy, PartialEq, Eq, Structural)]
pub enum ResponseStatus {
    Success,
    Failure,
}

/// The daemon's one-line response: a status tag, an optional message, and
/// optional command data.
#[derive(Debug, Clone)]
pub struct HelperResponse {
    pub status: ResponseStatus,
    pub message: Option<String>,
    pub data: Option<ResponseData>,
}

impl HelperResponse {
    pub fn ok_with(outcome: CommandOutcome) -> (r: HelperResponse)
        ensures
            r.status == ResponseStatus::Success,
            r.message == outcome.message,
            r.data == outcome.data,
    {
        HelperResponse { status: ResponseStatus::Success, message: outcome.message, data: outcome.data }
    }

    pub fn error(message: String) -> (r: HelperResponse)
        ensures
            r.status == ResponseStatus::Failure,
            r.message matches Some(m) && m@ == message@,
            r.data is None,
    {
        HelperResponse { status: ResponseStatus::Failure, message: Some(message), data: None }
    }
}

/// A symlink the caller is to create: `dest` pointing at `source`.
#[derive(Debug, Clone)]
pub struct SymlinkPlan {
    pub source: String,
    pub dest: String,
}

/// The message reported when an `sv` run is classified as failed.
pub open spec fn spec_sv_failure_message(output: ProcessResult) -> Seq<char> {
    if stderr_trimmed(output).len() > 0 {
        stderr_trimmed(output)
    } else {
        exit_status_desc(output.exit_code)
    }
}

/// The trimmed standard output of a command.
pub open spec fn stdout_trimmed(output: ProcessResult) -> Seq<char> {
    trim_in(output.stdout@, 0, output.stdout@.len() as int)
}

/// Classify a finished `sv <subcommand> <service>` run: a non-zero exit or
/// any standard-error output is a failure; on success the trimmed standard
/// output is reported, or a stock note when there was none.
pub fn classify_sv_result(subcommand: &str, service: &str, output: &ProcessResult) -> (r: Result<
    CommandOutcome,
    HelperError,
>)
    ensures
        !valid_service_name(service@) ==> (r matches Err(e) && e
            matches HelperError::InvalidService(n) && n@ == service@),
        valid_service_name(service@) && (!output.success || stderr_trimmed(*output).len() > 0)
            ==> (r matches Err(e) && e matches HelperError::SvFailure {
            command: c,
            service: s,
            message: m,
        } && c@ == subcommand@ && s@ == service@ && m@ == spec_sv_failure_message(*output)),
        valid_service_name(service@) && output.success && stderr_trimmed(*output).len() == 0
            ==> (r matches Ok(o) && o.data is None && (o.message matches Some(m) && m@ == (
        if stdout_trimmed(*output).len() > 0 {
            stdout_trimmed(*output)
        } else {
            subcommand@ + " command executed for "@ + service@
        }))),
{
    if !is_valid_service_name(service) {
        return Err(HelperError::InvalidService(service.to_owned()));
    }
    let stderr = trim_spaces(output.stderr.as_str());
    if !output.success || !stderr.is_empty() {
        let message = if !stderr.is_empty() {
            stderr.to_owned()
        } else {
            match output.exit_code {
                Some(code) => {
                    let mut m = String::new();
                    m.append("exit status ");
                    let digits = i64_to_string(code as i64);
                    m.append(digits.as_str());
                    m
                },
                None => {
                    let mut m = String::new();
                    m.append("terminated by signal");
                    proof {
                        assert(m@ =~= "terminated by signal"@);
                    }
                    m
                },
            }
        };
        return Err(
            HelperError::SvFailure {
                command: subcommand.to_owned(),
                service: service.to_owned(),
                message,
            },
        );
    }
    let stdout = trim_spaces(output.stdout.as_str());
    let message = if stdout.is_empty() {
        let mut m = String::new();
        m.append(subcommand);
        m.append(" command executed for ");
        m.append(service);
        m
    } else {
        stdout.to_owned()
    };
    Ok(CommandOutcome { message: Some(message), data: None })
}

/// Decide an `enable`: refused for an invalid name, a missing definition,
/// or an entry already present (whatever it points at), in that order of
/// precedence; otherwise the symlink to create. No refusal carries a plan,
/// so nothing is mutated.
pub fn plan_enable(
    manager: &ServiceManager,
    service: &str,
    definition_exists: bool,
    entry_exists: bool,
) -> (r: Result<SymlinkPlan, HelperError>)
    ensures
        !valid_service_name(service@) ==> (r matches Err(e) && e
            matches HelperError::InvalidService(n) && n@ == service@),
        valid_service_name(service@) && !definition_exists ==> (r matches Err(e) && e
            matches HelperError::DefinitionMissing { service: s, path: p } && s@ == service@ && p@
            == path_join(manager@.definitions_dir, service@)),
        valid_service_name(service@) && definition_exists && entry_exists ==> (r matches Err(e)
            && e matches HelperError::AlreadyEnabled(n) && n@ == service@),
        valid_service_name(service@) && definition_exists && !entry_exists ==> (r matches Ok(plan)
            && plan.source@ == path_join(manager@.definitions_dir, service@) && plan.dest@
            == path_join(manager@.enabled_dir, service@)),
{
    if !is_valid_service_name(service) {
        return Err(HelperError::InvalidService(service.to_owned()));
    }
    let source = manager.definition_path_of(service);
    if !definition_exists {
        return Err(HelperError::DefinitionMissing { service: service.to_owned(), path: source });
    }
    if entry_exists {
        return Err(HelperError::AlreadyEnabled(service.to_owned()));
    }
    let dest = manager.enabled_path_of(service);
    Ok(SymlinkPlan { source, dest })
}

/// Decide a `disable`: refused for an invalid name or when no entry exists;
/// otherwise the entry to remove. No refusal carries a path, so nothing is
/// mutated.
pub fn plan_disable(manager: &ServiceManager, service: &str, entry_exists: bool) -> (r: Result<
    String,
    HelperError,
>)
    ensures
        !valid_service_name(service@) ==> (r matches Err(e) && e
            matches HelperError::InvalidService(n) && n@ == service@),
        valid_service_name(service@) && !entry_exists ==> (r matches Err(e) && e
            matches HelperError::NotEnabled(n) && n@ == service@),
        valid_service_name(service@) && entry_exists ==> (r matches Ok(dest) && dest@ == path_join(
            manager@.enabled_dir,
            service@,
        )),
{
    if !is_valid_service_name(service) {
        return Err(HelperError::InvalidService(service.to_owned()));
    }
    if !entry_exists {
        return Err(HelperError::NotEnabled(service.to_owned()));
    }
    Ok(manager.enabled_path_of(service))
}

/// The outcome reported after the symlink of an `enable` was created.
pub fn enable_outcome(service: &str) -> (r: CommandOutcome)
    ensures
        r.message matches Some(m) && m@ == "Enabled service "@ + service@,
        r.data is None,
{
    let mut m = String::new();
    m.append("Enabled service ");
    m.append(service);
    CommandOutcome { message: Some(m), data: None }
}

/// The outcome reported after the entry of a `disable` was removed.
pub fn disable_outcome(service: &str) -> (r: CommandOutcome)
    ensures
        r.message matches Some(m) && m@ == "Disabled service "@ + service@,
        r.data is None,
{
    let mut m = String::new();
    m.append("Disabled service ");
    m.append(service);
    CommandOutcome { message: Some(m), data: None }
}

} // verus!
