//! Human-readable renderings of service states and log entries, as the
//! presentation layer shows them.
use vstd::prelude::*;

use crate::decimal::dec_str_signed;
use crate::decimal::i64_to_string;
use crate::decimal::u64_to_string;
use crate::dispatch::LogEntry;
use crate::manager::DesiredState;
use crate::manager::ServiceInfo;
use crate::state::ServiceRuntimeState;
use crate::state::StateView;
use crate::text::rskip_ws;
use crate::text::trim_end_spaces;

verus! {

/// How urgent a service's condition is, for row styling.
#[derive(Clone, Copy, Debug, Eq, PartialEq, Structural)]
pub enum StatusLevel {
    Good,
    Warning,
    Critical,
    Neutral,
}

/// The rendering `humantime` gives a duration of whole seconds; it depends
/// on the seconds alone.
pub uninterp spec fn human_duration_of(seconds: u64) -> Seq<char>;

/// Relies on humantime::format_duration, rendered to text.
#[verifier::external_body]
fn human_duration(seconds: u64) -> (r: String)
    ensures
        r@ == human_duration_of(seconds),
{
    humantime::format_duration(core::time::Duration::from_secs(seconds)).to_string()
}

/// The one-word state shown beside a service's name.
pub open spec fn spec_runtime_state_short(state: StateView, enabled: bool) -> Seq<char> {
    match state {
        StateView::Running { .. } => "Running"@,
        StateView::Down { normally_up, .. } => if !enabled {
            "Stopped"@
        } else if normally_up {
            "Stopped"@
        } else {
            "Idle"@
        },
        StateView::Failed { .. } => if !enabled {
            "Stopped"@
        } else {
            "Error"@
        },
        StateView::Unknown { .. } => if !enabled {
            "Stopped"@
        } else {
            "Unavailable"@
        },
    }
}

pub fn runtime_state_short(service: &ServiceInfo) -> (r: String)
    ensures
        r@ == spec_runtime_state_short(service.runtime_state@, service.enabled),
{
    if let ServiceRuntimeState::Running { .. } = &service.runtime_state {
        return "Running".to_owned();
    }
    if !service.enabled {
        return "Stopped".to_owned();
    }
    match &service.runtime_state {
        ServiceRuntimeState::Down { normally_up, .. } => {
            if *normally_up {
                "Stopped".to_owned()
            } else {
                "Idle".to_owned()
            }
        },
        ServiceRuntimeState::Failed { .. } => "Error".to_owned(),
        ServiceRuntimeState::Unknown { .. } => "Unavailable".to_owned(),
        ServiceRuntimeState::Running { .. } => "Running".to_owned(),
    }
}

/// The sentence shown in a service's detail pane.
pub open spec fn spec_runtime_state_detail(state: StateView, enabled: bool) -> Seq<char> {
    match state {
        StateView::Running { pid, uptime_seconds } => "Running (PID "@ + dec_str_signed(pid as int)
            + ") for "@ + human_duration_of(uptime_seconds),
        StateView::Down { since_seconds, normally_up } => {
            let downtime = human_duration_of(since_seconds);
            if !enabled {
                "Stopped (disabled); last ran "@ + downtime + " ago"@
            } else if normally_up {
                "Stopped "@ + downtime + " ago; runit will restart automatically"@
            } else {
                "Stopped "@ + downtime + " ago; waiting for manual start"@
            }
        },
        StateView::Failed { pid: _, uptime_seconds, exit_code } => {
            let runtime = human_duration_of(uptime_seconds);
            if enabled {
                "Stopped due to error; exited with code "@ + dec_str_signed(exit_code as int)
                    + " after "@ + runtime
            } else {
                "Stopped (disabled); last start attempt exited with code "@ + dec_str_signed(
                    exit_code as int,
                ) + " after "@ + runtime
            }
        },
        StateView::Unknown { .. } => if enabled {
            "Status unavailable; runit did not report details"@
        } else {
            "Stopped (disabled); service directory is not linked to /var/service"@
        },
    }
}

pub fn runtime_state_detail(service: &ServiceInfo) -> (r: String)
    ensures
        r@ == spec_runtime_state_detail(service.runtime_state@, service.enabled),
{
    match &service.runtime_state {
        ServiceRuntimeState::Running { pid, uptime_seconds } => {
            let mut m = String::new();
            m.append("Running (PID ");
            let digits = u64_to_string(*pid as u64);
            m.append(digits.as_str());
            m.append(") for ");
            let dur = human_duration(*uptime_seconds);
            m.append(dur.as_str());
            m
        },
        ServiceRuntimeState::Down { since_seconds, normally_up } => {
            let downtime = human_duration(*since_seconds);
            let mut m = String::new();
            if !service.enabled {
                m.append("Stopped (disabled); last ran ");
                m.append(downtime.as_str());
                m.append(" ago");
            } else if *normally_up {
                m.append("Stopped ");
                m.append(downtime.as_str());
                m.append(" ago; runit will restart automatically");
            } else {
                m.append("Stopped ");
                m.append(downtime.as_str());
                m.append(" ago; waiting for manual start");
            }
            m
        },
        ServiceRuntimeState::Failed { pid: _, uptime_seconds, exit_code } => {
            let runtime = human_duration(*uptime_seconds);
            let digits = i64_to_string(*exit_code as i64);
            let mut m = String::new();
            if service.enabled {
                m.append("Stopped due to error; exited with code ");
                m.append(digits.as_str());
                m.append(" after ");
                m.append(runtime.as_str());
            } else {
                m.append("Stopped (disabled); last start attempt exited with code ");
                m.append(digits.as_str());
                m.append(" after ");
                m.append(runtime.as_str());
            }
            m
        },
        ServiceRuntimeState::Unknown { .. } => {
            if service.enabled {
                "Status unavailable; runit did not report details".to_owned()
            } else {
                "Stopped (disabled); service directory is not linked to /var/service".to_owned()
            }
        },
    }
}

/// The list row's subtitle: the short state, with the description appended
/// when one is known.
pub open spec fn spec_list_row_subtitle(
    state: StateView,
    enabled: bool,
    description: Option<Seq<char>>,
) -> Seq<char> {
    match description {
        Some(d) => if d.len() > 0 {
            spec_runtime_state_short(state, enabled) + " — "@ + d
        } else {
            spec_runtime_state_short(state, enabled)
        },
        None => spec_runtime_state_short(state, enabled),
    }
}

pub fn list_row_subtitle(service: &ServiceInfo) -> (r: String)
    ensures
        r@ == spec_list_row_subtitle(
            service.runtime_state@,
            service.enabled,
            service.description.deep_view(),
        ),
{
    let short = runtime_state_short(service);
    match &service.description {
        Some(d) => {
            if !d.as_str().is_empty() {
                let mut m = short;
                m.append(" — ");
                m.append(d.as_str());
                m
            } else {
                short
            }
        },
        None => short,
    }
}

/// The description text of the detail pane, with its placeholder.
pub fn detail_description_text(service: &ServiceInfo) -> (r: String)
    ensures
        r@ == match service.description.deep_view() {
            Some(d) => d,
            None => "This service has no description yet."@,
        },
{
    match &service.description {
        Some(d) => d.clone(),
        None => "This service has no description yet.".to_owned(),
    }
}

pub fn is_running(state: &ServiceRuntimeState) -> (r: bool)
    ensures
        r == (state@ matches StateView::Running { .. }),
{
    matches!(state, ServiceRuntimeState::Running { .. })
}

pub fn is_auto_start(desired: DesiredState) -> (r: bool)
    ensures
        r == (desired == DesiredState::AutoStart),
{
    matches!(desired, DesiredState::AutoStart)
}

/// The styling level of a service's condition.
pub open spec fn spec_status_level(state: StateView, enabled: bool) -> StatusLevel {
    match state {
        StateView::Running { .. } => StatusLevel::Good,
        StateView::Down { normally_up, .. } => if !enabled {
            StatusLevel::Neutral
        } else if normally_up {
            StatusLevel::Warning
        } else {
            StatusLevel::Neutral
        },
        StateView::Failed { .. } => if !enabled {
            StatusLevel::Neutral
        } else {
            StatusLevel::Critical
        },
        StateView::Unknown { .. } => if !enabled {
            StatusLevel::Neutral
        } else {
            StatusLevel::Warning
        },
    }
}

pub fn status_level(service: &ServiceInfo) -> (r: StatusLevel)
    ensures
        r == spec_status_level(service.runtime_state@, service.enabled),
{
    if let ServiceRuntimeState::Running { .. } = &service.runtime_state {
        return StatusLevel::Good;
    }
    if !service.enabled {
        return StatusLevel::Neutral;
    }
    match &service.runtime_state {
        ServiceRuntimeState::Down { normally_up, .. } => {
            if *normally_up {
                StatusLevel::Warning
            } else {
                StatusLevel::Neutral
            }
        },
        ServiceRuntimeState::Failed { .. } => StatusLevel::Critical,
        ServiceRuntimeState::Unknown { .. } => StatusLevel::Warning,
        ServiceRuntimeState::Running { .. } => StatusLevel::Good,
    }
}

/// One rendered log line: the rendered timestamp if the caller made one,
/// else the raw stamp behind `@`, else nothing, then the message without
/// trailing whitespace.
pub open spec fn spec_format_log_entry(
    rendered: Option<Seq<char>>,
    raw: Option<Seq<char>>,
    message: Seq<char>,
) -> Seq<char> {
    let trimmed = message.subrange(0, rskip_ws(message, message.len() as int, 0));
    let prefix = match (rendered, raw) {
        (Some(ts), _) => ts,
        (None, Some(stamp)) => "@"@ + stamp,
        (None, None) => Seq::empty(),
    };
    if prefix.len() == 0 {
        trimmed
    } else {
        prefix + "  "@ + trimmed
    }
}

/// Render one log entry. Rendering the decoded timestamp in local time is
/// the caller's part; it is handed in already formatted, when there is one.
pub fn format_log_entry(entry: &LogEntry, rendered_timestamp: Option<String>) -> (r: String)
    ensures
        r@ == spec_format_log_entry(
            rendered_timestamp.deep_view(),
            entry.raw.deep_view(),
            entry.message@,
        ),
{
    let message = trim_end_spaces(entry.message.as_str());
    let prefix: Option<String> = match (rendered_timestamp, &entry.raw) {
        (Some(ts), _) => Some(ts),
        (None, Some(stamp)) => {
            let mut p = String::new();
            p.append("@");
            p.append(stamp.as_str());
            Some(p)
        },
        (None, None) => None,
    };
    match prefix {
        Some(p) => {
            if p.as_str().is_empty() {
                message.to_owned()
            } else {
                let mut m = p;
                m.append("  ");
                m.append(message);
                m
            }
        },
        None => message.to_owned(),
    }
}

} // verus!
