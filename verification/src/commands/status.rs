//! The `status` command: which view is shown, how states are labelled, and
//! how an uptime is written.

use crate::cli::StatusArgs;
use crate::commands::{styled, StyledText, TextStyle};
use crate::ipc::{AgentState, HealthState};
use crate::text::{chars_of, dec_nat, dec_u64, push_all, push_str, string_of};
use vstd::prelude::*;

verus! {

/// The views of `status`.
#[derive(Clone, Copy, Debug, PartialEq, Eq, Structural)]
pub enum StatusView {
    Basic,
    Detailed,
    Metrics,
}

/// The view `status` shows: detailed over metrics over basic.
pub open spec fn status_view_spec(args: StatusArgs) -> StatusView {
    if args.detailed {
        StatusView::Detailed
    } else if args.metrics {
        StatusView::Metrics
    } else {
        StatusView::Basic
    }
}

/// The view `status` shows, on every refresh when watching.
pub fn status_view(args: &StatusArgs) -> (r: StatusView)
    ensures
        r == status_view_spec(*args),
{
    if args.detailed {
        StatusView::Detailed
    } else if args.metrics {
        StatusView::Metrics
    } else {
        StatusView::Basic
    }
}

/// The line under a watched status.
pub open spec fn refresh_notice_spec(interval: u64) -> Seq<char> {
    "Refreshing every "@ + dec_nat(interval as nat) + " seconds. Press Ctrl+C to exit."@
}

/// The line under a watched status.
pub fn refresh_notice(interval: u64) -> (r: String)
    ensures
        r@ == refresh_notice_spec(interval),
{
    let mut v = chars_of("Refreshing every ");
    let d = dec_u64(interval);
    push_all(&mut v, d.as_slice());
    push_str(&mut v, " seconds. Press Ctrl+C to exit.");
    string_of(v.as_slice())
}

/// An uptime in the largest two units: `45s`, `2m 5s`, `3h 20m`, `4d 2h`.
pub open spec fn format_duration_spec(s: u64) -> Seq<char> {
    if s < 60 {
        dec_nat(s as nat) + "s"@
    } else if s < 3600 {
        dec_nat(s as nat / 60) + "m "@ + dec_nat(s as nat % 60) + "s"@
    } else if s < 86400 {
        dec_nat(s as nat / 3600) + "h "@ + dec_nat(s as nat % 3600 / 60) + "m"@
    } else {
        dec_nat(s as nat / 86400) + "d "@ + dec_nat(s as nat % 86400 / 3600) + "h"@
    }
}

fn two_units(a: u64, ua: &str, b: u64, ub: &str) -> (r: String)
    ensures
        r@ == dec_nat(a as nat) + ua@ + dec_nat(b as nat) + ub@,
{
    let mut v = dec_u64(a);
    push_str(&mut v, ua);
    let d = dec_u64(b);
    push_all(&mut v, d.as_slice());
    push_str(&mut v, ub);
    string_of(v.as_slice())
}

/// Writes an uptime given in seconds in its two largest units.
pub fn format_duration(seconds: u64) -> (r: String)
    ensures
        r@ == format_duration_spec(seconds),
{
    if seconds < 60 {
        let mut v = dec_u64(seconds);
        push_str(&mut v, "s");
        string_of(v.as_slice())
    } else if seconds < 3600 {
        two_units(seconds / 60, "m ", seconds % 60, "s")
    } else if seconds < 86400 {
        two_units(seconds / 3600, "h ", (seconds % 3600) / 60, "m")
    } else {
        two_units(seconds / 86400, "d ", (seconds % 86400) / 3600, "h")
    }
}

/// Whole mebibytes in a byte count, rounded down.
pub fn whole_mebibytes(bytes: u64) -> (r: u64)
    ensures
        r == bytes / 1048576,
{
    bytes / 1024 / 1024
}

/// Whole kibibytes in a byte count, rounded down.
pub fn whole_kibibytes(bytes: u64) -> (r: u64)
    ensures
        r == bytes / 1024,
{
    bytes / 1024
}

/// The label of an agent state: running in green, starting and degraded in
/// yellow, stopped and error in red.
pub fn agent_state_label(state: AgentState) -> (r: StyledText)
    ensures
        match state {
            AgentState::Running => r.text@ == "Running"@ && r.style == TextStyle::Green,
            AgentState::Starting => r.text@ == "Starting"@ && r.style == TextStyle::Yellow,
            AgentState::Degraded => r.text@ == "Degraded"@ && r.style == TextStyle::Yellow,
            AgentState::Stopped => r.text@ == "Stopped"@ && r.style == TextStyle::Red,
            AgentState::Error => r.text@ == "Error"@ && r.style == TextStyle::Red,
        },
{
    match state {
        AgentState::Running => styled("Running", TextStyle::Green),
        AgentState::Starting => styled("Starting", TextStyle::Yellow),
        AgentState::Degraded => styled("Degraded", TextStyle::Yellow),
        AgentState::Stopped => styled("Stopped", TextStyle::Red),
        AgentState::Error => styled("Error", TextStyle::Red),
    }
}

/// The label of an overall health: healthy in green, degraded in yellow,
/// unhealthy in red.
pub fn health_label(state: HealthState) -> (r: StyledText)
    ensures
        match state {
            HealthState::Healthy => r.text@ == "Healthy"@ && r.style == TextStyle::Green,
            HealthState::Degraded => r.text@ == "Degraded"@ && r.style == TextStyle::Yellow,
            HealthState::Unhealthy => r.text@ == "Unhealthy"@ && r.style == TextStyle::Red,
        },
{
    match state {
        HealthState::Healthy => styled("Healthy", TextStyle::Green),
        HealthState::Degraded => styled("Degraded", TextStyle::Yellow),
        HealthState::Unhealthy => styled("Unhealthy", TextStyle::Red),
    }
}

/// A two-way label: the first text in green when the condition holds, the
/// second in red otherwise.
pub fn yes_no_label(ok: bool, yes: &str, no: &str) -> (r: StyledText)
    ensures
        ok ==> r.text@ == yes@ && r.style == TextStyle::Green,
        !ok ==> r.text@ == no@ && r.style == TextStyle::Red,
{
    if ok {
        styled(yes, TextStyle::Green)
    } else {
        styled(no, TextStyle::Red)
    }
}

} // verus!
