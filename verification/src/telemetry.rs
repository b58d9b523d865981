//! Telemetry events of the background auto-updater: their names,
//! descriptions, and whether they may carry user content.
use vstd::prelude::*;

verus! {

/// Health signals for the auto-updater, sent when the outcome of a
/// background update check changes.
pub enum TuiAutoupdateTelemetryEvent {
    /// A background update check completed: `outcome` is `up_to_date`,
    /// `installed`, `pending_restart`, or `locked`; `version` the relevant
    /// version.
    CheckCompleted { outcome: String, version: Option<String> },
    /// A background update check failed.
    CheckFailed { error: String },
}

/// When an event may be sent.
#[derive(Clone, Copy, Debug, PartialEq, Eq, Structural)]
pub enum EnablementState {
    Always,
}

impl TuiAutoupdateTelemetryEvent {
    /// The event's name.
    pub fn name(&self) -> (name: &'static str)
        ensures
            name@ == match *self {
                TuiAutoupdateTelemetryEvent::CheckCompleted { .. } => "TUI Autoupdate Check Completed"@,
                TuiAutoupdateTelemetryEvent::CheckFailed { .. } => "TUI Autoupdate Check Failed"@,
            },
    {
        match self {
            TuiAutoupdateTelemetryEvent::CheckCompleted { .. } => "TUI Autoupdate Check Completed",
            TuiAutoupdateTelemetryEvent::CheckFailed { .. } => "TUI Autoupdate Check Failed",
        }
    }

    /// The event's description.
    pub fn description(&self) -> (description: &'static str)
        ensures
            description@ == match *self {
                TuiAutoupdateTelemetryEvent::CheckCompleted { .. } => "A warp-tui background update check completed with a new outcome"@,
                TuiAutoupdateTelemetryEvent::CheckFailed { .. } => "A warp-tui background update check failed"@,
            },
    {
        match self {
            TuiAutoupdateTelemetryEvent::CheckCompleted { .. } => "A warp-tui background update check completed with a new outcome",
            TuiAutoupdateTelemetryEvent::CheckFailed { .. } => "A warp-tui background update check failed",
        }
    }

    /// Both events are always enabled.
    pub fn enablement_state(&self) -> (state: EnablementState)
        ensures
            state == EnablementState::Always,
    {
        EnablementState::Always
    }

    /// Whether the payload may hold user content: failure messages can embed
    /// install paths, which include the user's home directory.
    pub fn contains_ugc(&self) -> (ugc: bool)
        ensures
            ugc == (*self is CheckFailed),
    {
        match self {
            TuiAutoupdateTelemetryEvent::CheckCompleted { .. } => false,
            TuiAutoupdateTelemetryEvent::CheckFailed { .. } => true,
        }
    }
}

} // verus!
