//! Status lines shown beside a command that an agent monitors: who is in
//! control, the key that changes it, the latest instruction, and the time
//! left until the next output check.
use vstd::prelude::*;
use crate::terminal_use::{LongRunningCommandControlState, UserTakeOverReason};
use crate::text::{decimal, push_chars, push_decimal};

verus! {

/// The status line for a monitored command.
pub open spec fn spec_terminal_use_status_text(
    control_state: LongRunningCommandControlState,
    command_finished: bool,
    output_streaming: bool,
) -> Seq<char> {
    if command_finished {
        "Command finished"@
    } else {
        match control_state {
            LongRunningCommandControlState::Agent { is_blocked, .. } => if is_blocked {
                "Agent needs your input"@
            } else if output_streaming {
                "Agent is monitoring command · ctrl-c to take control"@
            } else {
                "Agent waiting for instructions · ctrl-c to take control"@
            },
            LongRunningCommandControlState::User { reason } => match reason {
                UserTakeOverReason::Manual => "User is in control · ctrl-g to hand back"@,
                UserTakeOverReason::Stop { .. } => "Agent paused · user is in control · ctrl-g to hand back"@,
                UserTakeOverReason::TransferFromAgent { .. } => "Agent handed control to you · ctrl-g to hand back"@,
            },
        }
    }
}

/// The status line for a monitored command: finished, or who is in control
/// and which key changes that. A blocked agent shows only that it needs the
/// user's input.
pub fn terminal_use_status_text(
    control_state: &LongRunningCommandControlState,
    command_finished: bool,
    output_streaming: bool,
) -> (text: String)
    ensures
        text@ == spec_terminal_use_status_text(*control_state, command_finished, output_streaming),
{
    let text: &str = if command_finished {
        "Command finished"
    } else {
        match control_state {
            LongRunningCommandControlState::Agent { is_blocked, .. } => if *is_blocked {
                "Agent needs your input"
            } else if output_streaming {
                "Agent is monitoring command · ctrl-c to take control"
            } else {
                "Agent waiting for instructions · ctrl-c to take control"
            },
            LongRunningCommandControlState::User { reason } => match reason {
                UserTakeOverReason::Manual => "User is in control · ctrl-g to hand back",
                UserTakeOverReason::Stop { .. } => "Agent paused · user is in control · ctrl-g to hand back",
                UserTakeOverReason::TransferFromAgent { .. } => "Agent handed control to you · ctrl-g to hand back",
            },
        }
    };
    let mut out = String::new();
    push_chars(&mut out, text);
    out
}

/// The instruction to show: the controller's latest one wins over the one
/// recorded in the conversation's exchanges.
pub fn resolve_latest_instruction(
    controller_instruction: Option<String>,
    exchange_instruction: Option<String>,
) -> (instruction: Option<String>)
    ensures
        instruction == (match controller_instruction {
            Some(i) => Some(i),
            None => exchange_instruction,
        }),
{
    match controller_instruction {
        Some(i) => Some(i),
        None => exchange_instruction,
    }
}

/// The countdown suffix for `remaining_secs` whole seconds until the next
/// check: seconds below a minute, whole minutes (rounded down) above.
pub open spec fn spec_next_check_remaining(remaining_secs: u64) -> Seq<char> {
    if remaining_secs < 60 {
        " · Check in "@ + decimal(remaining_secs as nat) + "s"@
    } else {
        " · Check in "@ + decimal((remaining_secs / 60) as nat) + "m"@
    }
}

/// Formats the time left until the next output check.
pub fn format_next_check_remaining(remaining_secs: u64) -> (text: String)
    ensures
        text@ == spec_next_check_remaining(remaining_secs),
{
    let mut out = String::new();
    push_chars(&mut out, " · Check in ");
    if remaining_secs < 60 {
        push_decimal(&mut out, remaining_secs);
        push_chars(&mut out, "s");
    } else {
        push_decimal(&mut out, remaining_secs / 60);
        push_chars(&mut out, "m");
    }
    out
}

} // verus!
