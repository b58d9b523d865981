//! Terminal-use input ownership: who receives keyboard input (the PTY, the
//! agent editor, or nobody yet) and what an interrupt does.
use vstd::prelude::*;

verus! {

/// Why the user holds control of an agent-requested command.
#[derive(Clone, Debug, PartialEq, Eq)]
pub enum UserTakeOverReason {
    /// The user took control by hand.
    Manual,
    /// The user stopped the agent.
    Stop { should_auto_resume: bool },
    /// The agent handed control to the user, saying why.
    TransferFromAgent { reason: String },
}

/// Who drives a long-running command.
#[derive(Clone, Debug, PartialEq, Eq)]
pub enum LongRunningCommandControlState {
    /// The agent drives it; `is_blocked` when it waits on the user.
    Agent { is_blocked: bool, should_hide_responses: bool },
    /// The user drives it.
    User { reason: UserTakeOverReason },
}

/// What an interrupt key does while a command runs.
#[derive(Clone, Copy, Debug, Eq, PartialEq, Structural)]
pub enum TerminalUseInterruptAction {
    TakeControl,
    InterruptCommand,
}

/// Where ordinary input goes.
#[derive(Clone, Copy, Debug, Eq, PartialEq, Structural)]
pub enum TuiInputTarget {
    /// No editable destination is ready yet (bootstrap, or waiting for the
    /// first prompt): submission is disabled and input is not forwarded.
    Disabled,
    /// The foreground terminal process owns input.
    Pty,
    /// The shell is at an ordinary prompt; the agent editor owns input.
    AgentEditor,
}

impl TuiInputTarget {
    /// Whether the agent editor receives input and may submit.
    pub fn agent_editor_owns_input(self) -> (owns: bool)
        ensures
            owns == (self == TuiInputTarget::AgentEditor),
    {
        match self {
            TuiInputTarget::AgentEditor => true,
            _ => false,
        }
    }

    /// Whether the foreground process receives input.
    pub fn pty_owns_input(self) -> (owns: bool)
        ensures
            owns == (self == TuiInputTarget::Pty),
    {
        match self {
            TuiInputTarget::Pty => true,
            _ => false,
        }
    }
}

/// The input target for a terminal state.
pub open spec fn spec_input_target(
    alt_screen_active: bool,
    script_execution: bool,
    startup_script_visible: bool,
    bootstrap_precmd_done: bool,
    inline_process_owns_input: bool,
) -> TuiInputTarget {
    if alt_screen_active || (script_execution && startup_script_visible)
        || inline_process_owns_input {
        TuiInputTarget::Pty
    } else if !bootstrap_precmd_done {
        TuiInputTarget::Disabled
    } else {
        TuiInputTarget::AgentEditor
    }
}

/// Routes input: the PTY owns it on the alternate screen, during a visible
/// startup script, or while a user-controlled command runs inline; otherwise
/// input is disabled until the bootstrap prompt, then the editor owns it.
pub fn tui_input_target_for_state(
    alt_screen_active: bool,
    script_execution: bool,
    startup_script_visible: bool,
    bootstrap_precmd_done: bool,
    inline_process_owns_input: bool,
) -> (target: TuiInputTarget)
    ensures
        target == spec_input_target(
            alt_screen_active,
            script_execution,
            startup_script_visible,
            bootstrap_precmd_done,
            inline_process_owns_input,
        ),
{
    if alt_screen_active || (script_execution && startup_script_visible)
        || inline_process_owns_input {
        TuiInputTarget::Pty
    } else if !bootstrap_precmd_done {
        TuiInputTarget::Disabled
    } else {
        TuiInputTarget::AgentEditor
    }
}

/// The interrupt action for a command's control state.
pub open spec fn spec_interrupt_action(
    control_state: Option<LongRunningCommandControlState>,
    process_owns_input: bool,
) -> Option<TerminalUseInterruptAction> {
    match control_state {
        Some(LongRunningCommandControlState::Agent { .. }) => Some(
            TerminalUseInterruptAction::TakeControl,
        ),
        Some(LongRunningCommandControlState::User { .. }) => Some(
            TerminalUseInterruptAction::InterruptCommand,
        ),
        None => if process_owns_input {
            Some(TerminalUseInterruptAction::InterruptCommand)
        } else {
            None
        },
    }
}

/// What an interrupt does: take control from an agent-driven command,
/// interrupt a user-driven one or a foreground process, else nothing.
pub fn terminal_use_interrupt_action(
    control_state: Option<&LongRunningCommandControlState>,
    process_owns_input: bool,
) -> (action: Option<TerminalUseInterruptAction>)
    ensures
        action == spec_interrupt_action(
            match control_state {
                Some(s) => Some(*s),
                None => None,
            },
            process_owns_input,
        ),
{
    match control_state {
        Some(LongRunningCommandControlState::Agent { .. }) => Some(
            TerminalUseInterruptAction::TakeControl,
        ),
        Some(LongRunningCommandControlState::User { .. }) => Some(
            TerminalUseInterruptAction::InterruptCommand,
        ),
        None => if process_owns_input {
            Some(TerminalUseInterruptAction::InterruptCommand)
        } else {
            None
        },
    }
}

/// What the input-ownership rule reads of the active block.
#[derive(Clone, Copy, Debug)]
pub struct RunningCommandFacts {
    pub is_active_and_long_running: bool,
    pub is_bootstrapped: bool,
    pub is_in_band_command_block: bool,
    pub is_agent_driving_command: bool,
    pub is_agent_tagged_in: bool,
}

/// Whether a running inline command, rather than the editor or the agent,
/// owns keyboard input: it is long-running, bootstrapped, not an in-band
/// command, and neither driven by nor tagged in with the agent.
pub fn user_controls_running_command(block: &RunningCommandFacts) -> (owns: bool)
    ensures
        owns == (block.is_active_and_long_running && block.is_bootstrapped
            && !block.is_in_band_command_block && !block.is_agent_driving_command
            && !block.is_agent_tagged_in),
{
    block.is_active_and_long_running && block.is_bootstrapped && !block.is_in_band_command_block
        && !block.is_agent_driving_command && !block.is_agent_tagged_in
}

/// Until the bootstrap prompt the agent editor never owns input, so nothing
/// can be submitted; and a user-controlled inline command always receives
/// input, whatever the bootstrap stage.
pub proof fn law_bootstrap_blocks_submission(
    alt_screen_active: bool,
    script_execution: bool,
    startup_script_visible: bool,
    bootstrap_precmd_done: bool,
    inline_process_owns_input: bool,
)
    ensures
        ({
            let target = spec_input_target(
                alt_screen_active,
                script_execution,
                startup_script_visible,
                bootstrap_precmd_done,
                inline_process_owns_input,
            );
            &&& (!bootstrap_precmd_done ==> target != TuiInputTarget::AgentEditor)
            &&& (inline_process_owns_input ==> target == TuiInputTarget::Pty)
        }),
{
}

/// An interrupt during an agent-driven command always hands control to the
/// user, never kills the command.
pub proof fn law_interrupt_takes_control_from_agent(
    is_blocked: bool,
    should_hide_responses: bool,
    process_owns_input: bool,
)
    ensures
        spec_interrupt_action(
            Some(LongRunningCommandControlState::Agent { is_blocked, should_hide_responses }),
            process_owns_input,
        ) == Some(TerminalUseInterruptAction::TakeControl),
{
}

} // verus!
