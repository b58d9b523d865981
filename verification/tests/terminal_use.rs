use warp_tui::terminal_use::{
    terminal_use_interrupt_action, tui_input_target_for_state, user_controls_running_command,
    LongRunningCommandControlState, RunningCommandFacts, TerminalUseInterruptAction,
    TuiInputTarget, UserTakeOverReason,
};

#[test]
fn submit_policy_blocks_bootstrap_but_allows_ready_prompt() {
    assert!(
        !tui_input_target_for_state(false, false, false, false, false).agent_editor_owns_input(),
        "bootstrap submission must remain disabled"
    );
    assert!(
        tui_input_target_for_state(false, false, false, true, false).agent_editor_owns_input(),
        "the normal prompt must accept submission"
    );
}

#[test]
fn shell_startup_routes_input_by_bootstrap_stage() {
    assert_eq!(
        tui_input_target_for_state(false, true, false, false, false),
        TuiInputTarget::Disabled,
        "silent startup-script execution should keep the bootstrap editor visible",
    );
    assert_eq!(
        tui_input_target_for_state(false, true, true, false, false),
        TuiInputTarget::Pty,
        "visible startup-script output should accept interactive PTY input",
    );
}

#[test]
fn terminal_use_interrupt_follows_takeover_then_process_interrupt_policy() {
    let agent = LongRunningCommandControlState::Agent {
        is_blocked: false,
        should_hide_responses: false,
    };
    assert_eq!(
        terminal_use_interrupt_action(Some(&agent), true),
        Some(TerminalUseInterruptAction::TakeControl)
    );

    let stopped = LongRunningCommandControlState::User {
        reason: UserTakeOverReason::Stop {
            should_auto_resume: true,
        },
    };
    assert_eq!(
        terminal_use_interrupt_action(Some(&stopped), true),
        Some(TerminalUseInterruptAction::InterruptCommand)
    );

    let manual = LongRunningCommandControlState::User {
        reason: UserTakeOverReason::Manual,
    };
    assert_eq!(
        terminal_use_interrupt_action(Some(&manual), true),
        Some(TerminalUseInterruptAction::InterruptCommand)
    );

    let transferred = LongRunningCommandControlState::User {
        reason: UserTakeOverReason::TransferFromAgent {
            reason: "enter password".to_owned(),
        },
    };
    assert_eq!(
        terminal_use_interrupt_action(Some(&transferred), true),
        Some(TerminalUseInterruptAction::InterruptCommand)
    );

    assert_eq!(
        terminal_use_interrupt_action(None, true),
        Some(TerminalUseInterruptAction::InterruptCommand)
    );
}

#[test]
fn no_interrupt_without_command_or_process() {
    assert_eq!(terminal_use_interrupt_action(None, false), None);
}

#[test]
fn alt_screen_and_inline_commands_own_input() {
    assert_eq!(
        tui_input_target_for_state(true, false, false, false, false),
        TuiInputTarget::Pty
    );
    assert_eq!(
        tui_input_target_for_state(false, false, false, true, true),
        TuiInputTarget::Pty
    );
    assert!(tui_input_target_for_state(true, false, false, true, false).pty_owns_input());
    assert!(!TuiInputTarget::AgentEditor.pty_owns_input());
    assert!(!TuiInputTarget::Disabled.agent_editor_owns_input());
}

#[test]
fn running_command_input_ownership() {
    let user = RunningCommandFacts {
        is_active_and_long_running: true,
        is_bootstrapped: true,
        is_in_band_command_block: false,
        is_agent_driving_command: false,
        is_agent_tagged_in: false,
    };
    assert!(user_controls_running_command(&user));
    let tagged = RunningCommandFacts {
        is_agent_tagged_in: true,
        ..user
    };
    assert!(!user_controls_running_command(&tagged));
    let agent = RunningCommandFacts {
        is_agent_driving_command: true,
        ..user
    };
    assert!(!user_controls_running_command(&agent));
    let finished = RunningCommandFacts {
        is_active_and_long_running: false,
        ..user
    };
    assert!(!user_controls_running_command(&finished));
}

fn ordinary_user_command() -> RunningCommandFacts {
    RunningCommandFacts {
        is_active_and_long_running: true,
        is_bootstrapped: true,
        is_in_band_command_block: false,
        is_agent_driving_command: false,
        is_agent_tagged_in: false,
    }
}

#[test]
fn ordinary_long_running_command_owns_inline_input() {
    assert!(user_controls_running_command(&ordinary_user_command()));
}

#[test]
fn agent_command_owns_input_only_after_user_takeover() {
    // Requested by the agent, then monitored by it: the agent drives it.
    let agent_driven = RunningCommandFacts {
        is_agent_driving_command: true,
        ..ordinary_user_command()
    };
    assert!(!user_controls_running_command(&agent_driven));
    // After the user takes over, the agent no longer drives it.
    assert!(user_controls_running_command(&ordinary_user_command()));
}

#[test]
fn tagged_in_agent_keeps_editor_input_visible() {
    let tagged = RunningCommandFacts {
        is_agent_tagged_in: true,
        ..ordinary_user_command()
    };
    assert!(!user_controls_running_command(&tagged));
}
