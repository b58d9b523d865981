use warp_tui::session_control::{
    export_file_success_message, focus_current_owner, interrupt_outcome, FocusOwner,
    InterruptOutcome, TransientHint, TransientHintTone,
};
use warp_tui::terminal_use::{TerminalUseInterruptAction, TuiInputTarget};

#[test]
fn show_displays_the_notice() {
    let mut hint = TransientHint::default();
    assert_eq!(hint.current(), None);
    hint.show("notice".to_owned());
    assert_eq!(hint.current(), Some(("notice", TransientHintTone::Muted)));
}

#[test]
fn success_hint_uses_success_tone() {
    let mut hint = TransientHint::default();
    hint.show_success("copied".to_owned());
    assert_eq!(hint.current(), Some(("copied", TransientHintTone::Success)));
}

#[test]
fn show_supersedes_the_earlier_notice() {
    let mut hint = TransientHint::default();
    hint.show("first".to_owned());
    hint.show("second".to_owned());
    assert_eq!(hint.current(), Some(("second", TransientHintTone::Muted)));
}

#[test]
fn expiry_returns_to_no_notice() {
    let mut hint = TransientHint::new();
    let generation = hint.show_error("failed".to_owned());
    assert_eq!(hint.current(), Some(("failed", TransientHintTone::Error)));
    hint.expire(generation);
    assert_eq!(hint.current(), None);
}

#[test]
fn superseded_expiry_leaves_the_newer_notice() {
    let mut hint = TransientHint::new();
    let first = hint.show("first".to_owned());
    let second = hint.show_success("second".to_owned());
    assert_ne!(first, second);
    hint.expire(first);
    assert_eq!(hint.current(), Some(("second", TransientHintTone::Success)));
    hint.expire(second);
    assert_eq!(hint.current(), None);
}

#[test]
fn focus_goes_to_the_input_owner() {
    assert_eq!(
        focus_current_owner(TuiInputTarget::Pty, true, true),
        (FocusOwner::SessionView, false)
    );
    assert_eq!(
        focus_current_owner(TuiInputTarget::AgentEditor, true, true),
        (FocusOwner::BlockingChild, false)
    );
    assert_eq!(
        focus_current_owner(TuiInputTarget::Disabled, false, true),
        (FocusOwner::SessionView, true)
    );
    assert_eq!(
        focus_current_owner(TuiInputTarget::AgentEditor, false, false),
        (FocusOwner::InputEditor, false)
    );
}

#[test]
fn interrupt_priorities() {
    assert_eq!(
        interrupt_outcome(true, true, Some(TerminalUseInterruptAction::TakeControl), true, true),
        InterruptOutcome::CancelRestore
    );
    assert_eq!(
        interrupt_outcome(false, true, None, false, true),
        InterruptOutcome::Terminate
    );
    assert_eq!(
        interrupt_outcome(false, false, Some(TerminalUseInterruptAction::InterruptCommand), true, true),
        InterruptOutcome::TerminalUse(TerminalUseInterruptAction::InterruptCommand)
    );
    assert_eq!(
        interrupt_outcome(false, false, None, true, true),
        InterruptOutcome::Terminate
    );
    assert_eq!(
        interrupt_outcome(false, false, None, false, true),
        InterruptOutcome::CancelConversation
    );
    assert_eq!(
        interrupt_outcome(false, false, None, false, false),
        InterruptOutcome::ClearInput
    );
}

#[test]
fn export_message_notes_overwrites() {
    assert_eq!(
        export_file_success_message("/tmp/c.md", false),
        "Conversation exported to /tmp/c.md"
    );
    assert_eq!(
        export_file_success_message("/tmp/c.md", true),
        "Conversation exported to /tmp/c.md (overwrote existing file)"
    );
}

use warp_tui::session_control::{conversation_switch, session_keymap_flags, ConversationSwitch};

#[test]
fn keymap_flags_follow_input_ownership() {
    let flags = session_keymap_flags(true, true, false, true, false, true, false, true);
    assert!(flags.orchestration_tabs_focused);
    assert!(flags.can_hand_back_control);
    assert!(flags.keyboard_enhancement_available);
    assert!(flags.composer_owns_input);
    assert!(flags.attachments_available);
    assert!(!flags.can_cancel_restore);

    let menu_open = session_keymap_flags(true, true, true, false, true, false, true, true);
    assert!(!menu_open.composer_owns_input);
    assert!(!menu_open.attachments_available);
    assert!(menu_open.can_cancel_restore);
    assert!(menu_open.plan_toggle_available);

    let pty = session_keymap_flags(true, false, false, false, false, false, false, true);
    assert!(!pty.orchestration_tabs_focused);
    assert!(!pty.composer_owns_input);
}

#[test]
fn switching_conversations_is_gated() {
    assert_eq!(
        conversation_switch(true, true, false, true, Some(7), None),
        ConversationSwitch::Refuse("Another conversation is already loading.".to_owned())
    );
    assert_eq!(
        conversation_switch(false, false, false, true, Some(7), None),
        ConversationSwitch::Refuse(
            "Cannot switch conversations while a command is in progress.".to_owned()
        )
    );
    assert_eq!(
        conversation_switch(false, true, true, true, Some(7), None),
        ConversationSwitch::Refuse(
            "Cannot switch conversations while the current conversation is in progress.".to_owned()
        )
    );
    assert_eq!(
        conversation_switch(false, true, false, false, Some(7), None),
        ConversationSwitch::Refuse("That conversation is no longer available.".to_owned())
    );
    assert_eq!(
        conversation_switch(false, true, false, true, None, None),
        ConversationSwitch::Refuse("That conversation is no longer available.".to_owned())
    );
    assert_eq!(
        conversation_switch(false, true, false, true, Some(7), Some("tok".to_owned())),
        ConversationSwitch::RestoreLocal(7)
    );
    assert_eq!(
        conversation_switch(false, true, false, true, None, Some("tok".to_owned())),
        ConversationSwitch::RestoreServer("tok".to_owned())
    );
}
