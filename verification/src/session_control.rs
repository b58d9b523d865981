//! Decisions of the terminal session view: which element takes focus, what
//! an interrupt key does, the transient footer notice, and the export
//! confirmation message.
use vstd::prelude::*;
use crate::terminal_use::{TerminalUseInterruptAction, TuiInputTarget};
use crate::text::{is_blank, push_chars, trims_to_empty};

verus! {

/// The element that receives keyboard focus.
#[derive(Clone, Copy, Debug, PartialEq, Eq, Structural)]
pub enum FocusOwner {
    /// A blocking child (such as a permission prompt).
    BlockingChild,
    /// The session view itself (the PTY or the orchestration tabs).
    SessionView,
    /// The agent input editor.
    InputEditor,
}

/// Focus and the orchestration-tab focus flag after focusing the current
/// input owner.
pub open spec fn spec_focus_current_owner(
    target: TuiInputTarget,
    has_blocking_child: bool,
    orchestration_tabs_focused: bool,
) -> (FocusOwner, bool) {
    match target {
        TuiInputTarget::Pty => (FocusOwner::SessionView, false),
        _ => if has_blocking_child {
            (FocusOwner::BlockingChild, false)
        } else if orchestration_tabs_focused {
            (FocusOwner::SessionView, true)
        } else {
            (FocusOwner::InputEditor, false)
        },
    }
}

/// Focuses whoever owns input: the session view for the PTY; otherwise a
/// blocking child first, then focused orchestration tabs, then the input
/// editor. Returns the focus owner and whether the tabs stay focused.
pub fn focus_current_owner(
    target: TuiInputTarget,
    has_blocking_child: bool,
    orchestration_tabs_focused: bool,
) -> (focus: (FocusOwner, bool))
    ensures
        focus == spec_focus_current_owner(target, has_blocking_child, orchestration_tabs_focused),
{
    match target {
        TuiInputTarget::Pty => (FocusOwner::SessionView, false),
        TuiInputTarget::Disabled | TuiInputTarget::AgentEditor => {
            if has_blocking_child {
                (FocusOwner::BlockingChild, false)
            } else if orchestration_tabs_focused {
                (FocusOwner::SessionView, true)
            } else {
                (FocusOwner::InputEditor, false)
            }
        },
    }
}

/// What one interrupt key press does.
#[derive(Clone, Copy, Debug, PartialEq, Eq, Structural)]
pub enum InterruptOutcome {
    /// Cancel the conversation restore in flight.
    CancelRestore,
    /// Exit the application.
    Terminate,
    /// Take control of, or interrupt, the running command (and disarm the
    /// exit confirmation).
    TerminalUse(TerminalUseInterruptAction),
    /// Cancel the running conversation and arm the exit confirmation.
    CancelConversation,
    /// Clear the input and arm the exit confirmation.
    ClearInput,
}

/// The outcome of an interrupt press.
pub open spec fn spec_interrupt_outcome(
    restore_loading: bool,
    restore_failed: bool,
    terminal_use_action: Option<TerminalUseInterruptAction>,
    exit_confirmation_armed: bool,
    conversation_cancellable: bool,
) -> InterruptOutcome {
    if restore_loading {
        InterruptOutcome::CancelRestore
    } else if restore_failed {
        InterruptOutcome::Terminate
    } else if terminal_use_action is Some {
        InterruptOutcome::TerminalUse(terminal_use_action->0)
    } else if exit_confirmation_armed {
        InterruptOutcome::Terminate
    } else if conversation_cancellable {
        InterruptOutcome::CancelConversation
    } else {
        InterruptOutcome::ClearInput
    }
}

/// Decides an interrupt press: a loading restore is cancelled; after a
/// failed restore the application exits; a monitored command is taken over
/// or interrupted; a second press within the confirmation window exits;
/// otherwise the running conversation is cancelled, or the input cleared.
pub fn interrupt_outcome(
    restore_loading: bool,
    restore_failed: bool,
    terminal_use_action: Option<TerminalUseInterruptAction>,
    exit_confirmation_armed: bool,
    conversation_cancellable: bool,
) -> (outcome: InterruptOutcome)
    ensures
        outcome == spec_interrupt_outcome(
            restore_loading,
            restore_failed,
            terminal_use_action,
            exit_confirmation_armed,
            conversation_cancellable,
        ),
{
    if restore_loading {
        return InterruptOutcome::CancelRestore;
    }
    if restore_failed {
        return InterruptOutcome::Terminate;
    }
    if let Some(action) = terminal_use_action {
        return InterruptOutcome::TerminalUse(action);
    }
    if exit_confirmation_armed {
        return InterruptOutcome::Terminate;
    }
    if conversation_cancellable {
        InterruptOutcome::CancelConversation
    } else {
        InterruptOutcome::ClearInput
    }
}

/// The look of a transient footer notice.
#[derive(Clone, Copy, Debug, Eq, PartialEq, Structural)]
pub enum TransientHintTone {
    Muted,
    Success,
    Error,
}

/// The generation after `g`: the next notice's token (wrapping, so it always
/// differs from `g`).
pub open spec fn next_generation(g: u64) -> u64 {
    if g == u64::MAX {
        0
    } else {
        (g + 1) as u64
    }
}

/// A short-lived footer notice that replaces the persistent hint until its
/// expiry; a newer notice supersedes the current one. Each notice gets a
/// generation, handed back when it is shown; its expiry names that
/// generation, so a superseded notice's expiry leaves the newer one shown.
pub struct TransientHint {
    content: Option<(String, TransientHintTone)>,
    generation: u64,
}

impl TransientHint {
    /// The notice shown, if any.
    pub closed spec fn shown(self) -> Option<(Seq<char>, TransientHintTone)> {
        match self.content {
            Some((text, tone)) => Some((text@, tone)),
            None => None,
        }
    }

    /// The generation of the latest notice shown.
    pub closed spec fn generation(self) -> u64 {
        self.generation
    }

    /// What is shown once the expiry of generation `g` fires: nothing when
    /// `g` is the current notice's generation, else the current notice.
    pub open spec fn shown_after_expiry(self, g: u64) -> Option<(Seq<char>, TransientHintTone)> {
        if g == self.generation() {
            None
        } else {
            self.shown()
        }
    }

    /// No notice.
    pub fn new() -> (hint: Self)
        ensures
            hint.shown() is None,
            hint.generation() == 0,
    {
        TransientHint { content: None, generation: 0 }
    }

    /// Shows `text` with `tone`, superseding any current notice, and hands
    /// back the new notice's generation for its expiry.
    pub fn show_with_tone(&mut self, text: String, tone: TransientHintTone) -> (generation: u64)
        ensures
            final(self).shown() == Some((text@, tone)),
            final(self).generation() == next_generation(old(self).generation()),
            generation == final(self).generation(),
    {
        self.content = Some((text, tone));
        self.generation = if self.generation == u64::MAX {
            0
        } else {
            self.generation + 1
        };
        self.generation
    }

    /// Shows a muted notice and hands back its generation.
    pub fn show(&mut self, text: String) -> (generation: u64)
        ensures
            final(self).shown() == Some((text@, TransientHintTone::Muted)),
            final(self).generation() == next_generation(old(self).generation()),
            generation == final(self).generation(),
    {
        self.show_with_tone(text, TransientHintTone::Muted)
    }

    /// Shows success feedback and hands back its generation.
    pub fn show_success(&mut self, text: String) -> (generation: u64)
        ensures
            final(self).shown() == Some((text@, TransientHintTone::Success)),
            final(self).generation() == next_generation(old(self).generation()),
            generation == final(self).generation(),
    {
        self.show_with_tone(text, TransientHintTone::Success)
    }

    /// Shows error feedback and hands back its generation.
    pub fn show_error(&mut self, text: String) -> (generation: u64)
        ensures
            final(self).shown() == Some((text@, TransientHintTone::Error)),
            final(self).generation() == next_generation(old(self).generation()),
            generation == final(self).generation(),
    {
        self.show_with_tone(text, TransientHintTone::Error)
    }

    /// The display time of the notice of generation `generation` ran out:
    /// when it is still the current notice, the persistent hint returns;
    /// a superseded notice's expiry changes nothing.
    pub fn expire(&mut self, generation: u64)
        ensures
            final(self).shown() == old(self).shown_after_expiry(generation),
            final(self).generation() == old(self).generation(),
    {
        if generation == self.generation {
            self.content = None;
        }
    }

    /// The notice shown, if any.
    pub fn current(&self) -> (notice: Option<(&str, TransientHintTone)>)
        ensures
            match self.shown() {
                Some((text, tone)) => notice matches Some((t, k)) && t@ == text && k == tone,
                None => notice is None,
            },
    {
        match &self.content {
            Some((text, tone)) => Some((text.as_str(), *tone)),
            None => None,
        }
    }
}

impl Default for TransientHint {
    fn default() -> (hint: Self)
        ensures
            hint.shown() is None,
            hint.generation() == 0,
    {
        TransientHint::new()
    }
}

/// A notice's expiry clears it only while it is the current notice: once a
/// newer notice has been shown (whose generation follows the superseded
/// one's, and so differs from it), the superseded expiry leaves the newer
/// notice shown, and the current notice's own expiry clears it.
pub proof fn law_superseded_expiry_keeps_newer(hint: TransientHint, superseded: u64)
    ensures
        next_generation(superseded) != superseded,
        hint.generation() == next_generation(superseded) ==> hint.shown_after_expiry(superseded)
            == hint.shown(),
        hint.generation() != superseded ==> hint.shown_after_expiry(superseded) == hint.shown(),
        hint.shown_after_expiry(hint.generation()) is None,
{
}

/// The confirmation after exporting a conversation to `path`, noting when
/// an existing file was overwritten.
pub fn export_file_success_message(path: &str, overwrote_existing: bool) -> (message: String)
    ensures
        message@ == "Conversation exported to "@ + path@ + (if overwrote_existing {
            " (overwrote existing file)"@
        } else {
            ""@
        }),
{
    let mut message = String::new();
    push_chars(&mut message, "Conversation exported to ");
    push_chars(&mut message, path);
    if overwrote_existing {
        push_chars(&mut message, " (overwrote existing file)");
    }
    proof {
        reveal_strlit("");
    }
    assert(message@ + ""@ == message@);
    message
}


/// Where a submitted editor buffer goes.
#[derive(Clone, Copy, Debug, PartialEq, Eq, Structural)]
pub enum SubmissionRoute {
    /// Dropped: the editor does not own input, or a restore is in flight.
    Ignore,
    /// Taken as the prompt for the monitored command (and shell mode ends).
    TerminalUsePrompt,
    /// Run as a shell command.
    ShellCommand,
    /// Parsed for slash commands, else sent to the agent.
    AgentInput,
}

/// Routes a submission: a stale editor frame (the editor no longer owns
/// input) or a pending restore drops it; a monitored command takes it as
/// its prompt; shell mode runs it; otherwise it is agent input.
pub fn submission_route(
    agent_editor_owns_input: bool,
    restore_idle: bool,
    terminal_use_prompt_accepted: bool,
    shell_mode: bool,
) -> (route: SubmissionRoute)
    ensures
        route == (if !agent_editor_owns_input || !restore_idle {
            SubmissionRoute::Ignore
        } else if terminal_use_prompt_accepted {
            SubmissionRoute::TerminalUsePrompt
        } else if shell_mode {
            SubmissionRoute::ShellCommand
        } else {
            SubmissionRoute::AgentInput
        }),
{
    if !agent_editor_owns_input || !restore_idle {
        SubmissionRoute::Ignore
    } else if terminal_use_prompt_accepted {
        SubmissionRoute::TerminalUsePrompt
    } else if shell_mode {
        SubmissionRoute::ShellCommand
    } else {
        SubmissionRoute::AgentInput
    }
}

/// What running a shell-mode command does.
#[derive(Clone, Copy, Debug, PartialEq, Eq, Structural)]
pub enum ShellSubmission {
    /// Nothing: the command is blank, or there is no session to run it in.
    Ignore,
    /// Refused with a notice: the shell is still bootstrapping or a
    /// long-running command holds it.
    RejectBusy,
    /// Run the command as typed, cancelling the conversation in progress.
    Execute { cancel_conversation: bool },
}

/// Decides a shell-mode submission: blank commands and missing sessions do
/// nothing; a busy PTY refuses it; otherwise it runs (untrimmed), and a
/// conversation in progress is cancelled.
pub fn shell_submission(
    command: &str,
    has_session: bool,
    is_bootstrapped: bool,
    active_is_long_running: bool,
    active_is_in_band: bool,
    conversation_in_progress: bool,
) -> (decision: ShellSubmission)
    ensures
        decision == (if is_blank(command@) || !has_session {
            ShellSubmission::Ignore
        } else if !is_bootstrapped || (active_is_long_running && !active_is_in_band) {
            ShellSubmission::RejectBusy
        } else {
            ShellSubmission::Execute { cancel_conversation: conversation_in_progress }
        }),
{
    if trims_to_empty(command) || !has_session {
        return ShellSubmission::Ignore;
    }
    if !is_bootstrapped || (active_is_long_running && !active_is_in_band) {
        return ShellSubmission::RejectBusy;
    }
    ShellSubmission::Execute { cancel_conversation: conversation_in_progress }
}

/// The notice shown when a shell command is refused.
pub fn command_already_running_hint() -> (hint: String)
    ensures
        hint@ == "cannot run — command already running"@,
{
    let mut hint = String::new();
    push_chars(&mut hint, "cannot run — command already running");
    hint
}

/// The input as the agent prompt, unless it is blank.
pub fn raw_prompt_if_not_blank(input: &str) -> (prompt: Option<&str>)
    ensures
        is_blank(input@) ==> prompt is None,
        !is_blank(input@) ==> prompt == Some(input),
{
    if trims_to_empty(input) {
        None
    } else {
        Some(input)
    }
}


/// The keymap flags the session view contributes.
#[derive(Clone, Copy, Debug, PartialEq, Eq, Structural)]
pub struct SessionKeymapFlags {
    pub orchestration_tabs_focused: bool,
    pub can_cancel_restore: bool,
    pub can_hand_back_control: bool,
    pub plan_toggle_available: bool,
    pub keyboard_enhancement_available: bool,
    pub composer_owns_input: bool,
    pub attachments_available: bool,
}

/// The session's keymap flags: tab navigation while the tabs have focus and
/// the editor owns input; restore cancelling while one loads; handing back
/// a user-controlled command; toggling plans; the keyboard enhancement;
/// and, when the editor owns input with no suggestions menu showing, the
/// composer and (if the attachment bar shows) attachment bindings.
pub fn session_keymap_flags(
    orchestration_tabs_focused: bool,
    agent_editor_owns_input: bool,
    restore_loading: bool,
    has_user_controlled_target: bool,
    has_toggleable_plan: bool,
    keyboard_enhancement_supported: bool,
    suggestions_visible: bool,
    attachment_bar_shows: bool,
) -> (flags: SessionKeymapFlags)
    ensures
        flags == (SessionKeymapFlags {
            orchestration_tabs_focused: orchestration_tabs_focused && agent_editor_owns_input,
            can_cancel_restore: restore_loading,
            can_hand_back_control: has_user_controlled_target,
            plan_toggle_available: has_toggleable_plan,
            keyboard_enhancement_available: keyboard_enhancement_supported,
            composer_owns_input: agent_editor_owns_input && !suggestions_visible,
            attachments_available: agent_editor_owns_input && !suggestions_visible
                && attachment_bar_shows,
        }),
{
    let composer = agent_editor_owns_input && !suggestions_visible;
    SessionKeymapFlags {
        orchestration_tabs_focused: orchestration_tabs_focused && agent_editor_owns_input,
        can_cancel_restore: restore_loading,
        can_hand_back_control: has_user_controlled_target,
        plan_toggle_available: has_toggleable_plan,
        keyboard_enhancement_available: keyboard_enhancement_supported,
        composer_owns_input: composer,
        attachments_available: composer && attachment_bar_shows,
    }
}

/// What choosing a conversation from the list does.
#[derive(Clone, Debug, PartialEq, Eq)]
pub enum ConversationSwitch {
    /// Refused with a notice.
    Refuse(String),
    /// Restore the conversation stored locally under this id.
    RestoreLocal(u64),
    /// Restore the conversation with this server token.
    RestoreServer(String),
}

/// The notice that refuses a switch, if any.
pub open spec fn switch_refusal(
    restore_loading: bool,
    can_start_new_conversation: bool,
    current_conversation_busy: bool,
    entry_available: bool,
    has_identity: bool,
) -> Option<Seq<char>> {
    if restore_loading {
        Some("Another conversation is already loading."@)
    } else if !can_start_new_conversation {
        Some("Cannot switch conversations while a command is in progress."@)
    } else if current_conversation_busy {
        Some("Cannot switch conversations while the current conversation is in progress."@)
    } else if !entry_available || !has_identity {
        Some("That conversation is no longer available."@)
    } else {
        None
    }
}

/// Decides a switch to a listed conversation: refused while a restore
/// loads, while a command runs, while the current conversation is still in
/// progress, or when the entry is gone or has no identity; otherwise the
/// conversation is restored by its local id, else by its server token.
pub fn conversation_switch(
    restore_loading: bool,
    can_start_new_conversation: bool,
    current_conversation_busy: bool,
    entry_available: bool,
    local_id: Option<u64>,
    server_token: Option<String>,
) -> (switch: ConversationSwitch)
    ensures
        match switch_refusal(
            restore_loading,
            can_start_new_conversation,
            current_conversation_busy,
            entry_available,
            local_id is Some || server_token is Some,
        ) {
            Some(message) => switch matches ConversationSwitch::Refuse(m) && m@ == message,
            None => match local_id {
                Some(id) => switch == ConversationSwitch::RestoreLocal(id),
                None => switch matches ConversationSwitch::RestoreServer(t) && server_token matches Some(s)
                    && t@ == s@,
            },
        },
{
    let mut message = String::new();
    if restore_loading {
        push_chars(&mut message, "Another conversation is already loading.");
        return ConversationSwitch::Refuse(message);
    }
    if !can_start_new_conversation {
        push_chars(&mut message, "Cannot switch conversations while a command is in progress.");
        return ConversationSwitch::Refuse(message);
    }
    if current_conversation_busy {
        push_chars(
            &mut message,
            "Cannot switch conversations while the current conversation is in progress.",
        );
        return ConversationSwitch::Refuse(message);
    }
    if entry_available {
        match local_id {
            Some(id) => {
                return ConversationSwitch::RestoreLocal(id);
            },
            None => match server_token {
                Some(token) => {
                    return ConversationSwitch::RestoreServer(token);
                },
                None => {},
            },
        }
    }
    push_chars(&mut message, "That conversation is no longer available.");
    ConversationSwitch::Refuse(message)
}

/// An interrupt never exits while a restore is loading or a monitored
/// command can be taken over; exiting needs a failed restore or a second
/// press within the confirmation window.
pub proof fn law_interrupt_exits_only_when_confirmed(
    restore_loading: bool,
    restore_failed: bool,
    terminal_use_action: Option<TerminalUseInterruptAction>,
    exit_confirmation_armed: bool,
    conversation_cancellable: bool,
)
    ensures
        spec_interrupt_outcome(
            restore_loading,
            restore_failed,
            terminal_use_action,
            exit_confirmation_armed,
            conversation_cancellable,
        ) == InterruptOutcome::Terminate ==> !restore_loading && (restore_failed || (
        terminal_use_action is None && exit_confirmation_armed)),
{
}

/// The PTY never shares focus with the orchestration tabs, and a blocking
/// child always wins focus from the editor and the tabs.
pub proof fn law_focus_priority(
    target: TuiInputTarget,
    has_blocking_child: bool,
    orchestration_tabs_focused: bool,
)
    ensures
        target == TuiInputTarget::Pty ==> spec_focus_current_owner(
            target,
            has_blocking_child,
            orchestration_tabs_focused,
        ) == (FocusOwner::SessionView, false),
        target != TuiInputTarget::Pty && has_blocking_child ==> spec_focus_current_owner(
            target,
            has_blocking_child,
            orchestration_tabs_focused,
        ).0 == FocusOwner::BlockingChild,
{
}

} // verus!
