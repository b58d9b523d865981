//! What a terminal session pane shows: a restore screen, a full-screen
//! program, or the session column with its transcript, status rows, input
//! box and footer, and whether the foreground process receives input.
use vstd::prelude::*;
use crate::terminal_use::TuiInputTarget;

verus! {

/// Where restoring a conversation stands.
#[derive(Clone, Copy, Debug, PartialEq, Eq, Structural)]
pub enum SessionRestoreView {
    /// No restore is running.
    Idle,
    /// A conversation named at startup is loading.
    LoadingFromStartup,
    /// A conversation picked from the conversation list is loading.
    LoadingFromList,
    /// The restore failed.
    Failed,
}

/// What the pane reads of the selected conversation.
#[derive(Clone, Copy, Debug, PartialEq, Eq, Structural)]
pub struct SelectedConversationFacts {
    /// The conversation is in progress.
    pub in_progress: bool,
    /// It is summarizing rather than answering.
    pub summarizing: bool,
    /// Its latest exchange has a start time.
    pub has_elapsed: bool,
    /// Its last response has a finished wall-to-wall duration.
    pub has_wall_to_wall: bool,
}

/// The state the pane is drawn from.
#[derive(Clone, Copy, Debug, PartialEq, Eq, Structural)]
pub struct SurfaceState {
    pub restore: SessionRestoreView,
    pub alt_screen_active: bool,
    pub input_target: TuiInputTarget,
    /// A user-controlled long-running command owns input.
    pub user_owns_running_command: bool,
    pub transcript_empty: bool,
    /// A blocking interaction (such as a run-agents card) is in front.
    pub blocker_active: bool,
    pub selected_conversation: Option<SelectedConversationFacts>,
    /// The active inline menu has something to show.
    pub inline_menu_available: bool,
    pub attachment_bar_visible: bool,
    pub orchestration_tabs_available: bool,
    pub orchestration_tabs_focused: bool,
}

/// One row of the session column, top to bottom.
#[derive(Clone, Copy, Debug, PartialEq, Eq, Structural)]
pub enum SurfaceItem {
    /// The zero state, while the transcript is empty.
    ZeroState,
    /// The transcript.
    Transcript,
    /// `Starting shell...`, while input is disabled.
    StartingShellHint,
    /// The animated warping (or summarizing) indicator.
    Warping { summarizing: bool },
    /// The summary of the last response.
    ResponseSummary,
    /// The hint that a running command owns input.
    LongRunningCommandHint,
    /// The active inline menu.
    InlineMenu,
    /// The attachment bar.
    AttachmentBar,
    /// The input box.
    Input,
    /// The footer row.
    Footer,
    /// The orchestration tab bar's footer, while its tabs have focus.
    OrchestrationFooter,
}

/// What the pane shows.
pub enum SurfacePlan {
    /// The full-pane "restoring conversation" screen.
    RestoringConversation,
    /// The full-pane restore failure.
    RestoreFailed,
    /// The full-screen program's grid, which receives input.
    AltScreen,
    /// The session column: the orchestration tab bar above it when tabs
    /// exist, its rows, and whether the foreground process receives input.
    Session { tab_bar: bool, rows: Vec<SurfaceItem>, pty_input: bool },
}

/// The status rows under the transcript for the selected conversation: the
/// warping indicator while it is in progress (once its exchange has
/// started), else the last response's summary once it has one; nothing
/// while a blocker is in front or the agent editor does not own input.
pub open spec fn conversation_rows(state: SurfaceState) -> Seq<SurfaceItem> {
    if state.blocker_active || state.input_target != TuiInputTarget::AgentEditor {
        Seq::empty()
    } else {
        match state.selected_conversation {
            None => Seq::empty(),
            Some(c) => if c.in_progress {
                if c.has_elapsed {
                    seq![SurfaceItem::Warping { summarizing: c.summarizing }]
                } else {
                    Seq::empty()
                }
            } else if c.has_wall_to_wall {
                seq![SurfaceItem::ResponseSummary]
            } else {
                Seq::empty()
            },
        }
    }
}

/// The input section, shown when no blocker is in front and the agent
/// editor owns input or input is disabled: the inline menu (agent editor
/// only), the attachment bar, the input box, and the footer (the
/// orchestration footer while the tabs have focus and input is enabled).
pub open spec fn input_rows(state: SurfaceState) -> Seq<SurfaceItem> {
    let editor = state.input_target == TuiInputTarget::AgentEditor;
    let disabled = state.input_target == TuiInputTarget::Disabled;
    if state.blocker_active || !(editor || disabled) {
        Seq::empty()
    } else {
        (if editor && state.inline_menu_available { seq![SurfaceItem::InlineMenu] } else { Seq::empty() })
            + (if state.attachment_bar_visible { seq![SurfaceItem::AttachmentBar] } else { Seq::empty() })
            + seq![SurfaceItem::Input]
            + seq![
            if !disabled && state.orchestration_tabs_focused {
                SurfaceItem::OrchestrationFooter
            } else {
                SurfaceItem::Footer
            },
        ]
    }
}

/// The rows of the session column, top to bottom.
pub open spec fn spec_surface_rows(state: SurfaceState) -> Seq<SurfaceItem> {
    seq![if state.transcript_empty { SurfaceItem::ZeroState } else { SurfaceItem::Transcript }]
        + (if !state.blocker_active && state.input_target == TuiInputTarget::Disabled {
        seq![SurfaceItem::StartingShellHint]
    } else {
        Seq::empty()
    }) + conversation_rows(state) + (if !state.blocker_active && state.user_owns_running_command {
        seq![SurfaceItem::LongRunningCommandHint]
    } else {
        Seq::empty()
    }) + input_rows(state)
}

fn push_conversation_rows(state: &SurfaceState, rows: &mut Vec<SurfaceItem>)
    ensures
        final(rows)@ == old(rows)@ + conversation_rows(*state),
{
    if state.blocker_active || state.input_target != TuiInputTarget::AgentEditor {
        return;
    }
    if let Some(c) = state.selected_conversation {
        if c.in_progress {
            if c.has_elapsed {
                rows.push(SurfaceItem::Warping { summarizing: c.summarizing });
            }
        } else if c.has_wall_to_wall {
            rows.push(SurfaceItem::ResponseSummary);
        }
    }
}

fn push_input_rows(state: &SurfaceState, rows: &mut Vec<SurfaceItem>)
    ensures
        final(rows)@ == old(rows)@ + input_rows(*state),
{
    let editor = state.input_target == TuiInputTarget::AgentEditor;
    let disabled = state.input_target == TuiInputTarget::Disabled;
    if state.blocker_active || !(editor || disabled) {
        return;
    }
    let ghost start = rows@;
    if editor && state.inline_menu_available {
        rows.push(SurfaceItem::InlineMenu);
    }
    if state.attachment_bar_visible {
        rows.push(SurfaceItem::AttachmentBar);
    }
    rows.push(SurfaceItem::Input);
    if !disabled && state.orchestration_tabs_focused {
        rows.push(SurfaceItem::OrchestrationFooter);
    } else {
        rows.push(SurfaceItem::Footer);
    }
    proof {
        assert(rows@ =~= start + input_rows(*state));
    }
}

/// Decides what the pane shows. A conversation loading at startup or a
/// failed restore takes the whole pane; so does a full-screen program.
/// Otherwise the session column shows the zero state or the transcript,
/// `Starting shell...` while input is disabled, the selected conversation's
/// status row, the running-command hint while a user-controlled command owns
/// input, and the input section; a blocker in front hides all but the
/// transcript. The foreground process receives input when it owns it.
pub fn session_surface_plan(state: SurfaceState) -> (plan: SurfacePlan)
    ensures
        match state.restore {
            SessionRestoreView::LoadingFromStartup => plan is RestoringConversation,
            SessionRestoreView::Failed => plan is RestoreFailed,
            _ => if state.alt_screen_active {
                plan is AltScreen
            } else {
                plan matches SurfacePlan::Session { tab_bar, rows, pty_input } && tab_bar
                    == state.orchestration_tabs_available && rows@ == spec_surface_rows(state)
                    && pty_input == (state.input_target == TuiInputTarget::Pty)
            },
        },
{
    match state.restore {
        SessionRestoreView::LoadingFromStartup => {
            return SurfacePlan::RestoringConversation;
        },
        SessionRestoreView::Failed => {
            return SurfacePlan::RestoreFailed;
        },
        _ => {},
    }
    if state.alt_screen_active {
        return SurfacePlan::AltScreen;
    }
    let mut rows: Vec<SurfaceItem> = Vec::new();
    if state.transcript_empty {
        rows.push(SurfaceItem::ZeroState);
    } else {
        rows.push(SurfaceItem::Transcript);
    }
    if !state.blocker_active && state.input_target == TuiInputTarget::Disabled {
        rows.push(SurfaceItem::StartingShellHint);
    }
    push_conversation_rows(&state, &mut rows);
    if !state.blocker_active && state.user_owns_running_command {
        rows.push(SurfaceItem::LongRunningCommandHint);
    }
    push_input_rows(&state, &mut rows);
    proof {
        assert(rows@ =~= spec_surface_rows(state));
    }
    SurfacePlan::Session {
        tab_bar: state.orchestration_tabs_available,
        rows,
        pty_input: state.input_target == TuiInputTarget::Pty,
    }
}

/// While a blocking interaction is in front, the session column shows only
/// the transcript (or the zero state): no status rows, no input box, no
/// footer. And the input box is shown only when the agent editor owns input
/// or input is disabled.
pub proof fn law_blocker_leaves_only_the_transcript(state: SurfaceState)
    ensures
        state.blocker_active ==> spec_surface_rows(state) == seq![
            if state.transcript_empty { SurfaceItem::ZeroState } else { SurfaceItem::Transcript },
        ],
        spec_surface_rows(state).contains(SurfaceItem::Input) ==> !state.blocker_active && (
        state.input_target == TuiInputTarget::AgentEditor || state.input_target
            == TuiInputTarget::Disabled),
{
    let rows = spec_surface_rows(state);
    if state.blocker_active {
        assert(rows =~= seq![
            if state.transcript_empty { SurfaceItem::ZeroState } else { SurfaceItem::Transcript },
        ]);
    }
    if rows.contains(SurfaceItem::Input) && (state.blocker_active || !(state.input_target
        == TuiInputTarget::AgentEditor || state.input_target == TuiInputTarget::Disabled)) {
        let i = choose|i: int| 0 <= i < rows.len() && rows[i] == SurfaceItem::Input;
        let head = seq![if state.transcript_empty { SurfaceItem::ZeroState } else { SurfaceItem::Transcript }]
            + (if !state.blocker_active && state.input_target == TuiInputTarget::Disabled {
            seq![SurfaceItem::StartingShellHint]
        } else {
            Seq::empty()
        }) + conversation_rows(state) + (if !state.blocker_active && state.user_owns_running_command {
            seq![SurfaceItem::LongRunningCommandHint]
        } else {
            Seq::empty()
        });
        assert(input_rows(state) =~= Seq::empty());
        assert(rows =~= head);
        assert(rows[i] != SurfaceItem::Input);
    }
}

} // verus!
