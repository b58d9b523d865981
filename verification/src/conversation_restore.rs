//! Restoring a saved conversation into the session: one restore at a time,
//! identified by a request number so that a result for a cancelled or
//! superseded request is ignored, and failures that end startup or that
//! only show a notice.
use vstd::prelude::*;
use crate::text::push_chars;

verus! {

/// Where a restore was asked for.
#[derive(Clone, Copy, Debug, PartialEq, Eq, Structural)]
pub enum TuiConversationRestoreOrigin {
    /// The `--resume` flag at startup.
    Startup,
    /// The conversation list.
    ConversationList,
}

/// The restore in progress, if any.
#[derive(Clone, Debug, PartialEq, Eq)]
pub enum ConversationRestoreState {
    Idle,
    Loading { origin: TuiConversationRestoreOrigin, request_id: u64 },
    /// A startup restore failed; the session shows `message`.
    Failed(String),
}

/// What the loader handed back for a request.
#[derive(Clone, Copy, Debug, PartialEq, Eq, Structural)]
pub enum RestoreOutcome {
    /// A conversation loaded; `matches_target` when it is the one asked for.
    Loaded { matches_target: bool },
    /// A conversation of another agent, which this session cannot show.
    OtherAgent,
    /// Nothing could be loaded.
    Missing,
}

/// Outside work a restore step asks for.
#[derive(Clone, Debug, PartialEq, Eq)]
pub enum RestoreAction {
    /// Load the conversation for this request.
    StartLoad(u64),
    /// Abort the load in flight.
    AbortLoad,
    /// Replace the visible conversation with the loaded one.
    ReplaceConversation(TuiConversationRestoreOrigin),
    /// Show a notice.
    ShowHint(String),
    /// Return focus to the input.
    FocusInput,
}

/// The restore state and the last request number handed out.
pub struct ConversationRestore {
    pub state: ConversationRestoreState,
    pub next_request_id: u64,
}

/// The request number after `id`, wrapping.
pub open spec fn following_id(id: u64) -> u64 {
    if id == u64::MAX {
        0
    } else {
        (id + 1) as u64
    }
}

/// Whether `request_id` is the restore in flight.
pub open spec fn is_current(state: ConversationRestoreState, request_id: u64) -> bool {
    state matches ConversationRestoreState::Loading { request_id: active, .. } && active == request_id
}

/// The notice for an outcome that fails the restore.
pub open spec fn failure_message(outcome: RestoreOutcome) -> Option<Seq<char>> {
    match outcome {
        RestoreOutcome::Missing => Some("The conversation could not be loaded."@),
        RestoreOutcome::OtherAgent => Some("The Warp TUI only supports Oz/Warp conversations."@),
        RestoreOutcome::Loaded { matches_target } => if matches_target {
            None
        } else {
            Some("The restored conversation did not match the requested conversation."@)
        },
    }
}

fn bump(id: u64) -> (next: u64)
    ensures
        next == following_id(id),
{
    if id == u64::MAX {
        0
    } else {
        id + 1
    }
}

impl ConversationRestore {
    /// No restore, and no request handed out yet.
    pub fn new() -> (r: Self)
        ensures
            r.state == ConversationRestoreState::Idle,
            r.next_request_id == 0,
    {
        ConversationRestore { state: ConversationRestoreState::Idle, next_request_id: 0 }
    }

    /// Whether a restore is loading.
    pub fn is_loading(&self) -> (loading: bool)
        ensures
            loading == (self.state is Loading),
    {
        match &self.state {
            ConversationRestoreState::Loading { .. } => true,
            _ => false,
        }
    }

    /// Whether `request_id` is the restore in flight.
    pub fn is_current_request(&self, request_id: u64) -> (current: bool)
        ensures
            current == is_current(self.state, request_id),
    {
        match &self.state {
            ConversationRestoreState::Loading { request_id: active, .. } => *active == request_id,
            _ => false,
        }
    }

    /// Starts restoring under a new request number, unless a restore is
    /// already loading.
    pub fn request(&mut self, origin: TuiConversationRestoreOrigin) -> (actions: Vec<RestoreAction>)
        ensures
            old(self).state is Loading ==> final(self).state == old(self).state
                && final(self).next_request_id == old(self).next_request_id && actions@.len() == 0,
            !(old(self).state is Loading) ==> ({
                let id = following_id(old(self).next_request_id);
                &&& final(self).next_request_id == id
                &&& final(self).state == ConversationRestoreState::Loading { origin, request_id: id }
                &&& actions@ == seq![RestoreAction::StartLoad(id)]
            }),
    {
        let mut actions = Vec::new();
        if self.is_loading() {
            return actions;
        }
        let id = bump(self.next_request_id);
        self.next_request_id = id;
        self.state = ConversationRestoreState::Loading { origin, request_id: id };
        actions.push(RestoreAction::StartLoad(id));
        actions
    }

    /// Cancels the restore in flight, retiring its request number. Returns
    /// whether one was loading.
    pub fn cancel(&mut self) -> (res: (bool, Vec<RestoreAction>))
        ensures
            old(self).state is Loading ==> res.0 && final(self).state == ConversationRestoreState::Idle
                && final(self).next_request_id == following_id(old(self).next_request_id)
                && res.1@ == seq![RestoreAction::AbortLoad, RestoreAction::FocusInput],
            !(old(self).state is Loading) ==> !res.0 && final(self).state == old(self).state
                && final(self).next_request_id == old(self).next_request_id && res.1@.len() == 0,
    {
        let mut actions = Vec::new();
        if !self.is_loading() {
            return (false, actions);
        }
        self.state = ConversationRestoreState::Idle;
        self.next_request_id = bump(self.next_request_id);
        actions.push(RestoreAction::AbortLoad);
        actions.push(RestoreAction::FocusInput);
        (true, actions)
    }

    /// Handles the loader's result for `request_id`: results for anything
    /// but the restore in flight are ignored; a matching conversation
    /// replaces the visible one; any other outcome fails the restore — at
    /// startup the session then shows the failure, from the conversation
    /// list only a notice.
    pub fn handle_result(&mut self, request_id: u64, outcome: RestoreOutcome) -> (actions: Vec<RestoreAction>)
        ensures
            !is_current(old(self).state, request_id) ==> final(self).state == old(self).state
                && actions@.len() == 0,
            final(self).next_request_id == old(self).next_request_id,
            is_current(old(self).state, request_id) ==> ({
                let origin = old(self).state->origin;
                match failure_message(outcome) {
                    None => final(self).state == ConversationRestoreState::Idle && actions@ == seq![
                        RestoreAction::ReplaceConversation(origin),
                        RestoreAction::FocusInput,
                    ],
                    Some(message) => match origin {
                        TuiConversationRestoreOrigin::Startup => (final(self).state matches ConversationRestoreState::Failed(m) && m@ == message)
                            && actions@.len() == 0,
                        TuiConversationRestoreOrigin::ConversationList => final(self).state
                            == ConversationRestoreState::Idle && actions@.len() == 2 && (
                        actions@[0] matches RestoreAction::ShowHint(h) && h@ == message)
                            && actions@[1] == RestoreAction::FocusInput,
                    },
                }
            }),
    {
        let mut actions = Vec::new();
        let origin = match &self.state {
            ConversationRestoreState::Loading { origin, request_id: active } => {
                if *active != request_id {
                    return actions;
                }
                *origin
            },
            _ => {
                return actions;
            },
        };
        let message: &str = match outcome {
            RestoreOutcome::Missing => "The conversation could not be loaded.",
            RestoreOutcome::OtherAgent => "The Warp TUI only supports Oz/Warp conversations.",
            RestoreOutcome::Loaded { matches_target } => {
                if matches_target {
                    self.state = ConversationRestoreState::Idle;
                    actions.push(RestoreAction::ReplaceConversation(origin));
                    actions.push(RestoreAction::FocusInput);
                    return actions;
                }
                "The restored conversation did not match the requested conversation."
            },
        };
        let mut text = String::new();
        push_chars(&mut text, message);
        match origin {
            TuiConversationRestoreOrigin::Startup => {
                self.state = ConversationRestoreState::Failed(text);
            },
            TuiConversationRestoreOrigin::ConversationList => {
                self.state = ConversationRestoreState::Idle;
                actions.push(RestoreAction::ShowHint(text));
                actions.push(RestoreAction::FocusInput);
            },
        }
        actions
    }
}

/// A cancelled or superseded request never completes: cancelling leaves no
/// restore current, and the next request's number differs from the one it
/// follows, so a late result for the old number is ignored.
pub proof fn law_stale_results_are_ignored(
    old_id: u64,
    origin: TuiConversationRestoreOrigin,
    request_id: u64,
)
    ensures
        !is_current(ConversationRestoreState::Idle, request_id),
        following_id(old_id) != old_id,
        !is_current(
            ConversationRestoreState::Loading { origin, request_id: following_id(old_id) },
            old_id,
        ),
{
}

} // verus!
