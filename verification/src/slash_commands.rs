//! What the built-in slash commands do, as an ordered plan of effects that
//! the session view carries out, and the notice shown once an effect that
//! does outside work reports back.
use vstd::prelude::*;
use crate::session_control::TransientHintTone;
use crate::text::{push_chars, trim_chars, trimmed};

verus! {

/// The built-in slash commands.
#[derive(Clone, Copy, Debug, PartialEq, Eq, Structural)]
pub enum TuiSlashCommand {
    Agent,
    New,
    Conversations,
    AutoApprove,
    Model,
    Skills,
    Mcp,
    Exit,
    Logout,
    ViewLogs,
    CreateNewProject,
    ExportToClipboard,
    ExportToFile,
    Compact,
    Plan,
    EnableNaturalLanguageDetection,
    DisableNaturalLanguageDetection,
}

/// One step of a slash command.
#[derive(Clone, Debug)]
pub enum SlashCommandEffect {
    /// Show a (muted) notice in the footer.
    ShowHint(String),
    /// Cancel the running conversation, clear the transcript and this
    /// surface's conversations, and select a new conversation.
    StartNewConversation,
    /// Send a prompt to the agent.
    SendPrompt(String),
    /// Clear the input editor.
    ClearInput,
    OpenConversationsMenu,
    ToggleAutoApprove,
    OpenModelMenu,
    OpenSkillsMenu,
    OpenMcpMenu,
    /// Exit the application.
    Terminate,
    LogOut,
    /// Build the log bundle and reveal it.
    CreateLogBundle,
    /// Ask the agent to create a new project from a description.
    SendCreateNewProjectRequest(String),
    /// Copy the selected conversation to the clipboard as Markdown.
    ExportToClipboard,
    /// Write the selected conversation to a Markdown file, named by the
    /// command's argument when it has one.
    ExportToFile(Option<String>),
    /// Persist the natural-language-detection setting.
    SetNaturalLanguageDetection(bool),
    /// Record that the command was accepted.
    RecordAccepted,
}

/// An effect with its text taken by value.
pub enum EffectView {
    ShowHint(Seq<char>),
    StartNewConversation,
    SendPrompt(Seq<char>),
    ClearInput,
    OpenConversationsMenu,
    ToggleAutoApprove,
    OpenModelMenu,
    OpenSkillsMenu,
    OpenMcpMenu,
    Terminate,
    LogOut,
    CreateLogBundle,
    SendCreateNewProjectRequest(Seq<char>),
    ExportToClipboard,
    ExportToFile(Option<Seq<char>>),
    SetNaturalLanguageDetection(bool),
    RecordAccepted,
}

pub open spec fn effect_view(e: SlashCommandEffect) -> EffectView {
    match e {
        SlashCommandEffect::ShowHint(t) => EffectView::ShowHint(t@),
        SlashCommandEffect::StartNewConversation => EffectView::StartNewConversation,
        SlashCommandEffect::SendPrompt(t) => EffectView::SendPrompt(t@),
        SlashCommandEffect::ClearInput => EffectView::ClearInput,
        SlashCommandEffect::OpenConversationsMenu => EffectView::OpenConversationsMenu,
        SlashCommandEffect::ToggleAutoApprove => EffectView::ToggleAutoApprove,
        SlashCommandEffect::OpenModelMenu => EffectView::OpenModelMenu,
        SlashCommandEffect::OpenSkillsMenu => EffectView::OpenSkillsMenu,
        SlashCommandEffect::OpenMcpMenu => EffectView::OpenMcpMenu,
        SlashCommandEffect::Terminate => EffectView::Terminate,
        SlashCommandEffect::LogOut => EffectView::LogOut,
        SlashCommandEffect::CreateLogBundle => EffectView::CreateLogBundle,
        SlashCommandEffect::SendCreateNewProjectRequest(t) => EffectView::SendCreateNewProjectRequest(
            t@,
        ),
        SlashCommandEffect::ExportToClipboard => EffectView::ExportToClipboard,
        SlashCommandEffect::ExportToFile(file_name) => EffectView::ExportToFile(
            match file_name {
                Some(f) => Some(f@),
                None => None,
            },
        ),
        SlashCommandEffect::SetNaturalLanguageDetection(b) => EffectView::SetNaturalLanguageDetection(b),
        SlashCommandEffect::RecordAccepted => EffectView::RecordAccepted,
    }
}

pub open spec fn effect_views(plan: Seq<SlashCommandEffect>) -> Seq<EffectView> {
    Seq::new(plan.len(), |i: int| effect_view(plan[i]))
}

/// The notice when a new conversation cannot start.
pub open spec fn new_conversation_blocked_hint() -> Seq<char> {
    "cannot start new conversation while terminal command is running"@
}

/// The notice when `/create-new-project` has no description.
pub open spec fn missing_project_description_hint() -> Seq<char> {
    "Please describe the project you want to create after /create-new-project"@
}

/// The notice when there is no conversation to export.
pub open spec fn no_conversation_hint() -> Seq<char> {
    "No active conversation to export"@
}

/// The argument trimmed, when anything is left of it.
pub open spec fn trimmed_argument(argument: Option<Seq<char>>) -> Option<Seq<char>> {
    match argument {
        Some(a) => if trimmed(a).len() > 0 {
            Some(trimmed(a))
        } else {
            None
        },
        None => None,
    }
}

/// The prompt sent by `/compact` and `/plan`: the command name, followed by
/// the argument when there is one.
pub open spec fn command_prompt(name: Seq<char>, argument: Option<Seq<char>>) -> Seq<char> {
    match argument {
        Some(a) => if a.len() == 0 {
            name
        } else {
            name + " "@ + a
        },
        None => name,
    }
}

/// The plan of a slash command.
pub open spec fn spec_slash_command_plan(
    command: TuiSlashCommand,
    name: Seq<char>,
    argument: Option<Seq<char>>,
    can_start_new_conversation: bool,
    list_skills_enabled: bool,
    has_selected_conversation: bool,
) -> Seq<EffectView> {
    match command {
        TuiSlashCommand::Agent | TuiSlashCommand::New => if !can_start_new_conversation {
            seq![EffectView::ShowHint(new_conversation_blocked_hint())]
        } else {
            match trimmed_argument(argument) {
                Some(prompt) => seq![
                    EffectView::StartNewConversation,
                    EffectView::SendPrompt(prompt),
                    EffectView::ClearInput,
                    EffectView::RecordAccepted,
                ],
                None => seq![
                    EffectView::StartNewConversation,
                    EffectView::ClearInput,
                    EffectView::RecordAccepted,
                ],
            }
        },
        TuiSlashCommand::Conversations => seq![
            EffectView::OpenConversationsMenu,
            EffectView::RecordAccepted,
        ],
        TuiSlashCommand::AutoApprove => seq![
            EffectView::ToggleAutoApprove,
            EffectView::ClearInput,
            EffectView::RecordAccepted,
        ],
        TuiSlashCommand::Model => seq![EffectView::OpenModelMenu, EffectView::RecordAccepted],
        TuiSlashCommand::Skills => if list_skills_enabled {
            seq![EffectView::OpenSkillsMenu, EffectView::RecordAccepted]
        } else {
            Seq::empty()
        },
        TuiSlashCommand::Mcp => seq![
            EffectView::ClearInput,
            EffectView::OpenMcpMenu,
            EffectView::RecordAccepted,
        ],
        TuiSlashCommand::Exit => seq![EffectView::RecordAccepted, EffectView::Terminate],
        TuiSlashCommand::Logout => seq![EffectView::RecordAccepted, EffectView::LogOut],
        TuiSlashCommand::ViewLogs => seq![
            EffectView::ClearInput,
            EffectView::CreateLogBundle,
            EffectView::RecordAccepted,
        ],
        TuiSlashCommand::CreateNewProject => match trimmed_argument(argument) {
            Some(query) => seq![
                EffectView::SendCreateNewProjectRequest(query),
                EffectView::ClearInput,
                EffectView::RecordAccepted,
            ],
            None => seq![EffectView::ShowHint(missing_project_description_hint())],
        },
        TuiSlashCommand::ExportToClipboard => if has_selected_conversation {
            seq![
                EffectView::ExportToClipboard,
                EffectView::ClearInput,
                EffectView::RecordAccepted,
            ]
        } else {
            seq![
                EffectView::ShowHint(no_conversation_hint()),
                EffectView::ClearInput,
                EffectView::RecordAccepted,
            ]
        },
        TuiSlashCommand::ExportToFile => if has_selected_conversation {
            seq![
                EffectView::ExportToFile(argument),
                EffectView::ClearInput,
                EffectView::RecordAccepted,
            ]
        } else {
            seq![EffectView::ShowHint(no_conversation_hint())]
        },
        TuiSlashCommand::Compact | TuiSlashCommand::Plan => seq![
            EffectView::ClearInput,
            EffectView::SendPrompt(command_prompt(name, argument)),
            EffectView::RecordAccepted,
        ],
        TuiSlashCommand::EnableNaturalLanguageDetection => seq![
            EffectView::ClearInput,
            EffectView::SetNaturalLanguageDetection(true),
            EffectView::RecordAccepted,
        ],
        TuiSlashCommand::DisableNaturalLanguageDetection => seq![
            EffectView::ClearInput,
            EffectView::SetNaturalLanguageDetection(false),
            EffectView::RecordAccepted,
        ],
    }
}

fn owned(s: &str) -> (out: String)
    ensures
        out@ == s@,
{
    let mut out = String::new();
    push_chars(&mut out, s);
    out
}

/// The argument trimmed, when anything is left of it.
fn trimmed_text(argument: Option<&str>) -> (text: Option<String>)
    ensures
        match trimmed_argument(
            match argument {
                Some(a) => Some(a@),
                None => None,
            },
        ) {
            Some(t) => text matches Some(s) && s@ == t,
            None => text is None,
        },
{
    match argument {
        Some(a) => {
            let chars = trim_chars(a);
            if chars.len() == 0 {
                None
            } else {
                Some(crate::text::string_from_chars(chars.as_slice()))
            }
        },
        None => None,
    }
}

/// Plans a slash command: starting a new conversation (refused while a
/// command runs, with any argument sent as the first prompt), opening a
/// menu, toggling auto-approve, exiting, logging out, bundling logs,
/// creating a project from a description, exporting the conversation,
/// sending `/compact` and `/plan` as prompts, or toggling natural-language
/// detection; each accepted command is recorded.
pub fn slash_command_plan(
    command: TuiSlashCommand,
    name: &str,
    argument: Option<&str>,
    can_start_new_conversation: bool,
    list_skills_enabled: bool,
    has_selected_conversation: bool,
) -> (plan: Vec<SlashCommandEffect>)
    ensures
        effect_views(plan@) == spec_slash_command_plan(
            command,
            name@,
            match argument {
                Some(a) => Some(a@),
                None => None,
            },
            can_start_new_conversation,
            list_skills_enabled,
            has_selected_conversation,
        ),
{
    let mut plan: Vec<SlashCommandEffect> = Vec::new();
    match command {
        TuiSlashCommand::Agent | TuiSlashCommand::New => {
            if !can_start_new_conversation {
                plan.push(
                    SlashCommandEffect::ShowHint(
                        owned("cannot start new conversation while terminal command is running"),
                    ),
                );
            } else {
                plan.push(SlashCommandEffect::StartNewConversation);
                if let Some(prompt) = trimmed_text(argument) {
                    plan.push(SlashCommandEffect::SendPrompt(prompt));
                }
                plan.push(SlashCommandEffect::ClearInput);
                plan.push(SlashCommandEffect::RecordAccepted);
            }
        },
        TuiSlashCommand::Conversations => {
            plan.push(SlashCommandEffect::OpenConversationsMenu);
            plan.push(SlashCommandEffect::RecordAccepted);
        },
        TuiSlashCommand::AutoApprove => {
            plan.push(SlashCommandEffect::ToggleAutoApprove);
            plan.push(SlashCommandEffect::ClearInput);
            plan.push(SlashCommandEffect::RecordAccepted);
        },
        TuiSlashCommand::Model => {
            plan.push(SlashCommandEffect::OpenModelMenu);
            plan.push(SlashCommandEffect::RecordAccepted);
        },
        TuiSlashCommand::Skills => {
            if list_skills_enabled {
                plan.push(SlashCommandEffect::OpenSkillsMenu);
                plan.push(SlashCommandEffect::RecordAccepted);
            }
        },
        TuiSlashCommand::Mcp => {
            plan.push(SlashCommandEffect::ClearInput);
            plan.push(SlashCommandEffect::OpenMcpMenu);
            plan.push(SlashCommandEffect::RecordAccepted);
        },
        TuiSlashCommand::Exit => {
            plan.push(SlashCommandEffect::RecordAccepted);
            plan.push(SlashCommandEffect::Terminate);
        },
        TuiSlashCommand::Logout => {
            plan.push(SlashCommandEffect::RecordAccepted);
            plan.push(SlashCommandEffect::LogOut);
        },
        TuiSlashCommand::ViewLogs => {
            plan.push(SlashCommandEffect::ClearInput);
            plan.push(SlashCommandEffect::CreateLogBundle);
            plan.push(SlashCommandEffect::RecordAccepted);
        },
        TuiSlashCommand::CreateNewProject => {
            match trimmed_text(argument) {
                Some(query) => {
                    plan.push(SlashCommandEffect::SendCreateNewProjectRequest(query));
                    plan.push(SlashCommandEffect::ClearInput);
                    plan.push(SlashCommandEffect::RecordAccepted);
                },
                None => {
                    plan.push(
                        SlashCommandEffect::ShowHint(
                            owned(
                                "Please describe the project you want to create after /create-new-project",
                            ),
                        ),
                    );
                },
            }
        },
        TuiSlashCommand::ExportToClipboard => {
            if has_selected_conversation {
                plan.push(SlashCommandEffect::ExportToClipboard);
            } else {
                plan.push(SlashCommandEffect::ShowHint(owned("No active conversation to export")));
            }
            plan.push(SlashCommandEffect::ClearInput);
            plan.push(SlashCommandEffect::RecordAccepted);
        },
        TuiSlashCommand::ExportToFile => {
            if has_selected_conversation {
                let file_name = match argument {
                    Some(a) => Some(owned(a)),
                    None => None,
                };
                plan.push(SlashCommandEffect::ExportToFile(file_name));
                plan.push(SlashCommandEffect::ClearInput);
                plan.push(SlashCommandEffect::RecordAccepted);
            } else {
                plan.push(SlashCommandEffect::ShowHint(owned("No active conversation to export")));
            }
        },
        TuiSlashCommand::Compact | TuiSlashCommand::Plan => {
            let mut prompt = owned(name);
            if let Some(a) = argument {
                if !a.is_empty() {
                    push_chars(&mut prompt, " ");
                    push_chars(&mut prompt, a);
                }
            }
            plan.push(SlashCommandEffect::ClearInput);
            plan.push(SlashCommandEffect::SendPrompt(prompt));
            plan.push(SlashCommandEffect::RecordAccepted);
        },
        TuiSlashCommand::EnableNaturalLanguageDetection => {
            plan.push(SlashCommandEffect::ClearInput);
            plan.push(SlashCommandEffect::SetNaturalLanguageDetection(true));
            plan.push(SlashCommandEffect::RecordAccepted);
        },
        TuiSlashCommand::DisableNaturalLanguageDetection => {
            plan.push(SlashCommandEffect::ClearInput);
            plan.push(SlashCommandEffect::SetNaturalLanguageDetection(false));
            plan.push(SlashCommandEffect::RecordAccepted);
        },
    }
    assert(effect_views(plan@) =~= spec_slash_command_plan(
        command,
        name@,
        match argument {
            Some(a) => Some(a@),
            None => None,
        },
        can_start_new_conversation,
        list_skills_enabled,
        has_selected_conversation,
    ));
    plan
}

/// The notice once the log bundle is written: where it was saved, or that
/// it failed.
pub fn log_bundle_hint(saved_to: Option<&str>) -> (hint: (String, TransientHintTone))
    ensures
        match saved_to {
            Some(path) => hint.0@ == "Log bundle saved to "@ + path@ && hint.1
                == TransientHintTone::Success,
            None => hint.0@ == "Failed to create log bundle (check logs)"@ && hint.1
                == TransientHintTone::Muted,
        },
{
    match saved_to {
        Some(path) => {
            let mut text = owned("Log bundle saved to ");
            push_chars(&mut text, path);
            (text, TransientHintTone::Success)
        },
        None => (owned("Failed to create log bundle (check logs)"), TransientHintTone::Muted),
    }
}

/// The notice once the conversation is copied, or the copy failed.
pub fn clipboard_export_hint(copied: bool) -> (hint: (String, TransientHintTone))
    ensures
        copied ==> hint.0@ == "Conversation copied to clipboard"@ && hint.1 == TransientHintTone::Success,
        !copied ==> hint.0@ == "failed to copy to clipboard"@ && hint.1 == TransientHintTone::Muted,
{
    if copied {
        (owned("Conversation copied to clipboard"), TransientHintTone::Success)
    } else {
        (owned("failed to copy to clipboard"), TransientHintTone::Muted)
    }
}

/// The notice once the natural-language-detection setting is saved, or
/// could not be.
pub fn natural_language_detection_hint(enabled: bool, saved: bool) -> (hint: (
    String,
    TransientHintTone,
))
    ensures
        saved && enabled ==> hint.0@ == "Natural language detection enabled."@ && hint.1
            == TransientHintTone::Success,
        saved && !enabled ==> hint.0@ == "Natural language detection disabled."@ && hint.1
            == TransientHintTone::Success,
        !saved ==> hint.0@ == "Could not save the natural language detection setting."@ && hint.1
            == TransientHintTone::Muted,
{
    if !saved {
        (owned("Could not save the natural language detection setting."), TransientHintTone::Muted)
    } else if enabled {
        (owned("Natural language detection enabled."), TransientHintTone::Success)
    } else {
        (owned("Natural language detection disabled."), TransientHintTone::Success)
    }
}

/// Every command that is carried out is recorded as accepted, and a
/// refused or incomplete command (a notice and nothing else) never is.
pub proof fn law_accepted_commands_are_recorded(
    command: TuiSlashCommand,
    name: Seq<char>,
    argument: Option<Seq<char>>,
    can_start_new_conversation: bool,
    list_skills_enabled: bool,
    has_selected_conversation: bool,
)
    ensures
        ({
            let plan = spec_slash_command_plan(
                command,
                name,
                argument,
                can_start_new_conversation,
                list_skills_enabled,
                has_selected_conversation,
            );
            (plan.len() == 0 || (plan.len() == 1 && plan[0] is ShowHint)) || exists|i: int|
                0 <= i < plan.len() && plan[i] is RecordAccepted
        }),
{
    let plan = spec_slash_command_plan(
        command,
        name,
        argument,
        can_start_new_conversation,
        list_skills_enabled,
        has_selected_conversation,
    );
    if plan.len() > 1 || (plan.len() == 1 && !(plan[0] is ShowHint)) {
        assert(plan.last() is RecordAccepted || plan[0] is RecordAccepted);
    }
}

/// The export commands export exactly when a conversation is selected:
/// with one, the plan holds the export (to the clipboard, or to a file
/// named by the argument) and no "No active conversation to export"
/// notice; without one, it holds that notice and no export.
pub proof fn law_export_follows_the_selected_conversation(
    name: Seq<char>,
    argument: Option<Seq<char>>,
    can_start_new_conversation: bool,
    list_skills_enabled: bool,
    has_selected_conversation: bool,
)
    ensures
        ({
            let plan = spec_slash_command_plan(
                TuiSlashCommand::ExportToClipboard,
                name,
                argument,
                can_start_new_conversation,
                list_skills_enabled,
                has_selected_conversation,
            );
            let hint = EffectView::ShowHint("No active conversation to export"@);
            &&& has_selected_conversation ==> (exists|i: int| 0 <= i < plan.len() && #[trigger] plan[i]
                is ExportToClipboard) && forall|i: int| 0 <= i < plan.len() ==> #[trigger] plan[i] != hint
            &&& !has_selected_conversation ==> (exists|i: int| 0 <= i < plan.len() && #[trigger] plan[i]
                == hint) && forall|i: int| 0 <= i < plan.len() ==> !(#[trigger] plan[i] is ExportToClipboard)
        }),
        ({
            let plan = spec_slash_command_plan(
                TuiSlashCommand::ExportToFile,
                name,
                argument,
                can_start_new_conversation,
                list_skills_enabled,
                has_selected_conversation,
            );
            let hint = EffectView::ShowHint("No active conversation to export"@);
            &&& has_selected_conversation ==> (exists|i: int| 0 <= i < plan.len() && #[trigger] plan[i]
                == EffectView::ExportToFile(argument)) && forall|i: int| 0 <= i < plan.len() ==> #[trigger] plan[i] != hint
            &&& !has_selected_conversation ==> (exists|i: int| 0 <= i < plan.len() && #[trigger] plan[i]
                == hint) && forall|i: int| 0 <= i < plan.len() ==> !(#[trigger] plan[i] is ExportToFile)
        }),
{
    let clip = spec_slash_command_plan(
        TuiSlashCommand::ExportToClipboard,
        name,
        argument,
        can_start_new_conversation,
        list_skills_enabled,
        has_selected_conversation,
    );
    let file = spec_slash_command_plan(
        TuiSlashCommand::ExportToFile,
        name,
        argument,
        can_start_new_conversation,
        list_skills_enabled,
        has_selected_conversation,
    );
    let hint = EffectView::ShowHint("No active conversation to export"@);
    assert(no_conversation_hint() == "No active conversation to export"@);
    if has_selected_conversation {
        assert(clip[0] is ExportToClipboard);
        assert(file[0] == EffectView::ExportToFile(argument));
    } else {
        assert(clip[0] == hint);
        assert(file[0] == hint);
    }
}

} // verus!
