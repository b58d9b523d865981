use warp_tui::footer::{footer_pieces, footer_row, FooterPiece, FooterRow, FooterSegments};
use warp_tui::input_detection::{post_parse_step, pre_parse_step, PostParseStep, PreParseStep};
use warp_tui::session_control::{
    command_already_running_hint, raw_prompt_if_not_blank, shell_submission, submission_route,
    ShellSubmission, SubmissionRoute, TransientHintTone,
};
use warp_tui::slash_commands::{
    clipboard_export_hint, log_bundle_hint, natural_language_detection_hint, slash_command_plan,
    SlashCommandEffect as E, TuiSlashCommand as C,
};

fn names(plan: &[E]) -> Vec<String> {
    plan.iter()
        .map(|effect| match effect {
            E::ShowHint(text) => format!("hint:{text}"),
            E::SendPrompt(text) => format!("prompt:{text}"),
            E::SendCreateNewProjectRequest(text) => format!("project:{text}"),
            E::SetNaturalLanguageDetection(on) => format!("nld:{on}"),
            E::ExportToFile(file_name) => format!("export-file:{file_name:?}"),
            other => format!("{other:?}"),
        })
        .collect()
}

#[test]
fn new_conversation_sends_the_trimmed_argument() {
    let plan = slash_command_plan(C::New, "/new", Some("  fix it "), true, true, true);
    assert_eq!(
        names(&plan),
        vec!["StartNewConversation", "prompt:fix it", "ClearInput", "RecordAccepted"]
    );
    let plan = slash_command_plan(C::Agent, "/agent", Some("   "), true, true, true);
    assert_eq!(names(&plan), vec!["StartNewConversation", "ClearInput", "RecordAccepted"]);
    let plan = slash_command_plan(C::Agent, "/agent", None, false, true, true);
    assert_eq!(
        names(&plan),
        vec!["hint:cannot start new conversation while terminal command is running"]
    );
}

#[test]
fn compact_and_plan_become_prompts() {
    let plan = slash_command_plan(C::Compact, "/compact", None, true, true, true);
    assert_eq!(names(&plan), vec!["ClearInput", "prompt:/compact", "RecordAccepted"]);
    let plan = slash_command_plan(C::Plan, "/plan", Some("ship it"), true, true, true);
    assert_eq!(names(&plan), vec!["ClearInput", "prompt:/plan ship it", "RecordAccepted"]);
    let plan = slash_command_plan(C::Plan, "/plan", Some(""), true, true, true);
    assert_eq!(names(&plan), vec!["ClearInput", "prompt:/plan", "RecordAccepted"]);
}

#[test]
fn project_and_export_commands_need_their_inputs() {
    let plan = slash_command_plan(C::CreateNewProject, "/create-new-project", Some(" "), true, true, true);
    assert_eq!(
        names(&plan),
        vec!["hint:Please describe the project you want to create after /create-new-project"]
    );
    let plan = slash_command_plan(C::CreateNewProject, "/create-new-project", Some(" a todo app "), true, true, true);
    assert_eq!(names(&plan), vec!["project:a todo app", "ClearInput", "RecordAccepted"]);
    let plan = slash_command_plan(C::ExportToFile, "/export-to-file", None, true, true, false);
    assert_eq!(names(&plan), vec!["hint:No active conversation to export"]);
    let plan = slash_command_plan(C::ExportToClipboard, "/export", None, true, true, false);
    assert_eq!(
        names(&plan),
        vec!["hint:No active conversation to export", "ClearInput", "RecordAccepted"]
    );
}

#[test]
fn menus_exit_and_settings() {
    assert_eq!(
        names(&slash_command_plan(C::Skills, "/skills", None, true, false, true)),
        Vec::<String>::new()
    );
    assert_eq!(
        names(&slash_command_plan(C::Exit, "/exit", None, true, true, true)),
        vec!["RecordAccepted", "Terminate"]
    );
    assert_eq!(
        names(&slash_command_plan(C::Mcp, "/mcp", None, true, true, true)),
        vec!["ClearInput", "OpenMcpMenu", "RecordAccepted"]
    );
    assert_eq!(
        names(&slash_command_plan(C::DisableNaturalLanguageDetection, "/x", None, true, true, true)),
        vec!["ClearInput", "nld:false", "RecordAccepted"]
    );
}

#[test]
fn follow_up_notices() {
    assert_eq!(
        log_bundle_hint(Some("/tmp/logs.zip")),
        ("Log bundle saved to /tmp/logs.zip".to_owned(), TransientHintTone::Success)
    );
    assert_eq!(
        log_bundle_hint(None),
        ("Failed to create log bundle (check logs)".to_owned(), TransientHintTone::Muted)
    );
    assert_eq!(clipboard_export_hint(false).0, "failed to copy to clipboard");
    assert_eq!(
        natural_language_detection_hint(true, true),
        ("Natural language detection enabled.".to_owned(), TransientHintTone::Success)
    );
    assert_eq!(
        natural_language_detection_hint(false, false).0,
        "Could not save the natural language detection setting."
    );
}

#[test]
fn detection_steps_before_and_after_parsing() {
    assert_eq!(pre_parse_step("", false, false, true, true, true), PreParseStep::ResetToAgent);
    assert_eq!(pre_parse_step("", false, true, true, true, true), PreParseStep::Parse);
    assert_eq!(pre_parse_step("/agent", true, false, true, true, true), PreParseStep::ResetToAgent);
    assert_eq!(pre_parse_step("ls", false, false, true, true, true), PreParseStep::Parse);
    assert_eq!(pre_parse_step("ls", false, false, true, false, true), PreParseStep::Stop);
    assert_eq!(post_parse_step("ls", "ls -l", false, 1, 2, true, false), PostParseStep::Ignore);
    assert_eq!(post_parse_step("ls", "ls", false, 1, 2, true, false), PostParseStep::Classify);
    assert_eq!(post_parse_step("fix", "fix", false, 1, 3, false, false), PostParseStep::ResetToAgent);
    assert_eq!(post_parse_step("fix", "fix", false, 1, 3, false, true), PostParseStep::Ignore);
}

#[test]
fn footer_sections_and_separators() {
    let agent = FooterSegments {
        shell_mode: false,
        has_model_label: true,
        cwd: Some("~/src".to_owned()),
        branch: Some("main".to_owned()),
        has_usage: true,
        diff_additions: 3,
        diff_deletions: 1,
    };
    assert_eq!(
        footer_pieces(agent),
        vec![
            FooterPiece::ModelLabel,
            FooterPiece::Space,
            FooterPiece::Cwd("~/src".to_owned()),
            FooterPiece::Branch("main".to_owned()),
            FooterPiece::Dot,
            FooterPiece::Usage,
            FooterPiece::Dot,
            FooterPiece::Additions(3),
            FooterPiece::Space,
            FooterPiece::Deletions(1),
        ]
    );
    let shell = FooterSegments {
        shell_mode: true,
        has_model_label: true,
        cwd: None,
        branch: None,
        has_usage: true,
        diff_additions: 0,
        diff_deletions: 2,
    };
    assert_eq!(
        footer_pieces(shell),
        vec![
            FooterPiece::ShellModeIndicator,
            FooterPiece::Dot,
            FooterPiece::Deletions(2)
        ]
    );
    let bare = FooterSegments {
        shell_mode: false,
        has_model_label: false,
        cwd: None,
        branch: Some("dev".to_owned()),
        has_usage: false,
        diff_additions: 0,
        diff_deletions: 0,
    };
    assert_eq!(footer_pieces(bare), vec![FooterPiece::Branch("dev".to_owned())]);
}

#[test]
fn submissions_are_routed_by_owner_and_mode() {
    assert_eq!(submission_route(false, true, true, true), SubmissionRoute::Ignore);
    assert_eq!(submission_route(true, false, false, false), SubmissionRoute::Ignore);
    assert_eq!(submission_route(true, true, true, true), SubmissionRoute::TerminalUsePrompt);
    assert_eq!(submission_route(true, true, false, true), SubmissionRoute::ShellCommand);
    assert_eq!(submission_route(true, true, false, false), SubmissionRoute::AgentInput);
}

#[test]
fn shell_commands_are_refused_while_busy() {
    assert_eq!(shell_submission("  ", true, true, false, false, false), ShellSubmission::Ignore);
    assert_eq!(shell_submission("ls", false, true, false, false, false), ShellSubmission::Ignore);
    assert_eq!(shell_submission("ls", true, false, false, false, false), ShellSubmission::RejectBusy);
    assert_eq!(shell_submission("ls", true, true, true, false, false), ShellSubmission::RejectBusy);
    assert_eq!(
        shell_submission("ls", true, true, true, true, true),
        ShellSubmission::Execute { cancel_conversation: true }
    );
    assert_eq!(command_already_running_hint(), "cannot run — command already running");
    assert_eq!(raw_prompt_if_not_blank(" hi "), Some(" hi "));
    assert_eq!(raw_prompt_if_not_blank(" \n"), None);
}

fn agent_segments(shell_mode: bool) -> FooterSegments {
    FooterSegments {
        shell_mode,
        has_model_label: true,
        cwd: Some("~/src".to_owned()),
        branch: None,
        has_usage: false,
        diff_additions: 0,
        diff_deletions: 0,
    }
}

fn hint_of(row: FooterRow) -> Option<(String, TransientHintTone)> {
    match row {
        FooterRow::Hint { text, tone } => Some((text, tone)),
        FooterRow::Status(_) => None,
    }
}

#[test]
fn footer_hints_replace_the_status_row_in_priority_order() {
    let notice = Some(("Copied".to_owned(), TransientHintTone::Success));
    assert_eq!(
        hint_of(footer_row(true, true, notice.clone(), true, agent_segments(false))),
        Some(("ctrl-c again to exit".to_owned(), TransientHintTone::Muted))
    );
    assert_eq!(
        hint_of(footer_row(false, true, notice.clone(), true, agent_segments(false))),
        Some(("Loading conversation\u{2026}".to_owned(), TransientHintTone::Muted))
    );
    assert_eq!(
        hint_of(footer_row(false, false, notice, true, agent_segments(false))),
        Some(("Copied".to_owned(), TransientHintTone::Success))
    );
    assert_eq!(
        hint_of(footer_row(false, false, None, true, agent_segments(false))),
        Some(("Shift + \u{2191} sub-agents".to_owned(), TransientHintTone::Muted))
    );
    match footer_row(false, false, None, true, agent_segments(true)) {
        FooterRow::Status(pieces) => assert_eq!(
            pieces,
            vec![
                FooterPiece::ShellModeIndicator,
                FooterPiece::Space,
                FooterPiece::Cwd("~/src".to_owned())
            ]
        ),
        FooterRow::Hint { .. } => panic!("shell mode keeps the status row"),
    }
}

#[test]
fn export_to_file_passes_the_file_name_argument() {
    let plan = slash_command_plan(C::ExportToFile, "/export-to-file", Some("notes.md"), true, true, true);
    assert_eq!(
        names(&plan),
        vec!["export-file:Some(\"notes.md\")", "ClearInput", "RecordAccepted"]
    );
    let plan = slash_command_plan(C::ExportToFile, "/export-to-file", None, true, true, true);
    assert_eq!(names(&plan), vec!["export-file:None", "ClearInput", "RecordAccepted"]);
}
