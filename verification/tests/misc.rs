use warp_tui::label_measure::{first_visible_grapheme_columns, label_graphemes};
use warp_tui::markdown_spacing::{
    markdown_row_plan, should_insert_blank_row, FormattedTextLineKind as K, MarkdownRow,
};
use warp_tui::platform::{build_reveal_command, should_attempt_reveal, RevealPlatform};
use warp_tui::resume_token::parse_resume_token;
use warp_tui::status_labels::{
    document_subject, mcp_status_label, plan_header_label, ToolCallDisplayState,
    TuiMcpConfigState, TuiMcpServerStatus as S,
};
use warp_tui::telemetry::{EnablementState, TuiAutoupdateTelemetryEvent};
use warp_tui::terminal_cells::{
    block_content_rows, cursor_cell, grid_row_window, sanitized_symbol,
    should_render_terminal_block, GridSpan,
};
use warp_tui::voice_input::VoiceInputStartSource;

#[test]
fn blank_rows_separate_blocks_but_not_paragraph_lines_or_lists() {
    assert!(should_insert_blank_row(K::Heading, Some(K::Line)));
    assert!(should_insert_blank_row(K::CodeBlock, Some(K::Heading)));
    assert!(should_insert_blank_row(K::Table, Some(K::Line)));
    assert!(should_insert_blank_row(K::Image, Some(K::Heading)));
    assert!(!should_insert_blank_row(K::Line, Some(K::Line)));
    assert!(should_insert_blank_row(K::Line, Some(K::Heading)));
    assert!(!should_insert_blank_row(K::OrderedList, Some(K::TaskList)));
    assert!(should_insert_blank_row(K::UnorderedList, Some(K::Line)));
    assert!(!should_insert_blank_row(K::Heading, Some(K::HorizontalRule)));
    assert!(!should_insert_blank_row(K::Heading, None));
    assert!(!should_insert_blank_row(K::Embedded, Some(K::Line)));
}

#[test]
fn reveal_is_skipped_in_ssh_sessions() {
    assert!(should_attempt_reveal(None, None));
    assert!(!should_attempt_reveal(Some("host 1234 5678 22"), None));
    assert!(!should_attempt_reveal(None, Some("/dev/pts/0")));
    assert!(should_attempt_reveal(Some(""), Some("")));
}

#[test]
fn reveal_commands_per_platform() {
    let mac = build_reveal_command(RevealPlatform::MacOs, "/tmp/warp-logs.zip", Some("/tmp")).unwrap();
    assert_eq!(mac.program, "open");
    assert_eq!(mac.args, vec!["-R".to_owned(), "/tmp/warp-logs.zip".to_owned()]);
    let windows = build_reveal_command(RevealPlatform::Windows, "C:\\logs.zip", None).unwrap();
    assert_eq!(windows.program, "explorer");
    assert_eq!(windows.args, vec!["/select,C:\\logs.zip".to_owned()]);
    let linux = build_reveal_command(RevealPlatform::LinuxOrFreeBsd, "/tmp/warp-logs.zip", Some("/tmp")).unwrap();
    assert_eq!(linux.program, "xdg-open");
    assert_eq!(linux.args, vec!["/tmp".to_owned()]);
    assert!(build_reveal_command(RevealPlatform::LinuxOrFreeBsd, "/", None).is_none());
    assert!(build_reveal_command(RevealPlatform::Other, "/tmp/x", Some("/tmp")).is_none());
}

#[test]
fn resume_tokens_must_be_uuids() {
    let token = parse_resume_token("550e8400-e29b-41d4-a716-446655440000".to_owned()).unwrap();
    assert_eq!(token.as_str(), "550e8400-e29b-41d4-a716-446655440000");
    assert_eq!(
        parse_resume_token("not-a-token".to_owned()).err(),
        Some("invalid server conversation token: not-a-token".to_owned())
    );
}

#[test]
fn autoupdate_events_describe_themselves() {
    let done = TuiAutoupdateTelemetryEvent::CheckCompleted {
        outcome: "up_to_date".to_owned(),
        version: None,
    };
    let failed = TuiAutoupdateTelemetryEvent::CheckFailed {
        error: "/home/me/.warp: denied".to_owned(),
    };
    assert_eq!(done.name(), "TUI Autoupdate Check Completed");
    assert_eq!(failed.name(), "TUI Autoupdate Check Failed");
    assert_eq!(failed.description(), "A warp-tui background update check failed");
    assert!(!done.contains_ugc());
    assert!(failed.contains_ugc());
    assert_eq!(done.enablement_state(), EnablementState::Always);
}

#[test]
fn cells_with_control_characters_paint_a_space() {
    assert_eq!(sanitized_symbol("a"), "a");
    assert_eq!(sanitized_symbol(""), " ");
    assert_eq!(sanitized_symbol("\u{7}"), " ");
    assert_eq!(sanitized_symbol("a\u{85}"), " ");
    assert_eq!(sanitized_symbol("é"), "é");
}

#[test]
fn content_rows_cover_the_shown_grids() {
    let hidden = GridSpan { hidden: true, start_row: 0, displayed_rows: 3 };
    let empty = GridSpan { hidden: false, start_row: 4, displayed_rows: 0 };
    let command = GridSpan { hidden: false, start_row: 1, displayed_rows: 2 };
    let output = GridSpan { hidden: false, start_row: 3, displayed_rows: 5 };
    assert_eq!(block_content_rows(hidden, empty), 0..0);
    assert_eq!(block_content_rows(command, output), 1..8);
    assert_eq!(block_content_rows(hidden, output), 3..8);
    assert_eq!(block_content_rows(command, empty), 1..3);
}

#[test]
fn cursor_lands_inside_the_visible_window() {
    assert_eq!(cursor_cell(2, 4, 3, 3..10, 80, 7), Some((4, 2)));
    assert_eq!(cursor_cell(2, 4, 0, 3..10, 80, 7), None);
    assert_eq!(cursor_cell(2, 80, 3, 3..10, 80, 7), None);
    assert_eq!(cursor_cell(2, 4, 8, 3..10, 80, 7), None);
}

#[test]
fn mcp_summary_lists_non_empty_states_in_order() {
    assert_eq!(
        mcp_status_label(TuiMcpConfigState::Invalid, &[]),
        ("Config error · run /mcp".to_owned(), true)
    );
    assert_eq!(
        mcp_status_label(TuiMcpConfigState::Missing, &[S::Running]),
        ("Not configured · /mcp".to_owned(), false)
    );
    assert_eq!(
        mcp_status_label(TuiMcpConfigState::Ready, &[]),
        ("No servers configured · run /mcp".to_owned(), false)
    );
    assert_eq!(
        mcp_status_label(
            TuiMcpConfigState::Ready,
            &[S::Offline, S::Running, S::Failed, S::Running, S::Authenticating]
        ),
        (
            "2 connected · 1 needs auth · 1 failed · 1 offline · /mcp".to_owned(),
            false
        )
    );
}

#[test]
fn plan_headers_name_the_documents() {
    let one = vec!["Rollout plan".to_owned()];
    let two = vec!["A".to_owned(), "B".to_owned()];
    assert_eq!(document_subject(&one), "Rollout plan");
    assert_eq!(document_subject(&two), "2 documents");
    assert_eq!(
        plan_header_label(true, ToolCallDisplayState::Running, &two),
        ("Creating ", Some("2 documents".to_owned()))
    );
    assert_eq!(
        plan_header_label(true, ToolCallDisplayState::Blocked, &two),
        ("Create plan", None)
    );
    assert_eq!(
        plan_header_label(false, ToolCallDisplayState::Succeeded, &one),
        ("Updated plan", None)
    );
    assert_eq!(
        plan_header_label(true, ToolCallDisplayState::Succeeded, &one),
        ("Created ", Some("Rollout plan".to_owned()))
    );
}

#[test]
fn graphemes_and_first_visible_width() {
    assert_eq!(
        label_graphemes("e\u{301}x"),
        vec!["e\u{301}".to_owned(), "x".to_owned()]
    );
    assert_eq!(label_graphemes(""), Vec::<String>::new());
    assert_eq!(first_visible_grapheme_columns(&[0, 0, 2, 1]), 2);
    assert_eq!(first_visible_grapheme_columns(&[0]), 1);
    assert_eq!(first_visible_grapheme_columns(&[]), 1);
}

#[test]
fn voice_input_clears_only_for_the_slash_command() {
    assert!(VoiceInputStartSource::SlashCommand.clears_input());
    assert!(!VoiceInputStartSource::Keybinding.clears_input());
}

#[test]
fn output_grid_window_is_offset_below_command_rows() {
    // Output grid starts at block row 3 and shows 10 rows; the window is rows 1..6.
    let window = grid_row_window(3, 10, 1..6).unwrap();
    assert_eq!(window.displayed_rows, 0..3);
    assert_eq!(window.y_offset, 2);
    // A window scrolled into the grid starts mid-grid at the top.
    let window = grid_row_window(3, 10, 8..20).unwrap();
    assert_eq!(window.displayed_rows, 5..10);
    assert_eq!(window.y_offset, 0);
    // No overlap: nothing to paint.
    assert!(grid_row_window(3, 2, 5..9).is_none());
    assert!(grid_row_window(3, 0, 0..9).is_none());
}

#[test]
fn agent_requested_blocks_stay_out_of_the_transcript() {
    assert!(should_render_terminal_block(false, true, true, false));
    assert!(should_render_terminal_block(false, true, false, true));
    assert!(!should_render_terminal_block(true, true, true, true));
    assert!(!should_render_terminal_block(false, false, true, true));
    assert!(!should_render_terminal_block(false, true, false, false));
}

#[test]
fn agent_monitored_command_block_is_not_rendered_at_top_level() {
    // An agent-requested command whose hide flag is off: visible, finished.
    assert!(!should_render_terminal_block(true, true, true, true));
}

#[test]
fn hidden_agent_requested_command_block_is_not_rendered_at_top_level() {
    assert!(!should_render_terminal_block(true, false, true, true));
}

#[test]
fn user_command_block_is_rendered_at_top_level() {
    assert!(should_render_terminal_block(false, true, true, true));
}

#[test]
fn user_controlled_running_command_submits_cursor_within_window() {
    // A `>>> ` prompt leaves the cursor at column 4 of the command's first row.
    assert_eq!(cursor_cell(0, 4, 0, 0..8, 40, 8), Some((4, 0)));
    assert_eq!(cursor_cell(0, 4, 0, 0..8, 40, 0), None);
}

#[test]
fn inserts_blank_rows_between_tightly_packed_headers_and_paragraphs() {
    // "# Heading", "First paragraph.", "## Next heading", "Second paragraph."
    let blocks = [K::Heading, K::Line, K::Heading, K::Line];
    let blanks: Vec<bool> = (0..blocks.len())
        .map(|i| should_insert_blank_row(blocks[i], blocks.get(i + 1).copied()))
        .collect();
    assert_eq!(blanks, vec![true, true, true, false]);
}

#[test]
fn keeps_soft_wrapped_paragraph_lines_contiguous() {
    assert!(!should_insert_blank_row(K::Line, Some(K::Line)));
    assert!(!should_insert_blank_row(K::Line, None));
}

#[test]
fn inserts_blank_row_after_code_block_before_heading_and_line() {
    assert!(should_insert_blank_row(K::CodeBlock, Some(K::Heading)));
    assert!(should_insert_blank_row(K::CodeBlock, Some(K::Line)));
}

#[test]
fn inserts_blank_row_after_table_before_heading_and_line() {
    assert!(should_insert_blank_row(K::Table, Some(K::Heading)));
    assert!(should_insert_blank_row(K::Table, Some(K::Line)));
}

#[test]
fn inserts_blank_row_after_image_before_heading_and_line() {
    assert!(should_insert_blank_row(K::Image, Some(K::Heading)));
    assert!(should_insert_blank_row(K::Image, Some(K::Line)));
}

#[test]
fn inserts_blank_row_after_list_block_before_heading_and_line() {
    assert!(!should_insert_blank_row(K::UnorderedList, Some(K::UnorderedList)));
    assert!(should_insert_blank_row(K::UnorderedList, Some(K::Heading)));
    assert!(should_insert_blank_row(K::UnorderedList, Some(K::Line)));
}

#[test]
fn keeps_consecutive_list_items_contiguous_across_list_kinds() {
    assert!(!should_insert_blank_row(K::UnorderedList, Some(K::OrderedList)));
    assert!(!should_insert_blank_row(K::OrderedList, Some(K::TaskList)));
    assert!(!should_insert_blank_row(K::TaskList, None));
}

#[test]
fn resume_tokens_accept_every_uuid_form_and_nothing_else() {
    for ok in [
        "67e5504410b1426f9247bb680e5fe0c8",
        "F9168C5E-CEB2-4faa-B6BF-329BF39FA1E4",
        "{6d93bade-bd9f-4e13-8914-9474e1e3567b}",
        "URN:uuid:67e55044-10b1-426f-9247-bb680e5fe0c8",
    ] {
        assert!(parse_resume_token(ok.to_owned()).is_ok(), "{ok}");
    }
    for bad in [
        "",
        "67e5504410b1426f9247bb680e5fe0cg",
        "67e55044-10b1426f-9247-bb680e5fe0c8-",
        "(6d93bade-bd9f-4e13-8914-9474e1e3567b)",
        "urn:uid:67e55044-10b1-426f-9247-bb680e5fe0c8x",
        "67e55044-10b1-426f-9247-bb680e5fe0cé",
    ] {
        assert!(parse_resume_token(bad.to_owned()).is_err(), "{bad}");
    }
}

#[test]
fn document_rows_number_code_blocks_and_restart_list_numbering() {
    let lines = [
        K::Heading,
        K::CodeBlock,
        K::OrderedList,
        K::OrderedList,
        K::Line,
        K::OrderedList,
        K::CodeBlock,
    ];
    let block = |line: usize, code_index: Option<usize>, fresh_numbering: bool| MarkdownRow::Block {
        line,
        code_index,
        fresh_numbering,
    };
    assert_eq!(
        markdown_row_plan(&lines),
        vec![
            block(0, None, false),
            MarkdownRow::Blank,
            block(1, Some(0), false),
            MarkdownRow::Blank,
            block(2, None, true),
            block(3, None, false),
            MarkdownRow::Blank,
            block(4, None, false),
            MarkdownRow::Blank,
            block(5, None, true),
            MarkdownRow::Blank,
            block(6, Some(1), false),
        ]
    );
    assert!(markdown_row_plan(&[]).is_empty());
}
