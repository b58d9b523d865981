use warp_tui::history_menu::{
    accepted_row, empty_history_status, filter_history_rows, history_item_matches,
    preview_is_agent_input, reconciled_selection_index, select_next_dismisses,
    TuiPromptAndCommandHistoryRow, TuiUpArrowHistoryItemKind,
};

fn prompt(text: &str) -> TuiPromptAndCommandHistoryRow {
    TuiPromptAndCommandHistoryRow {
        text: text.to_owned(),
        kind: TuiUpArrowHistoryItemKind::Prompt,
    }
}

fn command(text: &str) -> TuiPromptAndCommandHistoryRow {
    TuiPromptAndCommandHistoryRow {
        text: text.to_owned(),
        kind: TuiUpArrowHistoryItemKind::Command,
    }
}

#[test]
fn reconciled_selection_prefers_text_then_index_then_last_row() {
    let rows = vec![prompt("one"), prompt("two"), prompt("three")];

    assert_eq!(
        reconciled_selection_index(&rows, Some(&prompt("two")), Some(0)),
        Some(1)
    );
    assert_eq!(
        reconciled_selection_index(&rows[..2], Some(&prompt("gone")), Some(5)),
        Some(1)
    );
    assert_eq!(reconciled_selection_index(&rows, None, None), Some(2));
    assert_eq!(reconciled_selection_index(&[], Some(&prompt("x")), Some(0)), None);
}

#[test]
fn reconciled_selection_distinguishes_kinds() {
    let rows = vec![command("ls"), prompt("ls")];
    assert_eq!(
        reconciled_selection_index(&rows, Some(&prompt("ls")), Some(0)),
        Some(1)
    );
    let rows = vec![prompt("a"), prompt("a")];
    assert_eq!(
        reconciled_selection_index(&rows, Some(&prompt("a")), Some(1)),
        Some(0)
    );
    assert_eq!(
        reconciled_selection_index(&rows, Some(&prompt("b")), Some(0)),
        Some(0)
    );
}

#[test]
fn typed_query_matches_any_line_prefix() {
    assert!(history_item_matches("deploy the app\nthen verify it", "then"));
    assert!(history_item_matches("deploy the app\r\nthen verify it", "  then "));
    assert!(!history_item_matches("deploy the app", "app"));
    assert!(history_item_matches("anything", "   "));
    assert!(!history_item_matches("", "x"));
    assert!(!history_item_matches("ab\ncd", "b\nc"));
    assert!(history_item_matches("git status", "git"));
}

#[test]
fn filtering_keeps_matching_rows_in_order() {
    let rows = vec![
        command("git status"),
        prompt("fix the build"),
        command("git log"),
    ];
    let kept = filter_history_rows(rows, "git");
    assert_eq!(kept.len(), 2);
    assert_eq!(kept[0].text, "git status");
    assert_eq!(kept[1].text, "git log");
    let all = filter_history_rows(vec![prompt("a"), prompt("b")], "");
    assert_eq!(all.len(), 2);
}

#[test]
fn down_past_newest_or_on_empty_list_dismisses() {
    assert!(select_next_dismisses(0, None));
    assert!(select_next_dismisses(3, Some(2)));
    assert!(!select_next_dismisses(3, Some(1)));
    assert!(!select_next_dismisses(3, None));
}

#[test]
fn empty_state_names_the_query() {
    assert_eq!(empty_history_status(""), "No history");
    assert_eq!(empty_history_status("  "), "No history");
    assert_eq!(empty_history_status("git"), "No matching history");
}

#[test]
fn accepted_rows_follow_the_visible_input_type() {
    let recalled = accepted_row(Some(command("git log")), "typed".to_owned(), true);
    assert_eq!(recalled.text, "git log");
    assert_eq!(recalled.kind, TuiUpArrowHistoryItemKind::Prompt);
    let typed = accepted_row(None, "typed".to_owned(), false);
    assert_eq!(typed.text, "typed");
    assert_eq!(typed.kind, TuiUpArrowHistoryItemKind::Command);
    assert!(preview_is_agent_input(TuiUpArrowHistoryItemKind::Prompt));
    assert!(!preview_is_agent_input(TuiUpArrowHistoryItemKind::Command));
}

fn texts(rows: &[TuiPromptAndCommandHistoryRow]) -> Vec<String> {
    rows.iter().map(|row| row.text.clone()).collect()
}

#[test]
fn open_selects_and_previews_last_row() {
    let rows = vec![prompt("first"), prompt("second"), prompt("third")];
    let selected = reconciled_selection_index(&rows, None, None);
    assert_eq!(selected, Some(2));
    assert_eq!(rows[selected.unwrap()].text, "third");
}

#[test]
fn open_with_typed_text_prefix_filters_rows() {
    let rows = filter_history_rows(
        vec![prompt("deploy the app"), prompt("delete cache"), prompt("build")],
        "de",
    );
    assert_eq!(texts(&rows), vec!["deploy the app", "delete cache"]);
}

#[test]
fn typed_text_prefix_matches_any_prompt_line() {
    let multiline = "deploy the app\nverify the deployment";
    let rows = filter_history_rows(vec![prompt(multiline), prompt("unrelated prompt")], "verify");
    assert_eq!(texts(&rows), vec![multiline]);
}

#[test]
fn accept_selected_returns_highlighted_prompt_and_closes() {
    let rows = vec![prompt("older prompt"), prompt("newest prompt")];
    let selected = reconciled_selection_index(&rows, None, None).unwrap();
    let accepted = accepted_row(Some(rows[selected].clone()), String::new(), true);
    assert_eq!(accepted.text, "newest prompt");
}

#[test]
fn empty_history_shows_explicit_empty_state() {
    let rows = filter_history_rows(Vec::new(), "");
    assert!(rows.is_empty());
    assert_eq!(empty_history_status(""), "No history");
}

#[test]
fn down_dismisses_empty_history() {
    let rows = filter_history_rows(Vec::new(), "");
    let selected = reconciled_selection_index(&rows, None, None);
    assert!(select_next_dismisses(rows.len(), selected));
}

#[test]
fn down_dismisses_filtered_to_empty_history_and_restores_query() {
    let rows = filter_history_rows(vec![prompt("deploy the app")], "no match");
    assert!(rows.is_empty());
    let selected = reconciled_selection_index(&rows, None, None);
    assert!(select_next_dismisses(rows.len(), selected));
    assert_eq!(empty_history_status("no match"), "No matching history");
}
