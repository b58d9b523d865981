use warp_tui::diff_apply::{
    apply_deltas_to_content, final_content_from_op, persist_outcome, planned_write,
    snapshot_pending_file, split_lines_preserving_newlines, DiffDelta, DiffSessionType, DiffType,
    FileDiff, PersistAction,
};

fn delta(start: usize, end: usize, insertion: &str) -> DiffDelta {
    DiffDelta {
        replacement_line_range: start..end,
        insertion: insertion.to_owned(),
    }
}

#[test]
fn final_content_from_op_applies_deltas() {
    let op = DiffType::update(vec![delta(2, 3, "TWO\n")], None);

    let final_content = final_content_from_op("one\ntwo\nthree\n", &op).unwrap();

    assert_eq!(final_content, "one\nTWO\nthree\n");
}

#[test]
fn apply_deltas_normalizes_newline_less_insertions() {
    let deltas = vec![delta(2, 3, "TWO\nTWO-AND-A-HALF")];

    let final_content = apply_deltas_to_content("one\ntwo\nthree\n", &deltas).unwrap();

    assert_eq!(final_content, "one\nTWO\nTWO-AND-A-HALF\nthree\n");
}

#[test]
fn persist_action_renames_only_on_local_sessions() {
    let rename_op = DiffType::update(Vec::new(), Some("/tmp/new.rs".to_owned()));

    assert!(matches!(
        PersistAction::resolve(&rename_op, &DiffSessionType::Local, "/tmp/old.rs"),
        PersistAction::Rename(_)
    ));
    assert!(matches!(
        PersistAction::resolve(
            &rename_op,
            &DiffSessionType::Remote("host".to_owned()),
            "/tmp/old.rs"
        ),
        PersistAction::Write
    ));
    assert!(matches!(
        PersistAction::resolve(&rename_op, &DiffSessionType::Local, "/tmp/new.rs"),
        PersistAction::Write
    ));
}

#[test]
fn remote_rename_outcome_reports_update_at_original_path() {
    let op = DiffType::update(Vec::new(), Some("/tmp/new.rs".to_owned()));
    let action = PersistAction::resolve(
        &op,
        &DiffSessionType::Remote("host".to_owned()),
        "/tmp/old.rs",
    );
    let diff = FileDiff::new("content\n".to_owned(), "/tmp/old.rs".to_owned(), op);

    let state = persist_outcome(&action, &diff, "/tmp/old.rs", "content!\n", ());

    let updated = state.updated.expect("expected an updated file");
    assert_eq!(updated.path, "/tmp/old.rs");
    assert_eq!(state.deleted_paths, Vec::<String>::new());
}

#[test]
fn local_rename_outcome_reports_source_as_deleted() {
    let op = DiffType::update(Vec::new(), Some("/tmp/new.rs".to_owned()));
    let action = PersistAction::resolve(&op, &DiffSessionType::Local, "/tmp/old.rs");
    let diff = FileDiff::new("content\n".to_owned(), "/tmp/old.rs".to_owned(), op);

    let state = persist_outcome(&action, &diff, "/tmp/old.rs", "content\n", 7u32);

    let updated = state.updated.expect("expected an updated file");
    assert_eq!(updated.path, "/tmp/new.rs");
    assert_eq!(updated.changed_lines, 7);
    assert!(!updated.was_edited);
    assert_eq!(state.deleted_paths, vec!["/tmp/old.rs".to_owned()]);
    assert_eq!(state.diff_name, "/tmp/new.rs");
    assert_eq!(state.diff_base, "content\n");
    assert_eq!(state.diff_new, "content\n");
}

#[test]
fn delete_outcome_reports_the_path_removed() {
    let diff = FileDiff::new("gone\n".to_owned(), "/tmp/a.rs".to_owned(), DiffType::Delete);
    let action = PersistAction::resolve(&DiffType::Delete, &DiffSessionType::Local, "/tmp/a.rs");
    assert!(matches!(action, PersistAction::Delete));
    let state = persist_outcome(&action, &diff, "/tmp/a.rs", "", ());
    assert!(state.updated.is_none());
    assert_eq!(state.deleted_paths, vec!["/tmp/a.rs".to_owned()]);
    assert_eq!(state.diff_new, "");
    assert_eq!(state.diff_base, "gone\n");
}

#[test]
fn split_lines_keeps_line_endings() {
    assert_eq!(split_lines_preserving_newlines(""), Vec::<String>::new());
    assert_eq!(
        split_lines_preserving_newlines("a\nb\r\nc"),
        vec!["a\n".to_owned(), "b\r\n".to_owned(), "c".to_owned()]
    );
    assert_eq!(
        split_lines_preserving_newlines("\n\n"),
        vec!["\n".to_owned(), "\n".to_owned()]
    );
    let text = "x\ny\n\nz";
    assert_eq!(split_lines_preserving_newlines(text).concat(), text);
}

#[test]
fn deltas_apply_from_the_bottom_up_regardless_of_order() {
    let deltas = vec![delta(3, 4, "C\n"), delta(1, 2, "A\n")];
    assert_eq!(
        apply_deltas_to_content("a\nb\nc\nd\n", &deltas).unwrap(),
        "A\nb\nC\nd\n"
    );
}

#[test]
fn insertion_and_deletion_deltas() {
    assert_eq!(
        apply_deltas_to_content("a\nb\n", &[delta(2, 2, "new")]).unwrap(),
        "a\nnew\nb\n"
    );
    assert_eq!(
        apply_deltas_to_content("a\nb\nc\n", &[delta(2, 3, "")]).unwrap(),
        "a\nc\n"
    );
    assert_eq!(
        apply_deltas_to_content("a\n", &[delta(2, 2, "tail")]).unwrap(),
        "a\ntail\n"
    );
}

#[test]
fn empty_base_keeps_insertion_as_is() {
    assert_eq!(
        apply_deltas_to_content("", &[delta(1, 1, "first")]).unwrap(),
        "first"
    );
}

#[test]
fn no_deltas_keep_the_content() {
    assert_eq!(apply_deltas_to_content("a\r\nb", &[]).unwrap(), "a\r\nb");
}

#[test]
fn out_of_bounds_ranges_are_errors() {
    assert_eq!(
        apply_deltas_to_content("one\ntwo\n", &[delta(5, 6, "x")]),
        Err("Diff range 5..6 is out of bounds for file with 2 lines".to_owned())
    );
    assert_eq!(
        apply_deltas_to_content("one\ntwo\n", &[delta(3, 2, "x")]),
        Err("Diff range 3..2 is out of bounds for file with 2 lines".to_owned())
    );
}

#[test]
fn create_and_delete_final_content() {
    let create = DiffType::Create {
        delta: delta(1, 1, "fn main() {}\n"),
    };
    assert_eq!(final_content_from_op("", &create).unwrap(), "fn main() {}\n");
    assert_eq!(final_content_from_op("old", &DiffType::Delete).unwrap(), "");
}

#[test]
fn planned_write_reports_derivation_errors() {
    let diff = FileDiff::new(
        "one\n".to_owned(),
        "/tmp/a.rs".to_owned(),
        DiffType::update(vec![delta(9, 9, "x")], None),
    );
    assert_eq!(
        planned_write(&diff, &DiffSessionType::Local).err(),
        Some("Diff range 9..9 is out of bounds for file with 1 lines".to_owned())
    );
    let snapshot = snapshot_pending_file(&diff, &DiffSessionType::Local, ());
    assert_eq!(snapshot.diff_new, "");
    assert_eq!(snapshot.diff_name, "/tmp/a.rs");

    let ok = FileDiff::new(
        "one\n".to_owned(),
        "/tmp/a.rs".to_owned(),
        DiffType::update(vec![delta(1, 2, "ONE\n")], None),
    );
    let (action, content) = planned_write(&ok, &DiffSessionType::Local).unwrap();
    assert!(matches!(action, PersistAction::Write));
    assert_eq!(content, "ONE\n");
}

#[test]
fn split_lines_yield_newline_terminated_non_empty_pieces() {
    assert_eq!(
        warp_tui::diff_apply::split_lines_preserving_newlines("a\nb"),
        vec!["a\n".to_owned(), "b".to_owned()]
    );
    assert!(warp_tui::diff_apply::split_lines_preserving_newlines("").is_empty());
    assert_eq!(
        warp_tui::diff_apply::split_lines_preserving_newlines("\n\nx\n"),
        vec!["\n".to_owned(), "\n".to_owned(), "x\n".to_owned()]
    );
}
