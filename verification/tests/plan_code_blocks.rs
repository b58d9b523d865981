use warp_tui::plan_code_blocks::{
    code_view_sync, plan_code_keys, CodeViewStep, TuiPlanCodeKey,
};

fn key(document_index: usize, code_index: usize) -> TuiPlanCodeKey {
    TuiPlanCodeKey {
        document_index,
        code_index,
    }
}

#[test]
fn code_blocks_are_keyed_per_document() {
    let documents = vec![
        Some(vec![false, true, false, true]),
        None,
        Some(vec![true]),
    ];
    assert_eq!(
        plan_code_keys(&documents),
        vec![key(0, 0), key(0, 1), key(2, 0)]
    );
}

#[test]
fn plan_without_parsed_documents_has_no_code_blocks() {
    assert!(plan_code_keys(&[None, Some(vec![false, false])]).is_empty());
}

#[test]
fn sync_drops_stale_views_and_creates_missing_ones() {
    let existing = vec![key(0, 0), key(0, 1), key(1, 0)];
    let wanted = vec![key(0, 0), key(2, 0), key(2, 0)];
    let sync = code_view_sync(&existing, &wanted);
    assert_eq!(sync.removed, vec![key(0, 1), key(1, 0)]);
    assert_eq!(
        sync.steps,
        vec![
            CodeViewStep::Update(key(0, 0)),
            CodeViewStep::Create(key(2, 0)),
            CodeViewStep::Update(key(2, 0)),
        ]
    );
}
