use warp_tui::conversation_restore::{
    ConversationRestore, ConversationRestoreState, RestoreAction, RestoreOutcome,
    TuiConversationRestoreOrigin as Origin,
};

#[test]
fn one_restore_at_a_time() {
    let mut restore = ConversationRestore::new();
    assert_eq!(restore.request(Origin::ConversationList), vec![RestoreAction::StartLoad(1)]);
    assert!(restore.is_loading());
    assert!(restore.is_current_request(1));
    assert!(restore.request(Origin::Startup).is_empty());
    assert_eq!(
        restore.state,
        ConversationRestoreState::Loading {
            origin: Origin::ConversationList,
            request_id: 1
        }
    );
}

#[test]
fn a_matching_conversation_replaces_the_surface() {
    let mut restore = ConversationRestore::new();
    restore.request(Origin::Startup);
    let actions = restore.handle_result(1, RestoreOutcome::Loaded { matches_target: true });
    assert_eq!(
        actions,
        vec![
            RestoreAction::ReplaceConversation(Origin::Startup),
            RestoreAction::FocusInput
        ]
    );
    assert_eq!(restore.state, ConversationRestoreState::Idle);
}

#[test]
fn startup_failures_stay_on_screen_and_list_failures_show_a_notice() {
    let mut restore = ConversationRestore::new();
    restore.request(Origin::Startup);
    assert!(restore.handle_result(1, RestoreOutcome::Missing).is_empty());
    assert_eq!(
        restore.state,
        ConversationRestoreState::Failed("The conversation could not be loaded.".to_owned())
    );

    let mut restore = ConversationRestore::new();
    restore.request(Origin::ConversationList);
    let actions = restore.handle_result(1, RestoreOutcome::OtherAgent);
    assert_eq!(
        actions,
        vec![
            RestoreAction::ShowHint("The Warp TUI only supports Oz/Warp conversations.".to_owned()),
            RestoreAction::FocusInput
        ]
    );
    assert_eq!(restore.state, ConversationRestoreState::Idle);

    let mut restore = ConversationRestore::new();
    restore.request(Origin::ConversationList);
    let actions = restore.handle_result(1, RestoreOutcome::Loaded { matches_target: false });
    assert_eq!(
        actions[0],
        RestoreAction::ShowHint(
            "The restored conversation did not match the requested conversation.".to_owned()
        )
    );
}

#[test]
fn cancelled_requests_ignore_late_results() {
    let mut restore = ConversationRestore::new();
    restore.request(Origin::ConversationList);
    let (cancelled, actions) = restore.cancel();
    assert!(cancelled);
    assert_eq!(actions, vec![RestoreAction::AbortLoad, RestoreAction::FocusInput]);
    assert!(restore
        .handle_result(1, RestoreOutcome::Loaded { matches_target: true })
        .is_empty());
    assert_eq!(restore.state, ConversationRestoreState::Idle);
    assert_eq!(restore.request(Origin::ConversationList), vec![RestoreAction::StartLoad(3)]);
    assert!(restore.handle_result(1, RestoreOutcome::Missing).is_empty());
    assert!(restore.is_current_request(3));
    let (cancelled, _) = ConversationRestore::new().cancel();
    assert!(!cancelled);
}

#[test]
fn request_numbers_wrap() {
    let mut restore = ConversationRestore {
        state: ConversationRestoreState::Idle,
        next_request_id: u64::MAX,
    };
    assert_eq!(restore.request(Origin::Startup), vec![RestoreAction::StartLoad(0)]);
}
