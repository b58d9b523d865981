use warp_tui::orchestration_nav::{
    orchestration_tab_bar_config, orchestration_tab_icon, ConversationStatus,
    OrchestrationChild, OrchestrationSnapshot, OrchestrationTabIcon,
};
use warp_tui::tab_bar::TuiTabBarView;

fn child(key: &str, label: &str, icon: &str) -> OrchestrationChild {
    OrchestrationChild {
        key: key.to_owned(),
        label: label.to_owned(),
        label_columns: label.len() as u16,
        first_grapheme_columns: 1,
        icon: icon.to_owned(),
        icon_columns: 1,
    }
}

#[test]
fn live_children_show_status_and_finished_children_show_identity() {
    for status in [
        ConversationStatus::InProgress,
        ConversationStatus::TransientError,
        ConversationStatus::WaitingForEvents,
        ConversationStatus::Blocked,
    ] {
        assert_eq!(orchestration_tab_icon(status), OrchestrationTabIcon::Status);
    }
    for status in [
        ConversationStatus::Success,
        ConversationStatus::Error,
        ConversationStatus::Cancelled,
    ] {
        assert_eq!(orchestration_tab_icon(status), OrchestrationTabIcon::Identity);
    }
}

#[test]
fn orchestration_config_lists_children_after_the_orchestrator() {
    let snapshot = OrchestrationSnapshot {
        root_key: "root".to_owned(),
        children: vec![child("a", "alpha", "*"), child("b", "beta", "+")],
        selected_key: "b".to_owned(),
        page_anchor: None,
        reveal_selected: true,
    };
    let config = orchestration_tab_bar_config(snapshot, true);
    let leading = config.leading.clone().unwrap();
    assert_eq!(leading.text, "   Agents:   ");
    assert_eq!(leading.columns, 13);
    let main = config.main_tab.clone().unwrap();
    assert_eq!(main.key, "root");
    assert_eq!(main.label, "orchestrator");
    assert_eq!(config.tabs.len(), 2);
    assert_eq!(config.tabs[1].key, "b");
    assert_eq!(config.tabs[1].leading.clone().unwrap().text, "+");
    assert_eq!(config.selected_key.as_deref(), Some("b"));
    assert!(config.focused);
    assert_eq!(config.maximum_label_columns, Some(20));
    assert_eq!(config.secondary_gap_columns, 3);
    assert!(TuiTabBarView::new(config).is_ok());
}
