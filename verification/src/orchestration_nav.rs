//! The orchestration tab bar: the tab-bar configuration built from an
//! orchestration snapshot, the icon each child tab shows, and keyboard
//! navigation across the tabs.
use vstd::prelude::*;
use crate::tab_bar::{
    spec_navigation_target, TuiMeasuredText, TuiTab, TuiTabBarConfig, TuiTabBarNavigationDirection,
    TuiTabBarSecondaryEdge, TuiTabBarView,
};
use crate::text::push_chars;

verus! {

/// A navigation key bound while the orchestration tab bar has focus.
#[derive(Clone, Copy, Debug, PartialEq, Eq, Structural)]
pub enum TuiOrchestrationTabNavigationAction {
    Previous,
    Next,
    FirstChild,
    LastChild,
}

impl TuiOrchestrationTabNavigationAction {
    /// The conversation key the action selects: the adjacent tab (wrapping)
    /// for previous/next, the first or last child agent for the edges.
    pub fn target(self, tab_bar: &TuiTabBarView) -> (key: Option<String>)
        ensures
            match self {
                TuiOrchestrationTabNavigationAction::Previous => match spec_navigation_target(
                    tab_bar.spec_config(),
                    TuiTabBarNavigationDirection::Previous,
                ) {
                    None => key is None,
                    Some(k) => key matches Some(t) && t@ == k,
                },
                TuiOrchestrationTabNavigationAction::Next => match spec_navigation_target(
                    tab_bar.spec_config(),
                    TuiTabBarNavigationDirection::Next,
                ) {
                    None => key is None,
                    Some(k) => key matches Some(t) && t@ == k,
                },
                TuiOrchestrationTabNavigationAction::FirstChild => if tab_bar.spec_config().tabs@.len()
                    == 0 {
                    key is None
                } else {
                    key matches Some(t) && t@ == tab_bar.spec_config().tabs@[0].key@
                },
                TuiOrchestrationTabNavigationAction::LastChild => if tab_bar.spec_config().tabs@.len()
                    == 0 {
                    key is None
                } else {
                    key matches Some(t) && t@ == tab_bar.spec_config().tabs@.last().key@
                },
            },
    {
        match self {
            TuiOrchestrationTabNavigationAction::Previous => tab_bar.navigation_target(
                TuiTabBarNavigationDirection::Previous,
            ),
            TuiOrchestrationTabNavigationAction::Next => tab_bar.navigation_target(
                TuiTabBarNavigationDirection::Next,
            ),
            TuiOrchestrationTabNavigationAction::FirstChild => tab_bar.secondary_edge_target(
                TuiTabBarSecondaryEdge::First,
            ),
            TuiOrchestrationTabNavigationAction::LastChild => tab_bar.secondary_edge_target(
                TuiTabBarSecondaryEdge::Last,
            ),
        }
    }
}

/// The widest a child agent's label may render, in columns.
pub const ORCHESTRATION_TAB_LABEL_MAX_COLUMNS: u16 = 20;

/// The status of a child agent's conversation.
#[derive(Clone, Copy, Debug, PartialEq, Eq, Structural)]
pub enum ConversationStatus {
    InProgress,
    TransientError,
    WaitingForEvents,
    Blocked,
    Success,
    Error,
    Cancelled,
}

/// What a child tab shows before its label.
#[derive(Clone, Copy, Debug, PartialEq, Eq, Structural)]
pub enum OrchestrationTabIcon {
    /// The conversation's live status glyph.
    Status,
    /// The agent's identity glyph, in its identity color.
    Identity,
}

/// Whether a conversation is still live (running, retrying, waiting or
/// blocked) rather than finished.
pub open spec fn is_live_status(status: ConversationStatus) -> bool {
    match status {
        ConversationStatus::InProgress | ConversationStatus::TransientError
        | ConversationStatus::WaitingForEvents | ConversationStatus::Blocked => true,
        ConversationStatus::Success | ConversationStatus::Error | ConversationStatus::Cancelled => false,
    }
}

/// A live conversation shows its status glyph; a finished one shows its
/// agent's identity glyph.
pub fn orchestration_tab_icon(status: ConversationStatus) -> (icon: OrchestrationTabIcon)
    ensures
        icon == (if is_live_status(status) {
            OrchestrationTabIcon::Status
        } else {
            OrchestrationTabIcon::Identity
        }),
{
    match status {
        ConversationStatus::InProgress | ConversationStatus::TransientError
        | ConversationStatus::WaitingForEvents | ConversationStatus::Blocked => OrchestrationTabIcon::Status,
        ConversationStatus::Success | ConversationStatus::Error | ConversationStatus::Cancelled => OrchestrationTabIcon::Identity,
    }
}

/// One child agent of an orchestration, as its tab shows it: its
/// conversation key, its label with the label's measured columns, and the
/// icon text (chosen by `orchestration_tab_icon`) with its columns.
#[derive(Clone, Debug)]
pub struct OrchestrationChild {
    pub key: String,
    pub label: String,
    pub label_columns: u16,
    pub first_grapheme_columns: u16,
    pub icon: String,
    pub icon_columns: u16,
}

/// The orchestration state the tab bar presents: the orchestrator's
/// conversation, the children in display order, the selection and the
/// paging intent.
#[derive(Clone, Debug)]
pub struct OrchestrationSnapshot {
    pub root_key: String,
    pub children: Vec<OrchestrationChild>,
    pub selected_key: String,
    pub page_anchor: Option<String>,
    pub reveal_selected: bool,
}

/// The tab of a child agent: its key and label, led by its icon.
pub open spec fn child_tab(child: OrchestrationChild, tab: TuiTab) -> bool {
    &&& tab.key@ == child.key@
    &&& tab.label@ == child.label@
    &&& tab.label_columns == child.label_columns
    &&& tab.first_grapheme_columns == child.first_grapheme_columns
    &&& tab.leading matches Some(l) && l.text@ == child.icon@ && l.columns == child.icon_columns
}

/// Builds the orchestration tab bar's configuration: an `Agents:` lead-in,
/// the orchestrator as the main tab, one tab per child in snapshot order
/// led by its icon, the snapshot's selection and paging intent, labels
/// capped at twenty columns and three columns between child tabs.
pub fn orchestration_tab_bar_config(snapshot: OrchestrationSnapshot, focused: bool) -> (config:
    TuiTabBarConfig)
    ensures
        config.leading matches Some(l) && l.text@ == "   Agents:   "@ && l.columns == 13,
        config.main_tab matches Some(m) && m.key@ == snapshot.root_key@ && m.label@
            == "orchestrator"@ && m.label_columns == 12 && m.first_grapheme_columns == 1
            && m.leading is None,
        config.tabs@.len() == snapshot.children@.len(),
        forall|i: int|
            0 <= i < snapshot.children@.len() ==> child_tab(
                #[trigger] snapshot.children@[i],
                config.tabs@[i],
            ),
        config.selected_key matches Some(k) && k@ == snapshot.selected_key@,
        config.focused == focused,
        config.page_anchor == snapshot.page_anchor,
        config.reveal_selected == snapshot.reveal_selected,
        config.maximum_label_columns == Some(ORCHESTRATION_TAB_LABEL_MAX_COLUMNS),
        config.tab_padding_columns == 1,
        config.secondary_gap_columns == 3,
{
    let children = snapshot.children;
    let mut tabs: Vec<TuiTab> = Vec::new();
    let mut i: usize = 0;
    while i < children.len()
        invariant
            i <= children@.len(),
            tabs@.len() == i,
            forall|j: int| 0 <= j < i ==> child_tab(#[trigger] children@[j], tabs@[j]),
        decreases children@.len() - i,
    {
        let child = &children[i];
        let tab = TuiTab::new(
            child.key.clone(),
            child.label.clone(),
            child.label_columns,
            child.first_grapheme_columns,
        ).with_leading_text(child.icon.clone(), child.icon_columns);
        tabs.push(tab);
        i = i + 1;
    }
    let mut config = TuiTabBarConfig::new(tabs);
    let mut leading = String::new();
    push_chars(&mut leading, "   Agents:   ");
    proof {
        reveal_strlit("   Agents:   ");
    }
    config.leading = Some(TuiMeasuredText { text: leading, columns: 13 });
    let mut main_label = String::new();
    push_chars(&mut main_label, "orchestrator");
    config.main_tab = Some(TuiTab::new(snapshot.root_key, main_label, 12, 1));
    config.selected_key = Some(snapshot.selected_key);
    config.focused = focused;
    config.page_anchor = snapshot.page_anchor;
    config.reveal_selected = snapshot.reveal_selected;
    config.maximum_label_columns = Some(ORCHESTRATION_TAB_LABEL_MAX_COLUMNS);
    config.secondary_gap_columns = 3;
    config
}

} // verus!
