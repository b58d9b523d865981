use warp_tui::orchestration_nav::TuiOrchestrationTabNavigationAction;
use warp_tui::tab_bar::{
    minimum_row_width, page_row_plan, page_variant_at_width, PageVariant, TabRowItem, TabStyleKind,
    TuiMeasuredText, TuiTab, TuiTabBarAction,
    TuiTabBarConfig, TuiTabBarConfigError, TuiTabBarEvent, TuiTabBarNavigationDirection,
    TuiTabBarPagingState, TuiTabBarSecondaryEdge, TuiTabBarView,
};

fn tab(key: &str, label: &str) -> TuiTab {
    TuiTab::new(key.to_owned(), label.to_owned(), label.chars().count() as u16, 1)
}

fn three_tabs() -> TuiTabBarConfig {
    TuiTabBarConfig::new(vec![tab("a", "alpha"), tab("b", "beta"), tab("c", "gamma")])
}

#[test]
fn duplicate_keys_are_rejected_with_the_first_repeat() {
    let config = TuiTabBarConfig::new(vec![tab("a", "one"), tab("b", "two"), tab("a", "three")]);
    let err = TuiTabBarView::new(config).err().expect("duplicate key");
    assert_eq!(err, TuiTabBarConfigError::DuplicateKey("a".to_owned()));
    assert_eq!(err.message(), "duplicate TUI tab-bar key `a`");
}

#[test]
fn label_cap_too_small_is_rejected() {
    let mut config = three_tabs();
    config.maximum_label_columns = Some(2);
    let err = TuiTabBarView::new(config).err().expect("cap too small");
    assert_eq!(
        err,
        TuiTabBarConfigError::LabelWidthTooSmall {
            key: "a".to_owned(),
            configured: 2,
            required: 4,
        }
    );
    assert_eq!(
        err.message(),
        "TUI tab-bar label width 2 for tab `a` leaves no room for visible content; at least 4 columns are required"
    );
}

#[test]
fn set_config_keeps_the_old_config_on_error() {
    let mut view = TuiTabBarView::new(three_tabs()).unwrap();
    let bad = TuiTabBarConfig::new(vec![tab("x", "x"), tab("x", "y")]);
    assert!(view.set_config(bad).is_err());
    assert_eq!(view.live_keys(), vec!["a".to_owned(), "b".to_owned(), "c".to_owned()]);
}

#[test]
fn navigation_wraps_in_semantic_order() {
    let mut config = three_tabs();
    config.main_tab = Some(tab("main", "orchestrator"));
    config.selected_key = Some("c".to_owned());
    let view = TuiTabBarView::new(config).unwrap();
    assert_eq!(
        view.navigation_target(TuiTabBarNavigationDirection::Next),
        Some("main".to_owned())
    );
    assert_eq!(
        view.navigation_target(TuiTabBarNavigationDirection::Previous),
        Some("b".to_owned())
    );
    assert_eq!(
        view.secondary_edge_target(TuiTabBarSecondaryEdge::First),
        Some("a".to_owned())
    );
    assert_eq!(
        view.secondary_edge_target(TuiTabBarSecondaryEdge::Last),
        Some("c".to_owned())
    );
    assert_eq!(view.main_tab_key(), Some("main".to_owned()));
    assert_eq!(
        TuiOrchestrationTabNavigationAction::Next.target(&view),
        Some("main".to_owned())
    );
    assert_eq!(
        TuiOrchestrationTabNavigationAction::LastChild.target(&view),
        Some("c".to_owned())
    );
}

#[test]
fn empty_bar_has_no_targets() {
    let view = TuiTabBarView::empty();
    assert!(!view.has_tabs());
    assert_eq!(view.navigation_target(TuiTabBarNavigationDirection::Next), None);
    assert_eq!(
        TuiOrchestrationTabNavigationAction::FirstChild.target(&view),
        None
    );
}

#[test]
fn actions_become_events() {
    let view = TuiTabBarView::new(three_tabs()).unwrap();
    assert_eq!(
        view.handle_action(&TuiTabBarAction::SelectTab("b".to_owned())),
        TuiTabBarEvent::SelectTab("b".to_owned())
    );
    assert_eq!(
        view.handle_action(&TuiTabBarAction::PageChanged("c".to_owned())),
        TuiTabBarEvent::PageChanged("c".to_owned())
    );
}

#[test]
fn row_widths_count_tabs_gaps_and_arrows() {
    let config = three_tabs();
    assert_eq!(minimum_row_width(&config, 0, 3), 21);
    assert_eq!(minimum_row_width(&config, 0, 2), 16);
}

#[test]
fn wide_rows_show_every_tab_on_one_page() {
    let config = three_tabs();
    let all = PageVariant {
        start: 0,
        visible_count: 3,
        previous_start: None,
        next_start: None,
    };
    assert_eq!(page_variant_at_width(&config, 21), all);
    assert_eq!(page_variant_at_width(&config, 200), all);
    let narrow = page_variant_at_width(&config, 20);
    assert_eq!(narrow.start, 0);
    assert!(narrow.visible_count < 3);
    assert_eq!(narrow.next_start, Some(narrow.visible_count));
}

#[test]
fn paging_state_keeps_a_recognised_anchor() {
    let mut state: TuiTabBarPagingState<String> = TuiTabBarPagingState::default();
    let page = state.resolve(Some("a".to_owned()), |_| true);
    assert_eq!(page.page_anchor, Some("a".to_owned()));
    assert!(page.reveal_selected);

    state.set_explicit_anchor("b".to_owned());
    let page = state.resolve(Some("a".to_owned()), |anchor| anchor == "b");
    assert_eq!(page.page_anchor, Some("b".to_owned()));
    assert!(!page.reveal_selected);

    let page = state.resolve(Some("a".to_owned()), |_| false);
    assert_eq!(page.page_anchor, Some("a".to_owned()));
    assert!(page.reveal_selected);

    state.clear_explicit_anchor();
    let page = state.resolve(None, |_| true);
    assert_eq!(page.page_anchor, None);
    assert!(page.reveal_selected);
}

use warp_tui::tab_bar::{deterministic_pages_at_width, page_variant_transitions};

#[test]
fn deterministic_pages_partition_the_tabs() {
    let config = TuiTabBarConfig::new(vec![
        tab("a", "alpha"),
        tab("b", "beta"),
        tab("c", "gamma"),
        tab("d", "delta"),
        tab("e", "epsilon"),
    ]);
    for width in [14u16, 16, 20, 30] {
        let pages = deterministic_pages_at_width(&config, width);
        let mut next = 0;
        let mut previous = None;
        for page in &pages {
            assert_eq!(page.start, next);
            assert_eq!(page.previous_start, previous);
            assert!(page.visible_count > 0);
            previous = Some(page.start);
            next = page.start + page.visible_count;
            match page.next_start {
                Some(start) => assert_eq!(start, next),
                None => assert_eq!(next, 5),
            }
        }
        assert_eq!(next, 5);
    }
}

#[test]
fn page_transitions_list_each_narrower_alternative() {
    let config = three_tabs();
    let (widest, transitions) = page_variant_transitions(&config);
    assert_eq!(widest, page_variant_at_width(&config, u16::MAX));
    assert!(!transitions.is_empty());
    let mut last_width = 0;
    for (width, page) in &transitions {
        assert!(*width > last_width);
        assert_eq!(*page, page_variant_at_width(&config, *width - 1));
        assert_ne!(*page, page_variant_at_width(&config, *width));
        last_width = *width;
    }
}

#[test]
fn page_row_shows_divider_arrows_and_caps_the_last_visible_tab() {
    let mut config = three_tabs();
    config.leading = Some(TuiMeasuredText { text: "Agents:".to_owned(), columns: 7 });
    config.main_tab = Some(tab("main", "orchestrator"));
    config.selected_key = Some("b".to_owned());
    config.focused = true;
    let page = PageVariant {
        start: 1,
        visible_count: 2,
        previous_start: Some(0),
        next_start: None,
    };
    assert_eq!(
        page_row_plan(&config, page),
        vec![
            TabRowItem::Leading,
            TabRowItem::Tab {
                secondary_index: None,
                style: TabStyleKind::Tab,
                label_columns: 12,
                max_columns: None
            },
            TabRowItem::Divider,
            TabRowItem::PreviousPage { anchor: 0 },
            TabRowItem::Tab {
                secondary_index: Some(1),
                style: TabStyleKind::SelectedFocused,
                label_columns: 4,
                max_columns: None
            },
            TabRowItem::Tab {
                secondary_index: Some(2),
                style: TabStyleKind::Tab,
                label_columns: 5,
                max_columns: Some(7)
            },
        ]
    );
}

#[test]
fn page_row_without_secondary_tabs_has_no_divider() {
    let mut config = TuiTabBarConfig::new(Vec::new());
    config.main_tab = Some(tab("main", "orchestrator"));
    config.selected_key = Some("main".to_owned());
    let page = PageVariant {
        start: 0,
        visible_count: 0,
        previous_start: None,
        next_start: None,
    };
    assert_eq!(
        page_row_plan(&config, page),
        vec![TabRowItem::Tab {
            secondary_index: None,
            style: TabStyleKind::SelectedUnfocused,
            label_columns: 12,
            max_columns: None
        }]
    );
}

#[test]
fn set_config_reports_whether_the_view_must_render_again() {
    let mut view = TuiTabBarView::new(three_tabs()).unwrap();
    let bad = TuiTabBarConfig::new(vec![tab("x", "x"), tab("x", "y")]);
    assert_eq!(
        view.set_config(bad.clone()).err(),
        TuiTabBarView::new(bad).err()
    );
    assert_eq!(
        view.navigation_target(TuiTabBarNavigationDirection::Next),
        TuiTabBarView::new(three_tabs()).unwrap().navigation_target(TuiTabBarNavigationDirection::Next)
    );
    assert_eq!(view.set_config(three_tabs()), Ok(false));
    let mut selected = three_tabs();
    selected.selected_key = Some("b".to_owned());
    assert_eq!(view.set_config(selected.clone()), Ok(true));
    assert_eq!(view.set_config(selected), Ok(false));
}
