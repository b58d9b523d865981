use warp_tui::shell_command_view::ShellCommandViewState;

#[test]
fn shell_command_views_keep_independent_collapse_state() {
    let mut first = ShellCommandViewState::new_collapsed();
    let second = ShellCommandViewState::new_collapsed();

    first.toggle();

    assert!(!first.is_collapsed());
    assert!(second.is_collapsed());
}

#[test]
fn manual_collapse_override_wins_over_auto_expansion() {
    let mut state = ShellCommandViewState::new_collapsed();

    state.toggle();

    assert!(!state.is_collapsed());
    assert!(state.manual_override);
    assert!(!state.auto_expanded);
}

#[test]
fn terminal_block_is_collapsed_by_default_and_expands_inline() {
    let mut state = ShellCommandViewState::new_collapsed();
    assert!(state.is_collapsed());
    state.toggle();
    assert!(!state.is_collapsed());
    state.toggle();
    assert!(state.is_collapsed());
    assert!(state.manual_override);
    assert!(!state.auto_expanded);
}
