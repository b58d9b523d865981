use warp_tui::zero_state::{
    changelog_bullets, project_context_lines, version_line, ProjectContextLines,
    TuiAutoupdateStatus,
};

fn strings(items: &[&str]) -> Vec<String> {
    items.iter().map(|item| (*item).to_owned()).collect()
}

#[test]
fn version_line_shows_the_updater_status() {
    let dev = version_line(None, TuiAutoupdateStatus::PendingRestart);
    assert_eq!(dev.text, "dev build");
    assert!(dev.suffix.is_none());
    let idle = version_line(Some("v0.2"), TuiAutoupdateStatus::Idle);
    assert_eq!(idle.text, "v0.2");
    assert!(idle.suffix.is_none());
    let checking = version_line(Some("v0.2"), TuiAutoupdateStatus::Checking);
    assert_eq!(checking.text, "v0.2 ");
    assert_eq!(
        checking.suffix,
        Some(("(checking for updates…)".to_owned(), false))
    );
    let pending = version_line(Some("v0.2"), TuiAutoupdateStatus::PendingRestart);
    assert_eq!(
        pending.suffix,
        Some(("(update installed, restart to apply)".to_owned(), true))
    );
}

#[test]
fn changelog_prefers_section_items() {
    assert_eq!(
        changelog_bullets(&strings(&["a", "b", "c", "d"]), &strings(&["* x"])),
        strings(&["a", "b", "c"])
    );
    assert_eq!(changelog_bullets(&strings(&["only"]), &[]), strings(&["only"]));
}

#[test]
fn changelog_falls_back_to_markdown_bullets() {
    let markdown = strings(&[
        "# Title\n  * first\r\n- second\nplain\n",
        "*not a bullet\n   -  third  \n* fourth",
    ]);
    assert_eq!(
        changelog_bullets(&[], &markdown),
        strings(&["first", "second", " third"])
    );
    assert_eq!(changelog_bullets(&[], &[]), Vec::<String>::new());
}

#[test]
fn project_lines_dedupe_rule_files() {
    assert!(matches!(
        project_context_lines(&[], 0),
        ProjectContextLines::Discovering
    ));
    match project_context_lines(&strings(&["AGENTS.md", "WARP.md", "AGENTS.md"]), 1) {
        ProjectContextLines::Loaded(lines) => assert_eq!(
            lines,
            strings(&["AGENTS.md loaded", "WARP.md loaded", "1 skill discovered"])
        ),
        ProjectContextLines::Discovering => panic!("expected lines"),
    }
    match project_context_lines(&[], 3) {
        ProjectContextLines::Loaded(lines) => assert_eq!(lines, strings(&["3 skills discovered"])),
        ProjectContextLines::Discovering => panic!("expected lines"),
    }
}
