use warp_tui::input_detection::{
    input_detection_decision, parsed_result_is_applicable, should_reset_input_to_agent,
    InputDetectionDecision, has_slash_command_intent,
};
use warp_tui::text::first_token_of;

#[test]
fn current_parse_result_is_applicable_without_inline_menu() {
    assert!(parsed_result_is_applicable(
        "git status",
        "git status",
        false
    ));
}

#[test]
fn stale_parse_result_is_not_applicable() {
    assert!(!parsed_result_is_applicable("git", "git status", false));
}

#[test]
fn parse_result_is_not_applicable_while_inline_menu_is_active() {
    assert!(!parsed_result_is_applicable("/agent", "/agent", true));
}

#[test]
fn empty_input_resets_to_agent() {
    assert_eq!(
        input_detection_decision("", None, 0, false),
        InputDetectionDecision::ResetToAgent
    );
    assert_eq!(
        input_detection_decision("  \n", None, 0, false),
        InputDetectionDecision::ResetToAgent
    );
}

#[test]
fn unrecognized_slash_prefix_is_parsed_as_possible_shell_input() {
    assert_eq!(
        input_detection_decision("/usr/bin/env", None, 0, false),
        InputDetectionDecision::Parse
    );
    assert_eq!(
        input_detection_decision("/usr/bin/env", Some(1), 12, true),
        InputDetectionDecision::Classify
    );
}

#[test]
fn nonempty_input_is_parsed_before_detection() {
    assert_eq!(
        input_detection_decision("cargo", None, 0, false),
        InputDetectionDecision::Parse
    );
}

#[test]
fn decision_resets_short_or_unknown_single_tokens_to_agent() {
    assert_eq!(
        input_detection_decision("w", Some(1), 1, true),
        InputDetectionDecision::ResetToAgent
    );
    assert_eq!(
        input_detection_decision("fi", Some(1), 2, false),
        InputDetectionDecision::ResetToAgent
    );
    assert_eq!(
        input_detection_decision("fix", Some(1), 3, false),
        InputDetectionDecision::ResetToAgent
    );
}

#[test]
fn decision_routes_known_commands_and_multi_token_input_to_classifier() {
    assert_eq!(
        input_detection_decision("ls", Some(1), 2, true),
        InputDetectionDecision::Classify
    );
    assert_eq!(
        input_detection_decision("cargo", Some(1), 5, true),
        InputDetectionDecision::Classify
    );
    assert_eq!(
        input_detection_decision("git status", Some(2), 3, true),
        InputDetectionDecision::Classify
    );
    assert_eq!(
        input_detection_decision("fix this", Some(2), 3, false),
        InputDetectionDecision::Classify
    );
}

#[test]
fn only_unlocked_reset_decisions_change_to_agent() {
    assert!(should_reset_input_to_agent(
        InputDetectionDecision::ResetToAgent,
        false
    ));
    assert!(!should_reset_input_to_agent(
        InputDetectionDecision::Classify,
        false
    ));
    assert!(!should_reset_input_to_agent(
        InputDetectionDecision::ResetToAgent,
        true
    ));
}

#[test]
fn blank_input_resets_even_after_parsing() {
    assert_eq!(
        input_detection_decision(" \t\u{a0}\u{2003}", Some(3), 4, true),
        InputDetectionDecision::ResetToAgent
    );
}

#[test]
fn parsed_input_never_returns_to_parse() {
    assert_eq!(
        input_detection_decision("x", Some(0), 0, false),
        InputDetectionDecision::ResetToAgent
    );
    assert_ne!(
        input_detection_decision("ls -la", Some(2), 2, false),
        InputDetectionDecision::Parse
    );
}

#[test]
fn parse_decision_does_not_reset_input() {
    assert!(!should_reset_input_to_agent(InputDetectionDecision::Parse, false));
}

#[test]
fn applicability_compares_whole_text() {
    assert!(!parsed_result_is_applicable("git status", "git", false));
    assert!(!parsed_result_is_applicable("git statuS", "git status", false));
    assert!(parsed_result_is_applicable("", "", false));
}

#[test]
fn first_token_skips_leading_whitespace() {
    assert_eq!(first_token_of("  /model  gpt"), Some("/model".to_owned()));
    assert_eq!(first_token_of("\t/plan"), Some("/plan".to_owned()));
    assert_eq!(first_token_of("   "), None);
    assert_eq!(first_token_of(""), None);
}

#[test]
fn slash_intent_from_open_menu_or_known_first_token() {
    let names = vec!["/model".to_owned(), "/plan".to_owned()];
    assert!(has_slash_command_intent("anything", true, &names, false));
    assert!(has_slash_command_intent(" /plan write tests", false, &names, false));
    assert!(!has_slash_command_intent("/planner", false, &names, false));
    assert!(has_slash_command_intent("/my-skill", false, &names, true));
    assert!(!has_slash_command_intent("   ", false, &names, true));
}
