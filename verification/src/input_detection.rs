//! Agent-biased gating of input classification: which buffer snapshots are
//! returned to Agent, which are parsed first, and which reach the shared
//! Agent/Shell classifier.
use vstd::prelude::*;
use crate::text::{first_token, first_token_of, is_blank, str_eq, trims_to_empty};

verus! {

/// A single token needs at least this many characters to be classified as a
/// standalone command.
pub const MIN_STANDALONE_COMMAND_CHARS: usize = 2;

/// The next action the input-detection coordinator takes for a buffer
/// snapshot. This is not classifier confidence: it keeps empty or weak
/// partial input from reaching the classifier.
#[derive(Clone, Copy, Debug, PartialEq, Eq, Structural)]
pub enum InputDetectionDecision {
    /// Return unlocked input to Agent without running detection.
    ResetToAgent,
    /// Parse the non-empty buffer to gather command evidence.
    Parse,
    /// Run the shared Agent/Shell classifier on the parsed snapshot.
    Classify,
}

/// The decision for a buffer snapshot, given its parse result when one exists.
pub open spec fn spec_input_detection_decision(
    buffer_text: Seq<char>,
    parsed_token_count: Option<usize>,
    first_token_char_count: usize,
    first_token_has_command_evidence: bool,
) -> InputDetectionDecision {
    if is_blank(buffer_text) {
        InputDetectionDecision::ResetToAgent
    } else {
        match parsed_token_count {
            None => InputDetectionDecision::Parse,
            Some(count) => if count >= 2 || (count == 1 && first_token_char_count
                >= MIN_STANDALONE_COMMAND_CHARS && first_token_has_command_evidence) {
                InputDetectionDecision::Classify
            } else {
                InputDetectionDecision::ResetToAgent
            },
        }
    }
}

/// Decides what to do with a buffer snapshot. Blank input goes back to Agent;
/// unparsed input is parsed; multi-token input, or a single token of at least
/// two characters that matches known command evidence, is classified; any
/// other parsed input goes back to Agent.
pub fn input_detection_decision(
    buffer_text: &str,
    parsed_token_count: Option<usize>,
    first_token_char_count: usize,
    first_token_has_command_evidence: bool,
) -> (decision: InputDetectionDecision)
    ensures
        decision == spec_input_detection_decision(
            buffer_text@,
            parsed_token_count,
            first_token_char_count,
            first_token_has_command_evidence,
        ),
{
    if trims_to_empty(buffer_text) {
        return InputDetectionDecision::ResetToAgent;
    }
    let parsed_token_count = match parsed_token_count {
        None => {
            return InputDetectionDecision::Parse;
        },
        Some(count) => count,
    };
    if parsed_token_count >= 2 || (parsed_token_count == 1 && first_token_char_count
        >= MIN_STANDALONE_COMMAND_CHARS && first_token_has_command_evidence) {
        InputDetectionDecision::Classify
    } else {
        InputDetectionDecision::ResetToAgent
    }
}

/// Whether the input goes back to Agent: only a reset decision does so, and
/// only while the user has not locked the input type.
pub fn should_reset_input_to_agent(decision: InputDetectionDecision, is_input_type_locked: bool) -> (reset: bool)
    ensures
        reset == (!is_input_type_locked && decision == InputDetectionDecision::ResetToAgent),
{
    !is_input_type_locked && match decision {
        InputDetectionDecision::ResetToAgent => true,
        _ => false,
    }
}

/// Whether an asynchronous parse result still applies to the live input: the
/// parsed snapshot must equal the current buffer, and the buffer must not be
/// serving as an inline-menu query.
pub fn parsed_result_is_applicable(
    parsed_buffer_text: &str,
    current_buffer_text: &str,
    has_active_inline_menu: bool,
) -> (applicable: bool)
    ensures
        applicable == (parsed_buffer_text@ == current_buffer_text@ && !has_active_inline_menu),
{
    if has_active_inline_menu {
        return false;
    }
    str_eq(parsed_buffer_text, current_buffer_text)
}

/// Blank input is never parsed or classified: whatever the parse result, it
/// is a reset decision.
pub proof fn law_blank_input_returns_to_agent(
    buffer_text: Seq<char>,
    parsed_token_count: Option<usize>,
    first_token_char_count: usize,
    first_token_has_command_evidence: bool,
)
    requires
        is_blank(buffer_text),
    ensures
        spec_input_detection_decision(
            buffer_text,
            parsed_token_count,
            first_token_char_count,
            first_token_has_command_evidence,
        ) == InputDetectionDecision::ResetToAgent,
{
}

/// Non-blank input is always parsed before any classification, and a parsed
/// snapshot is never sent back to the parser.
pub proof fn law_parse_precedes_classification(
    buffer_text: Seq<char>,
    parsed_token_count: Option<usize>,
    first_token_char_count: usize,
    first_token_has_command_evidence: bool,
)
    requires
        !is_blank(buffer_text),
    ensures
        (spec_input_detection_decision(
            buffer_text,
            parsed_token_count,
            first_token_char_count,
            first_token_has_command_evidence,
        ) == InputDetectionDecision::Parse) <==> parsed_token_count is None,
{
}

/// A short single token stays with Agent even when it names a known command.
pub proof fn law_short_single_token_stays_with_agent(
    buffer_text: Seq<char>,
    first_token_char_count: usize,
    first_token_has_command_evidence: bool,
)
    requires
        !is_blank(buffer_text),
        first_token_char_count < MIN_STANDALONE_COMMAND_CHARS,
    ensures
        spec_input_detection_decision(
            buffer_text,
            Some(1usize),
            first_token_char_count,
            first_token_has_command_evidence,
        ) == InputDetectionDecision::ResetToAgent,
{
}


/// What input detection does when the buffer changes, before any parse.
#[derive(Clone, Copy, Debug, PartialEq, Eq, Structural)]
pub enum PreParseStep {
    /// Return the input to Agent.
    ResetToAgent,
    /// Do nothing more for this edit.
    Stop,
    /// Parse the buffer in the background.
    Parse,
}

/// The step after an edit: slash-command intent and blank input go back to
/// Agent unless the input type is locked. Slash-command intent then stops
/// detection; anything else is parsed, provided autodetection runs and a
/// working directory and completion context exist.
pub open spec fn spec_pre_parse_step(
    buffer_text: Seq<char>,
    has_slash_command_intent: bool,
    is_input_type_locked: bool,
    should_run_autodetection: bool,
    has_working_directory: bool,
    has_completion_context: bool,
) -> PreParseStep {
    let decision = if has_slash_command_intent {
        InputDetectionDecision::ResetToAgent
    } else {
        spec_input_detection_decision(buffer_text, None, 0, false)
    };
    if !is_input_type_locked && decision == InputDetectionDecision::ResetToAgent {
        PreParseStep::ResetToAgent
    } else if has_slash_command_intent || !should_run_autodetection || !has_working_directory
        || !has_completion_context {
        PreParseStep::Stop
    } else {
        PreParseStep::Parse
    }
}

/// Decides the first step of input detection after a user edit.
pub fn pre_parse_step(
    buffer_text: &str,
    has_slash_command_intent: bool,
    is_input_type_locked: bool,
    should_run_autodetection: bool,
    has_working_directory: bool,
    has_completion_context: bool,
) -> (step: PreParseStep)
    ensures
        step == spec_pre_parse_step(
            buffer_text@,
            has_slash_command_intent,
            is_input_type_locked,
            should_run_autodetection,
            has_working_directory,
            has_completion_context,
        ),
{
    if has_slash_command_intent {
        if should_reset_input_to_agent(InputDetectionDecision::ResetToAgent, is_input_type_locked) {
            return PreParseStep::ResetToAgent;
        }
        return PreParseStep::Stop;
    }
    let decision = input_detection_decision(buffer_text, None, 0, false);
    if should_reset_input_to_agent(decision, is_input_type_locked) {
        return PreParseStep::ResetToAgent;
    }
    if !should_run_autodetection || !has_working_directory || !has_completion_context {
        return PreParseStep::Stop;
    }
    PreParseStep::Parse
}

/// What input detection does with a finished parse.
#[derive(Clone, Copy, Debug, PartialEq, Eq, Structural)]
pub enum PostParseStep {
    /// The result is stale or the buffer is an inline-menu query, or the
    /// parse does not warrant classification: nothing changes.
    Ignore,
    /// Return the input to Agent.
    ResetToAgent,
    /// Run the shared Agent/Shell classifier.
    Classify,
}

/// The step for a finished parse of `parsed_buffer_text`.
pub open spec fn spec_post_parse_step(
    parsed_buffer_text: Seq<char>,
    current_buffer_text: Seq<char>,
    has_active_inline_menu: bool,
    parsed_token_count: usize,
    first_token_char_count: usize,
    first_token_has_command_evidence: bool,
    is_input_type_locked: bool,
) -> PostParseStep {
    if !(parsed_buffer_text == current_buffer_text && !has_active_inline_menu) {
        PostParseStep::Ignore
    } else {
        let decision = spec_input_detection_decision(
            parsed_buffer_text,
            Some(parsed_token_count),
            first_token_char_count,
            first_token_has_command_evidence,
        );
        if !is_input_type_locked && decision == InputDetectionDecision::ResetToAgent {
            PostParseStep::ResetToAgent
        } else if decision == InputDetectionDecision::Classify {
            PostParseStep::Classify
        } else {
            PostParseStep::Ignore
        }
    }
}

/// Decides what a finished background parse leads to.
pub fn post_parse_step(
    parsed_buffer_text: &str,
    current_buffer_text: &str,
    has_active_inline_menu: bool,
    parsed_token_count: usize,
    first_token_char_count: usize,
    first_token_has_command_evidence: bool,
    is_input_type_locked: bool,
) -> (step: PostParseStep)
    ensures
        step == spec_post_parse_step(
            parsed_buffer_text@,
            current_buffer_text@,
            has_active_inline_menu,
            parsed_token_count,
            first_token_char_count,
            first_token_has_command_evidence,
            is_input_type_locked,
        ),
{
    if !parsed_result_is_applicable(parsed_buffer_text, current_buffer_text, has_active_inline_menu) {
        return PostParseStep::Ignore;
    }
    let decision = input_detection_decision(
        parsed_buffer_text,
        Some(parsed_token_count),
        first_token_char_count,
        first_token_has_command_evidence,
    );
    if should_reset_input_to_agent(decision, is_input_type_locked) {
        return PostParseStep::ResetToAgent;
    }
    match decision {
        InputDetectionDecision::Classify => PostParseStep::Classify,
        _ => PostParseStep::Ignore,
    }
}

/// A locked input type is never switched back to Agent, before or after a
/// parse; a parse result that is stale never changes anything.
pub proof fn law_locked_input_is_never_reset(
    buffer_text: Seq<char>,
    current_text: Seq<char>,
    has_slash_command_intent: bool,
    should_run_autodetection: bool,
    has_working_directory: bool,
    has_completion_context: bool,
    has_active_inline_menu: bool,
    parsed_token_count: usize,
    first_token_char_count: usize,
    first_token_has_command_evidence: bool,
    is_input_type_locked: bool,
)
    ensures
        spec_pre_parse_step(
            buffer_text,
            has_slash_command_intent,
            true,
            should_run_autodetection,
            has_working_directory,
            has_completion_context,
        ) != PreParseStep::ResetToAgent,
        spec_post_parse_step(
            buffer_text,
            current_text,
            has_active_inline_menu,
            parsed_token_count,
            first_token_char_count,
            first_token_has_command_evidence,
            true,
        ) != PostParseStep::ResetToAgent,
        buffer_text != current_text ==> spec_post_parse_step(
            buffer_text,
            current_text,
            has_active_inline_menu,
            parsed_token_count,
            first_token_char_count,
            first_token_has_command_evidence,
            is_input_type_locked,
        ) == PostParseStep::Ignore,
{
}

/// Whether the buffer shows intent to run a slash command: the slash-command
/// menu is open, or the buffer's first token names an active command or is
/// recognized as a skill command.
pub open spec fn spec_has_slash_command_intent(
    buffer_text: Seq<char>,
    slash_command_menu_is_open: bool,
    command_names: Seq<Seq<char>>,
    first_token_is_skill: bool,
) -> bool {
    slash_command_menu_is_open || match first_token(buffer_text) {
        Some(t) => command_names.contains(t) || first_token_is_skill,
        None => false,
    }
}

/// The names held by `names`, as character sequences.
pub open spec fn name_views(names: Seq<String>) -> Seq<Seq<char>> {
    names.map_values(|n: String| n@)
}

/// Decides whether the buffer shows slash-command intent, which keeps input
/// detection from reclassifying it. `command_names` are the active slash
/// commands' names, and `first_token_is_skill` says whether the buffer's
/// first token (see `first_token_of`) parses as a skill command.
pub fn has_slash_command_intent(
    buffer_text: &str,
    slash_command_menu_is_open: bool,
    command_names: &[String],
    first_token_is_skill: bool,
) -> (intent: bool)
    ensures
        intent == spec_has_slash_command_intent(
            buffer_text@,
            slash_command_menu_is_open,
            name_views(command_names@),
            first_token_is_skill,
        ),
{
    if slash_command_menu_is_open {
        return true;
    }
    let token = match first_token_of(buffer_text) {
        Some(t) => t,
        None => return false,
    };
    let ghost names = name_views(command_names@);
    let mut i: usize = 0;
    while i < command_names.len()
        invariant
            i <= command_names@.len(),
            names == name_views(command_names@),
            first_token(buffer_text@) == Some(token@),
            !slash_command_menu_is_open,
            forall|k: int| 0 <= k < i ==> names[k] != token@,
        decreases command_names@.len() - i,
    {
        if str_eq(command_names[i].as_str(), token.as_str()) {
            proof {
                assert(names[i as int] == token@);
                assert(names.contains(token@));
            }
            return true;
        }
        i = i + 1;
    }
    proof {
        if names.contains(token@) {
            let k = choose|k: int| 0 <= k < names.len() && names[k] == token@;
            assert(names[k] != token@);
        }
    }
    first_token_is_skill
}

} // verus!
