//! The rules of the up-arrow prompt-and-command history menu: which history
//! items match the typed query, which row stays selected when the rows are
//! rebuilt, when moving down closes the menu, and how an accepted row is
//! submitted.
use vstd::prelude::*;
use crate::diff_apply::{split_lines_preserving_newlines, views};
use crate::text::{chars_of, is_blank, split_lines, str_eq, trim_chars, trimmed};

verus! {

/// Whether a history item was an agent prompt or a shell command.
#[derive(Clone, Copy, Debug, PartialEq, Eq, Structural)]
pub enum TuiUpArrowHistoryItemKind {
    Prompt,
    Command,
}

/// One row of the history menu.
#[derive(Clone, Debug)]
pub struct TuiPromptAndCommandHistoryRow {
    pub text: String,
    pub kind: TuiUpArrowHistoryItemKind,
}

/// Two rows name the same history item.
pub open spec fn same_row(a: TuiPromptAndCommandHistoryRow, b: TuiPromptAndCommandHistoryRow) -> bool {
    a.text@ == b.text@ && a.kind == b.kind
}

/// Whether two rows name the same history item.
pub fn rows_equal(a: &TuiPromptAndCommandHistoryRow, b: &TuiPromptAndCommandHistoryRow) -> (eq: bool)
    ensures
        eq == same_row(*a, *b),
{
    a.kind == b.kind && str_eq(a.text.as_str(), b.text.as_str())
}

/// The first position of `row` in `rows`, if any.
pub open spec fn first_position(rows: Seq<TuiPromptAndCommandHistoryRow>, row: TuiPromptAndCommandHistoryRow) -> Option<int> {
    if exists|i: int| 0 <= i < rows.len() && same_row(rows[i], row) {
        Some(
            choose|i: int|
                0 <= i < rows.len() && same_row(rows[i], row) && forall|j: int|
                    0 <= j < i ==> !same_row(rows[j], row),
        )
    } else {
        None
    }
}

/// The selection after the rows are rebuilt: the previously selected item
/// where it is still listed, else the previous index clamped to the last
/// row, else the last (most recent) row; nothing when no rows remain.
pub open spec fn spec_reconciled_selection_index(
    rows: Seq<TuiPromptAndCommandHistoryRow>,
    previous_row: Option<TuiPromptAndCommandHistoryRow>,
    previous_index: Option<usize>,
) -> Option<int> {
    if rows.len() == 0 {
        None
    } else {
        let last = rows.len() - 1;
        match previous_row {
            Some(row) if first_position(rows, row) is Some => first_position(rows, row),
            _ => match previous_index {
                Some(i) => Some(if i < last { i as int } else { last }),
                None => Some(last),
            },
        }
    }
}

/// Preserves selection by history item, falling back to the nearest previous
/// index and finally to the last (most recent) row.
pub fn reconciled_selection_index(
    rows: &[TuiPromptAndCommandHistoryRow],
    previous_row: Option<&TuiPromptAndCommandHistoryRow>,
    previous_index: Option<usize>,
) -> (index: Option<usize>)
    ensures
        index matches Some(i) ==> i < rows@.len(),
        match spec_reconciled_selection_index(
            rows@,
            match previous_row {
                Some(r) => Some(*r),
                None => None,
            },
            previous_index,
        ) {
            Some(i) => index == Some(i as usize),
            None => index is None,
        },
{
    if rows.len() == 0 {
        return None;
    }
    let last = rows.len() - 1;
    if let Some(previous) = previous_row {
        let mut i: usize = 0;
        while i < rows.len()
            invariant
                i <= rows@.len(),
                previous_row == Some(previous),
                forall|j: int| 0 <= j < i ==> !same_row(#[trigger] rows@[j], *previous),
            decreases rows@.len() - i,
        {
            if rows_equal(&rows[i], previous) {
                proof {
                    let p = i as int;
                    lemma_least_match(rows@, *previous, p);
                    let c = first_position(rows@, *previous)->0;
                    assert(same_row(rows@[c], *previous));
                    if p < c {
                        assert(!same_row(rows@[p], *previous));
                    }
                    assert(c == p);
                }
                return Some(i);
            }
            i = i + 1;
        }
    }
    match previous_index {
        Some(i) => Some(if i < last { i } else { last }),
        None => Some(last),
    }
}

/// A line of `text` with its line ending (`\n` or `\r\n`) removed, as
/// `str::lines` yields it.
pub open spec fn without_line_ending(piece: Seq<char>) -> Seq<char> {
    if piece.len() > 0 && piece.last() == '\n' {
        let body = piece.drop_last();
        if body.len() > 0 && body.last() == '\r' {
            body.drop_last()
        } else {
            body
        }
    } else {
        piece
    }
}

/// Whether `prefix` starts `s`.
pub open spec fn starts_with(s: Seq<char>, prefix: Seq<char>) -> bool {
    prefix.len() <= s.len() && s.take(prefix.len() as int) == prefix
}

/// A history item matches the query when the query, trimmed, is empty or
/// starts one of the item's lines.
pub open spec fn history_matches_query(text: Seq<char>, query: Seq<char>) -> bool {
    let q = trimmed(query);
    q.len() == 0 || exists|i: int|
        0 <= i < split_lines(text).len() && starts_with(
            without_line_ending(#[trigger] split_lines(text)[i]),
            q,
        )
}

fn starts_with_chars(s: &[char], prefix: &[char]) -> (b: bool)
    ensures
        b == starts_with(s@, prefix@),
{
    if prefix.len() > s.len() {
        return false;
    }
    let mut i: usize = 0;
    while i < prefix.len()
        invariant
            prefix@.len() <= s@.len(),
            i <= prefix@.len(),
            forall|k: int| 0 <= k < i ==> s@[k] == prefix@[k],
        decreases prefix@.len() - i,
    {
        if s[i] != prefix[i] {
            assert(s@.take(prefix@.len() as int)[i as int] != prefix@[i as int]);
            return false;
        }
        i = i + 1;
    }
    assert(s@.take(prefix@.len() as int) == prefix@);
    true
}

fn line_body(piece: &str) -> (body: Vec<char>)
    ensures
        body@ == without_line_ending(piece@),
{
    let mut chars = chars_of(piece);
    if chars.len() > 0 && chars[chars.len() - 1] == '\n' {
        chars.pop();
        if chars.len() > 0 && chars[chars.len() - 1] == '\r' {
            chars.pop();
        }
    }
    chars
}

/// Whether a history item's text matches the typed query.
pub fn history_item_matches(text: &str, query: &str) -> (matches: bool)
    ensures
        matches == history_matches_query(text@, query@),
{
    let q = trim_chars(query);
    if q.len() == 0 {
        return true;
    }
    let lines = split_lines_preserving_newlines(text);
    let mut i: usize = 0;
    while i < lines.len()
        invariant
            q@ == trimmed(query@),
            views(lines@) == split_lines(text@),
            i <= lines@.len(),
            forall|j: int|
                0 <= j < i ==> !starts_with(without_line_ending(#[trigger] split_lines(text@)[j]), q@),
        decreases lines@.len() - i,
    {
        let body = line_body(lines[i].as_str());
        assert(lines@[i as int]@ == split_lines(text@)[i as int]);
        if starts_with_chars(body.as_slice(), q.as_slice()) {
            return true;
        }
        i = i + 1;
    }
    false
}

/// The rows whose text matches `query`, in their original order.
pub open spec fn matching_rows(rows: Seq<TuiPromptAndCommandHistoryRow>, query: Seq<char>) -> Seq<TuiPromptAndCommandHistoryRow> {
    rows.filter(|r: TuiPromptAndCommandHistoryRow| history_matches_query(r.text@, query))
}

/// Keeps the history items that match the typed query, in order.
pub fn filter_history_rows(items: Vec<TuiPromptAndCommandHistoryRow>, query: &str) -> (rows: Vec<
    TuiPromptAndCommandHistoryRow,
>)
    ensures
        rows@ == matching_rows(items@, query@),
{
    let mut rows: Vec<TuiPromptAndCommandHistoryRow> = Vec::new();
    let mut items = items;
    let ghost all = items@;
    let n = items.len();
    let mut i: usize = 0;
    proof {
        reveal(Seq::filter);
    }
    assert(all.skip(0) == all);
    while i < n
        invariant
            n == all.len(),
            i <= n,
            items@ == all.skip(i as int),
            rows@ == matching_rows(all.take(i as int), query@),
        decreases n - i,
    {
        let row = items.remove(0);
        assert(all.skip(i as int).drop_first() == all.skip(i + 1));
        assert(all.take(i + 1).drop_last() == all.take(i as int));
        assert(all.take(i + 1).last() == row);
        if history_item_matches(row.text.as_str(), query) {
            rows.push(row);
        }
        proof {
            reveal(Seq::filter);
        }
        i = i + 1;
    }
    assert(all.take(n as int) == all);
    rows
}

/// Moving down past the newest row, or from an empty list, closes the menu.
pub fn select_next_dismisses(row_count: usize, selected_index: Option<usize>) -> (dismiss: bool)
    ensures
        dismiss == (row_count == 0 || selected_index == Some((row_count - 1) as usize)),
{
    row_count == 0 || match selected_index {
        Some(i) => i == row_count - 1,
        None => false,
    }
}

/// The empty-list message: none recorded, or none matching a typed query.
pub fn empty_history_status(query: &str) -> (message: String)
    ensures
        message@ == (if is_blank(query@) {
            "No history"@
        } else {
            "No matching history"@
        }),
{
    let text = if crate::text::trims_to_empty(query) {
        "No history"
    } else {
        "No matching history"
    };
    let mut out = String::new();
    crate::text::push_chars(&mut out, text);
    out
}

/// The row an accept submits: the selected row, or the typed text as a
/// prompt when nothing is selected, submitted as the input's visible type (a
/// prompt for Agent input, a command for shell input) whatever kind it was
/// recorded as.
pub fn accepted_row(
    selected: Option<TuiPromptAndCommandHistoryRow>,
    input_text: String,
    input_is_agent: bool,
) -> (row: TuiPromptAndCommandHistoryRow)
    ensures
        row.text@ == (match selected {
            Some(r) => r.text@,
            None => input_text@,
        }),
        row.kind == (if input_is_agent {
            TuiUpArrowHistoryItemKind::Prompt
        } else {
            TuiUpArrowHistoryItemKind::Command
        }),
{
    let text = match selected {
        Some(r) => r.text,
        None => input_text,
    };
    let kind = if input_is_agent {
        TuiUpArrowHistoryItemKind::Prompt
    } else {
        TuiUpArrowHistoryItemKind::Command
    };
    TuiPromptAndCommandHistoryRow { text, kind }
}

/// The input type a previewed row switches the input to: Agent for a
/// prompt, shell for a command.
pub fn preview_is_agent_input(kind: TuiUpArrowHistoryItemKind) -> (is_agent: bool)
    ensures
        is_agent == (kind == TuiUpArrowHistoryItemKind::Prompt),
{
    match kind {
        TuiUpArrowHistoryItemKind::Prompt => true,
        TuiUpArrowHistoryItemKind::Command => false,
    }
}

/// A rebuilt list never loses a selection it can keep: any non-empty list
/// has a selected row, and a still-listed previously selected item stays
/// selected.
pub proof fn law_selection_survives_refresh(
    rows: Seq<TuiPromptAndCommandHistoryRow>,
    previous_row: Option<TuiPromptAndCommandHistoryRow>,
    previous_index: Option<usize>,
)
    ensures
        rows.len() > 0 <==> spec_reconciled_selection_index(rows, previous_row, previous_index) is Some,
        spec_reconciled_selection_index(rows, previous_row, previous_index) matches Some(i) ==> 0 <= i
            < rows.len(),
        previous_row matches Some(row) ==> ((exists|k: int| 0 <= k < rows.len() && same_row(rows[k], row))
            ==> (spec_reconciled_selection_index(rows, previous_row, previous_index) matches Some(i)
            && same_row(rows[i], row))),
{
    if rows.len() > 0 {
        if let Some(row) = previous_row {
            if exists|k: int| 0 <= k < rows.len() && same_row(rows[k], row) {
                lemma_first_position(rows, row);
            }
        }
    }
}

proof fn lemma_first_position(rows: Seq<TuiPromptAndCommandHistoryRow>, row: TuiPromptAndCommandHistoryRow)
    requires
        exists|k: int| 0 <= k < rows.len() && same_row(rows[k], row),
    ensures
        first_position(rows, row) matches Some(i) && 0 <= i < rows.len() && same_row(rows[i], row),
{
    let k = choose|k: int| 0 <= k < rows.len() && same_row(rows[k], row);
    lemma_least_match(rows, row, k);
}

proof fn lemma_least_match(rows: Seq<TuiPromptAndCommandHistoryRow>, row: TuiPromptAndCommandHistoryRow, k: int)
    requires
        0 <= k < rows.len(),
        same_row(rows[k], row),
    ensures
        exists|i: int|
            0 <= i < rows.len() && same_row(rows[i], row) && forall|j: int|
                0 <= j < i ==> !same_row(rows[j], row),
    decreases k,
{
    if exists|j: int| 0 <= j < k && same_row(rows[j], row) {
        let j = choose|j: int| 0 <= j < k && same_row(rows[j], row);
        lemma_least_match(rows, row, j);
    }
}

/// An empty query keeps every history item.
pub proof fn law_empty_query_keeps_all(rows: Seq<TuiPromptAndCommandHistoryRow>, query: Seq<char>)
    requires
        trimmed(query).len() == 0,
    ensures
        matching_rows(rows, query) == rows,
    decreases rows.len(),
{
    reveal(Seq::filter);
    if rows.len() > 0 {
        law_empty_query_keeps_all(rows.drop_last(), query);
        assert(rows.drop_last().push(rows.last()) == rows);
    }
}

/// A history item matches the typed query exactly when the query is blank
/// once trimmed, or some line of the item (any line, not only the first or
/// the last, read without its line ending) starts with the trimmed query.
pub proof fn law_match_needs_a_line_starting_with_the_query(text: Seq<char>, query: Seq<char>)
    ensures
        trimmed(query).len() == 0 ==> history_matches_query(text, query),
        forall|i: int|
            0 <= i < split_lines(text).len() && starts_with(
                without_line_ending(#[trigger] split_lines(text)[i]),
                trimmed(query),
            ) ==> history_matches_query(text, query),
        history_matches_query(text, query) && trimmed(query).len() > 0 ==> exists|i: int|
            0 <= i < split_lines(text).len() && starts_with(
                without_line_ending(#[trigger] split_lines(text)[i]),
                trimmed(query),
            ),
{
}

} // verus!
