//! Vertical spacing between rendered Markdown blocks, and the rows a
//! document renders to.
use vstd::prelude::*;

verus! {

/// The kind of one line of a parsed Markdown document.
#[derive(Clone, Copy, Debug, PartialEq, Eq, Structural)]
pub enum FormattedTextLineKind {
    Heading,
    Line,
    OrderedList,
    UnorderedList,
    TaskList,
    CodeBlock,
    Table,
    Image,
    Embedded,
    LineBreak,
    HorizontalRule,
}

/// Whether a block is a list item of any kind.
pub open spec fn is_list(kind: FormattedTextLineKind) -> bool {
    kind == FormattedTextLineKind::UnorderedList || kind == FormattedTextLineKind::OrderedList
        || kind == FormattedTextLineKind::TaskList
}

/// Whether a block is itself vertical whitespace or a rule.
pub open spec fn is_separator(kind: FormattedTextLineKind) -> bool {
    kind == FormattedTextLineKind::LineBreak || kind == FormattedTextLineKind::HorizontalRule
}

/// Whether a blank row follows `line` when `next` comes after it.
pub open spec fn spec_should_insert_blank_row(
    line: FormattedTextLineKind,
    next: Option<FormattedTextLineKind>,
) -> bool {
    match next {
        None => false,
        Some(next) => match line {
            FormattedTextLineKind::Heading | FormattedTextLineKind::CodeBlock
            | FormattedTextLineKind::Table | FormattedTextLineKind::Image => !is_separator(next),
            FormattedTextLineKind::Line => !(next == FormattedTextLineKind::Line || is_separator(
                next,
            )),
            FormattedTextLineKind::UnorderedList | FormattedTextLineKind::OrderedList
            | FormattedTextLineKind::TaskList => !(is_list(next) || is_separator(next)),
            _ => false,
        },
    }
}

/// Decides the spacing after a block: headings, code blocks, tables, and
/// images are followed by a blank row; soft-wrapped paragraph lines and
/// consecutive list items stay together; nothing is added before a line
/// break or a rule, or after the last block.
pub fn should_insert_blank_row(line: FormattedTextLineKind, next: Option<FormattedTextLineKind>) -> (blank: bool)
    ensures
        blank == spec_should_insert_blank_row(line, next),
{
    let next = match next {
        None => {
            return false;
        },
        Some(next) => next,
    };
    let separator = match next {
        FormattedTextLineKind::LineBreak | FormattedTextLineKind::HorizontalRule => true,
        _ => false,
    };
    let list = match next {
        FormattedTextLineKind::UnorderedList | FormattedTextLineKind::OrderedList
        | FormattedTextLineKind::TaskList => true,
        _ => false,
    };
    match line {
        FormattedTextLineKind::Heading | FormattedTextLineKind::CodeBlock
        | FormattedTextLineKind::Table | FormattedTextLineKind::Image => !separator,
        FormattedTextLineKind::Line => !(separator || match next {
            FormattedTextLineKind::Line => true,
            _ => false,
        }),
        FormattedTextLineKind::UnorderedList | FormattedTextLineKind::OrderedList
        | FormattedTextLineKind::TaskList => !(list || separator),
        _ => false,
    }
}

/// A blank row is never added before a line break or a rule, so the source's
/// own spacing is never doubled; and two blank rows never appear in a row.
pub proof fn law_no_doubled_spacing(line: FormattedTextLineKind, next: FormattedTextLineKind)
    ensures
        is_separator(next) ==> !spec_should_insert_blank_row(line, Some(next)),
        is_separator(line) ==> !spec_should_insert_blank_row(line, Some(next)),
{
}

/// One row of a rendered document.
#[derive(Clone, Copy, Debug, PartialEq, Eq, Structural)]
pub enum MarkdownRow {
    /// The block rendered from line `line`. A code block carries its
    /// position among the document's code blocks (`code_index`); an ordered
    /// list item that does not follow another ordered list item starts its
    /// numbering afresh (`fresh_numbering`).
    Block { line: usize, code_index: Option<usize>, fresh_numbering: bool },
    /// A blank separating row.
    Blank,
}

/// How many of the first `n` lines are code blocks.
pub open spec fn code_blocks_before(lines: Seq<FormattedTextLineKind>, n: int) -> nat
    decreases n,
{
    if n <= 0 {
        0
    } else {
        code_blocks_before(lines, n - 1) + if lines[n - 1] == FormattedTextLineKind::CodeBlock {
            1nat
        } else {
            0nat
        }
    }
}

/// The line after line `i`, if any.
pub open spec fn next_line(lines: Seq<FormattedTextLineKind>, i: int) -> Option<FormattedTextLineKind> {
    if i + 1 < lines.len() {
        Some(lines[i + 1])
    } else {
        None
    }
}

/// The rows of line `i`: its block, then a blank row where spacing asks for
/// one.
pub open spec fn line_rows(lines: Seq<FormattedTextLineKind>, i: int) -> Seq<MarkdownRow> {
    seq![
        MarkdownRow::Block {
            line: i as usize,
            code_index: if lines[i] == FormattedTextLineKind::CodeBlock {
                Some(code_blocks_before(lines, i) as usize)
            } else {
                None
            },
            fresh_numbering: lines[i] == FormattedTextLineKind::OrderedList && (i == 0 || lines[i
                - 1] != FormattedTextLineKind::OrderedList),
        },
    ] + if spec_should_insert_blank_row(lines[i], next_line(lines, i)) {
        seq![MarkdownRow::Blank]
    } else {
        Seq::empty()
    }
}

/// The rows of the first `n` lines of a document.
pub open spec fn spec_markdown_rows(lines: Seq<FormattedTextLineKind>, n: int) -> Seq<MarkdownRow>
    decreases n,
{
    if n <= 0 {
        Seq::empty()
    } else {
        spec_markdown_rows(lines, n - 1) + line_rows(lines, n - 1)
    }
}

proof fn lemma_code_blocks_before_bounded(lines: Seq<FormattedTextLineKind>, n: int)
    requires
        0 <= n,
    ensures
        code_blocks_before(lines, n) <= n,
    decreases n,
{
    if n > 0 {
        lemma_code_blocks_before_bounded(lines, n - 1);
    }
}

/// Lays out a document's rows: one block per line in order, each followed
/// by a blank row where `should_insert_blank_row` asks for one; code blocks
/// are numbered in order, and ordered-list numbering restarts after any
/// other block.
pub fn markdown_row_plan(lines: &[FormattedTextLineKind]) -> (rows: Vec<MarkdownRow>)
    ensures
        rows@ == spec_markdown_rows(lines@, lines@.len() as int),
{
    let mut rows: Vec<MarkdownRow> = Vec::new();
    let mut code_index: usize = 0;
    let mut i: usize = 0;
    while i < lines.len()
        invariant
            i <= lines@.len(),
            code_index == code_blocks_before(lines@, i as int),
            rows@ == spec_markdown_rows(lines@, i as int),
        decreases lines@.len() - i,
    {
        proof {
            lemma_code_blocks_before_bounded(lines@, i as int);
        }
        let line = lines[i];
        let is_code = line == FormattedTextLineKind::CodeBlock;
        let fresh_numbering = line == FormattedTextLineKind::OrderedList && (i == 0 || lines[i - 1]
            != FormattedTextLineKind::OrderedList);
        rows.push(
            MarkdownRow::Block {
                line: i,
                code_index: if is_code {
                    Some(code_index)
                } else {
                    None
                },
                fresh_numbering,
            },
        );
        if is_code {
            code_index = code_index + 1;
        }
        let next = if i + 1 < lines.len() {
            Some(lines[i + 1])
        } else {
            None
        };
        if should_insert_blank_row(line, next) {
            rows.push(MarkdownRow::Blank);
        }
        proof {
            assert(rows@ =~= spec_markdown_rows(lines@, i as int) + line_rows(lines@, i as int));
        }
        i = i + 1;
    }
    rows
}

} // verus!
