//! Where a code-review comment points, as shown beside it.
use vstd::prelude::*;
use core::ops::Range;
use crate::text::{decimal, push_chars, push_decimal};

verus! {

/// Which side of a diff a line comment is on.
#[derive(Clone, Copy, Debug, PartialEq, Eq, Structural)]
pub enum CommentSide {
    Left,
    Right,
}

/// The lines a comment covers.
pub struct InsertedCommentLine {
    pub comment_line_range: Range<usize>,
    pub side: Option<CommentSide>,
}

/// The file, and optionally the lines, a comment is attached to.
pub struct InsertedCommentLocation {
    pub relative_file_path: String,
    pub line: Option<InsertedCommentLine>,
}

/// A review comment an agent inserts.
pub struct InsertReviewComment {
    pub comment_id: String,
    pub author: String,
    pub last_modified_timestamp: String,
    pub comment_body: String,
    pub parent_comment_id: Option<String>,
    pub comment_location: Option<InsertedCommentLocation>,
    pub html_url: Option<String>,
}

/// The label of a comment's line range: one line when the range is empty at
/// either end or covers a single line, else `start-end`.
pub open spec fn line_label(start: usize, end: usize) -> Seq<char> {
    if start == 0 {
        decimal(end as nat)
    } else if end == 0 || start == end {
        decimal(start as nat)
    } else {
        decimal(start as nat) + "-"@ + decimal(end as nat)
    }
}

/// The side label: `new` for the right side, `old` for the left, `diff` when
/// unknown.
pub open spec fn side_label(side: Option<CommentSide>) -> Seq<char> {
    match side {
        Some(CommentSide::Right) => "new"@,
        Some(CommentSide::Left) => "old"@,
        None => "diff"@,
    }
}

/// How a location is shown: the path alone for a file comment, else
/// `path:lines (side)`.
pub open spec fn spec_format_location(location: InsertedCommentLocation) -> Seq<char> {
    match location.line {
        None => location.relative_file_path@,
        Some(line) => location.relative_file_path@ + ":"@ + line_label(
            line.comment_line_range.start,
            line.comment_line_range.end,
        ) + " ("@ + side_label(line.side) + ")"@,
    }
}

/// Formats a comment's file and line location.
pub fn format_location(location: &InsertedCommentLocation) -> (text: String)
    ensures
        text@ == spec_format_location(*location),
{
    let mut text = String::new();
    push_chars(&mut text, location.relative_file_path.as_str());
    let line = match &location.line {
        None => {
            return text;
        },
        Some(line) => line,
    };
    push_chars(&mut text, ":");
    let start = line.comment_line_range.start;
    let end = line.comment_line_range.end;
    if start == 0 {
        push_decimal(&mut text, end as u64);
    } else if end == 0 || start == end {
        push_decimal(&mut text, start as u64);
    } else {
        push_decimal(&mut text, start as u64);
        push_chars(&mut text, "-");
        push_decimal(&mut text, end as u64);
    }
    push_chars(&mut text, " (");
    let side = match line.side {
        Some(CommentSide::Right) => "new",
        Some(CommentSide::Left) => "old",
        None => "diff",
    };
    push_chars(&mut text, side);
    push_chars(&mut text, ")");
    text
}

/// What a comment targets: the whole pull request when it has no location,
/// else its location.
pub fn format_comment_target(comment: &InsertReviewComment) -> (text: String)
    ensures
        text@ == match comment.comment_location {
            None => "Pull request"@,
            Some(l) => spec_format_location(l),
        },
{
    match &comment.comment_location {
        None => {
            let mut text = String::new();
            push_chars(&mut text, "Pull request");
            text
        },
        Some(l) => format_location(l),
    }
}

} // verus!
