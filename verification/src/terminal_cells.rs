//! Cell-level rules for painting a terminal block: what a cell shows, which
//! rows a block's grids occupy, and where the cursor lands.
use vstd::prelude::*;
use core::ops::Range;
use crate::text::{chars_of, push_chars};

verus! {

/// Whether `c` is a control character (general category `Cc`), as
/// `char::is_control` decides.
pub open spec fn is_control(c: char) -> bool {
    let u = c as u32;
    u <= 0x1f || (0x7f <= u && u <= 0x9f)
}

/// The text painted for a cell: a space when the cell is empty or holds a
/// control character, its content otherwise.
pub fn sanitized_symbol(content: &str) -> (symbol: String)
    ensures
        symbol@ == (if content@.len() == 0 || exists|i: int| 0 <= i < content@.len() && is_control(
            content@[i],
        ) {
            " "@
        } else {
            content@
        }),
{
    let chars = chars_of(content);
    let mut has_control = false;
    let mut i: usize = 0;
    while i < chars.len()
        invariant
            chars@ == content@,
            i <= chars@.len(),
            has_control == exists|k: int| 0 <= k < i && is_control(content@[k]),
        decreases chars@.len() - i,
    {
        let u = chars[i] as u32;
        if u <= 0x1f || (0x7f <= u && u <= 0x9f) {
            has_control = true;
        }
        i = i + 1;
    }
    let mut out = String::new();
    if chars.len() == 0 || has_control {
        push_chars(&mut out, " ");
    } else {
        push_chars(&mut out, content);
    }
    out
}

/// One grid of a block: whether it is hidden, the block row it starts at,
/// and how many rows it displays.
#[derive(Clone, Copy, Debug)]
pub struct GridSpan {
    pub hidden: bool,
    pub start_row: usize,
    pub displayed_rows: usize,
}

/// Whether a grid shows any rows.
pub open spec fn shown(g: GridSpan) -> bool {
    !g.hidden && g.displayed_rows > 0
}

/// The block row after a grid's last, saturated at `usize::MAX`.
pub open spec fn grid_end(g: GridSpan) -> int {
    if g.start_row + g.displayed_rows > usize::MAX {
        usize::MAX as int
    } else {
        g.start_row + g.displayed_rows
    }
}

/// The smallest row range covering every shown grid, as (start, end); empty
/// when no grid is shown or the first shown row is `usize::MAX`.
pub open spec fn spec_content_rows(command: GridSpan, output: GridSpan) -> (int, int) {
    let (start, end) = if shown(command) && shown(output) {
        (
            if command.start_row <= output.start_row {
                command.start_row as int
            } else {
                output.start_row as int
            },
            if grid_end(command) >= grid_end(output) {
                grid_end(command)
            } else {
                grid_end(output)
            },
        )
    } else if shown(command) {
        (command.start_row as int, grid_end(command))
    } else if shown(output) {
        (output.start_row as int, grid_end(output))
    } else {
        (usize::MAX as int, 0)
    };
    if start == usize::MAX {
        (0, 0)
    } else {
        (start, end)
    }
}

/// The block rows that the displayed command and output cells occupy,
/// without the padding around the grids.
pub fn block_content_rows(command: GridSpan, output: GridSpan) -> (rows: Range<usize>)
    ensures
        (rows.start as int, rows.end as int) == spec_content_rows(command, output),
{
    let mut start: usize = usize::MAX;
    let mut end: usize = 0;
    if !command.hidden && command.displayed_rows > 0 {
        start = command.start_row;
        end = command.start_row.saturating_add(command.displayed_rows);
    }
    if !output.hidden && output.displayed_rows > 0 {
        let output_end = output.start_row.saturating_add(output.displayed_rows);
        if output.start_row < start {
            start = output.start_row;
        }
        if output_end > end {
            end = output_end;
        }
    }
    if start == usize::MAX {
        0..0
    } else {
        start..end
    }
}

/// Where the cursor is painted inside the visible rows, as (column, row)
/// relative to the painted area: only when its block row is visible and the
/// cell fits the area.
pub fn cursor_cell(
    grid_start_row: usize,
    cursor_column: usize,
    cursor_grid_row: usize,
    visible_rows: Range<usize>,
    width: u16,
    height: u16,
) -> (cell: Option<(u16, u16)>)
    ensures
        ({
            let block_row: int = if grid_start_row + cursor_grid_row > usize::MAX {
                usize::MAX as int
            } else {
                grid_start_row + cursor_grid_row
            };
            match cell {
                Some((column, row)) => visible_rows.start <= block_row < visible_rows.end
                    && column == cursor_column && row == block_row - visible_rows.start && column
                    < width && row < height,
                None => !(visible_rows.start <= block_row < visible_rows.end) || cursor_column
                    >= width || block_row - visible_rows.start >= height,
            }
        }),
{
    let block_row = grid_start_row.saturating_add(cursor_grid_row);
    if block_row < visible_rows.start || block_row >= visible_rows.end {
        return None;
    }
    let row_offset = block_row - visible_rows.start;
    if cursor_column >= width as usize || row_offset >= height as usize {
        return None;
    }
    Some((cursor_column as u16, row_offset as u16))
}

/// The rows of one grid to paint for a window of block rows: the grid's
/// displayed rows that fall in `visible_rows`, and how many rows below the
/// window's top the first of them lands (capped at `u16::MAX`).
pub struct GridWindow {
    pub displayed_rows: Range<usize>,
    pub y_offset: u16,
}

/// The grid spans block rows `grid_start_row` up to `grid_start_row +
/// displayed` (saturating); the part of it inside `visible_rows`, if any,
/// given as grid-relative rows and the offset below the window's top.
pub open spec fn spec_grid_window(
    grid_start_row: usize,
    displayed: usize,
    visible_start: usize,
    visible_end: usize,
) -> Option<(int, int, int)> {
    let grid_end: int = if grid_start_row + displayed > usize::MAX {
        usize::MAX as int
    } else {
        grid_start_row + displayed
    };
    let start: int = if visible_start >= grid_start_row { visible_start as int } else { grid_start_row as int };
    let end: int = if visible_end <= grid_end { visible_end as int } else { grid_end };
    if start >= end {
        None
    } else {
        let offset: int = start - visible_start;
        Some((start - grid_start_row, end - grid_start_row, if offset > u16::MAX { u16::MAX as int } else { offset }))
    }
}

/// Intersects a grid's rows with the window of block rows being painted.
pub fn grid_row_window(grid_start_row: usize, displayed: usize, visible_rows: Range<usize>) -> (window:
    Option<GridWindow>)
    ensures
        match spec_grid_window(grid_start_row, displayed, visible_rows.start, visible_rows.end) {
            None => window is None,
            Some((a, b, y)) => window matches Some(w) && w.displayed_rows.start == a
                && w.displayed_rows.end == b && w.y_offset == y,
        },
{
    let grid_end_row = grid_start_row.saturating_add(displayed);
    let visible_start = if visible_rows.start >= grid_start_row {
        visible_rows.start
    } else {
        grid_start_row
    };
    let visible_end = if visible_rows.end <= grid_end_row {
        visible_rows.end
    } else {
        grid_end_row
    };
    if visible_start >= visible_end {
        return None;
    }
    let offset = visible_start - visible_rows.start;
    let y_offset: u16 = if offset > 65535 {
        65535
    } else {
        offset as u16
    };
    Some(
        GridWindow {
            displayed_rows: Range {
                start: visible_start - grid_start_row,
                end: visible_end - grid_start_row,
            },
            y_offset,
        },
    )
}

/// Whether the transcript shows a terminal block on its own: not when the
/// agent requested it (its shell-command view shows it inline), only when it
/// is visible in the transcript's scope, and only once it has started or
/// finished.
pub fn should_render_terminal_block(
    is_agent_requested_command: bool,
    is_visible_in_transcript: bool,
    started: bool,
    finished: bool,
) -> (render: bool)
    ensures
        render == (!is_agent_requested_command && is_visible_in_transcript && (started || finished)),
{
    !is_agent_requested_command && is_visible_in_transcript && (started || finished)
}

/// A grid's painted rows are rows the grid displays, and painted from
/// their offset they stay inside the window.
pub proof fn law_grid_window_fits(grid_start_row: usize, displayed: usize, visible_start: usize, visible_end: usize)
    ensures
        spec_grid_window(grid_start_row, displayed, visible_start, visible_end) matches Some((a, b, y)) ==> {
            &&& 0 <= a < b <= displayed
            &&& 0 <= y
            &&& y + (b - a) <= visible_end - visible_start
        },
{
}

} // verus!
