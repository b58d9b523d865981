//! The data side of width-responsive Markdown tables: ragged rows padded to
//! a rectangle, each cell's visible width (including the ` (url)` that a
//! link whose text differs from its target renders with), each column's
//! preferred width, the choice between an aligned grid and header-keyed
//! records, and the padding that aligns a cell.
use vstd::prelude::*;
use unicode_width::UnicodeWidthStr;
use crate::table_layout::{allocate_column_widths, allocated_widths, minimum_table_width};
use crate::text::{push_chars, str_eq};

verus! {

/// The displayed width in terminal columns that `unicode-width` gives a
/// string.
pub uninterp spec fn unicode_display_width(s: Seq<char>) -> usize;

/// `UnicodeWidthStr::width` from `unicode-width`: the string's displayed
/// width in columns (ambiguous-width characters count as one). The contract
/// claims only that the result is that crate's width of the string.
#[verifier::external_body]
fn display_width(s: &str) -> (width: usize)
    ensures
        width == unicode_display_width(s@),
{
    UnicodeWidthStr::width(s)
}

/// One run of inline text; `url` is the target when it is part of a URL
/// link.
#[derive(Clone, Debug)]
pub struct InlineFragment {
    pub text: String,
    pub url: Option<String>,
}

/// A cell's content: its inline fragments in order.
pub type TableCell = Vec<InlineFragment>;

/// Horizontal alignment of a table column.
#[derive(Clone, Copy, Debug, PartialEq, Eq, Structural)]
pub enum TableAlignment {
    Left,
    Center,
    Right,
}

/// A parsed table: header cells, body rows (possibly ragged), and column
/// alignments (possibly fewer or more than the columns).
pub struct FormattedTable {
    pub headers: Vec<TableCell>,
    pub rows: Vec<Vec<TableCell>>,
    pub alignments: Vec<TableAlignment>,
}

pub open spec fn url_view(url: Option<String>) -> Option<Seq<char>> {
    match url {
        Some(u) => Some(u@),
        None => None,
    }
}

/// The sum of the fragments' text widths.
pub open spec fn text_widths(frags: Seq<InlineFragment>) -> nat
    decreases frags.len(),
{
    if frags.len() == 0 {
        0
    } else {
        text_widths(frags.drop_last()) + unicode_display_width(frags.last().text@) as nat
    }
}

/// The ` (url)` suffix rendered after a link.
pub open spec fn link_suffix(url: Seq<char>) -> Seq<char> {
    " ("@ + url + ")"@
}

/// What closing the open link adds: its suffix width when the link's text
/// differs from its target.
pub open spec fn closing_width(active: Option<(Seq<char>, Seq<char>)>) -> nat {
    match active {
        Some((url, shown)) => if url != shown {
            unicode_display_width(link_suffix(url)) as nat
        } else {
            0
        },
        None => 0,
    }
}

/// The widths of the link suffixes of `frags`, given the link left open by
/// the fragments before them (its target and the text shown so far). A link
/// is a maximal run of consecutive fragments with the same target.
pub open spec fn link_suffix_widths(
    frags: Seq<InlineFragment>,
    active: Option<(Seq<char>, Seq<char>)>,
) -> nat
    decreases frags.len(),
{
    if frags.len() == 0 {
        closing_width(active)
    } else {
        let f = frags[0];
        let target = url_view(f.url);
        let changes = match active {
            Some((url, _)) => target != Some(url),
            None => target is Some,
        };
        let closed = if changes {
            closing_width(active)
        } else {
            0
        };
        let opened = if changes {
            match target {
                Some(url) => Some((url, Seq::<char>::empty())),
                None => None,
            }
        } else {
            active
        };
        let extended = match opened {
            Some((url, shown)) => Some((url, shown + f.text@)),
            None => None,
        };
        closed + link_suffix_widths(frags.skip(1), extended)
    }
}

/// The open link held by the scan: its target and the text shown so far.
pub open spec fn open_link(url: Option<String>, shown: Seq<char>) -> Option<(Seq<char>, Seq<char>)> {
    match url {
        Some(u) => Some((u@, shown)),
        None => None,
    }
}

/// The visible width of a cell, saturated at `usize::MAX`.
pub open spec fn spec_inline_visible_width(frags: Seq<InlineFragment>) -> usize {
    let total = text_widths(frags) + link_suffix_widths(frags, None);
    if total > usize::MAX {
        usize::MAX
    } else {
        total as usize
    }
}

fn suffix_width(url: &str) -> (width: usize)
    ensures
        width == unicode_display_width(link_suffix(url@)),
{
    let mut s = String::new();
    push_chars(&mut s, " (");
    push_chars(&mut s, url);
    push_chars(&mut s, ")");
    display_width(s.as_str())
}

fn sat_add(a: usize, b: usize) -> (sum: usize)
    ensures
        sum == (if a + b > usize::MAX {
            usize::MAX as int
        } else {
            a + b
        }),
{
    if a > usize::MAX - b {
        usize::MAX
    } else {
        a + b
    }
}

/// The visible width of a cell: its text plus, after each link whose text
/// differs from its target, the width of ` (url)`.
pub fn inline_visible_width(inline: &[InlineFragment]) -> (width: usize)
    ensures
        width == spec_inline_visible_width(inline@),
{
    let n = inline.len();
    let mut width: usize = 0;
    let mut i: usize = 0;
    let ghost frags = inline@;
    while i < n
        invariant
            n == frags.len(),
            frags == inline@,
            i <= n,
            width == (if text_widths(frags.take(i as int)) > usize::MAX {
                usize::MAX as nat
            } else {
                text_widths(frags.take(i as int))
            }),
        decreases n - i,
    {
        let w = display_width(inline[i].text.as_str());
        assert(frags.take(i + 1).drop_last() == frags.take(i as int));
        width = sat_add(width, w);
        i = i + 1;
    }
    assert(frags.take(n as int) == frags);
    let mut active_url: Option<String> = None;
    let mut shown: String = String::new();
    let mut extra: usize = 0;
    let mut j: usize = 0;
    let ghost links = link_suffix_widths(frags, None);
    assert(frags.skip(0) == frags);
    while j < n
        invariant
            n == frags.len(),
            frags == inline@,
            j <= n,
            links == extra + link_suffix_widths(
                frags.skip(j as int),
                open_link(active_url, shown@),
            ) || extra == usize::MAX,
            extra == usize::MAX ==> links >= usize::MAX,
        decreases n - j,
    {
        let ghost before = open_link(active_url, shown@);
        let fragment = &inline[j];
        let changes = match (&active_url, &fragment.url) {
            (Some(a), Some(f)) => !str_eq(a.as_str(), f.as_str()),
            (Some(_), None) => true,
            (None, Some(_)) => true,
            (None, None) => false,
        };
        let ghost closed: nat = if changes {
            closing_width(before)
        } else {
            0
        };
        if changes {
            if let Some(url) = &active_url {
                if !str_eq(url.as_str(), shown.as_str()) {
                    let w = suffix_width(url.as_str());
                    extra = sat_add(extra, w);
                }
            }
            match &fragment.url {
                Some(url) => {
                    active_url = Some(url.clone());
                },
                None => {
                    active_url = None;
                },
            }
            shown = String::new();
        }
        if active_url.is_some() {
            push_chars(&mut shown, fragment.text.as_str());
        }
        assert(frags.skip(j as int)[0] == frags[j as int]);
        assert(frags.skip(j as int).skip(1) == frags.skip(j + 1));
        j = j + 1;
    }
    if let Some(url) = &active_url {
        if !str_eq(url.as_str(), shown.as_str()) {
            let w = suffix_width(url.as_str());
            extra = sat_add(extra, w);
        }
    }
    assert(frags.skip(n as int).len() == 0);
    sat_add(width, extra)
}

/// The number of columns: the longest of the header row and the body rows.
pub open spec fn column_count(headers_len: nat, rows: Seq<Vec<TableCell>>) -> nat
    decreases rows.len(),
{
    if rows.len() == 0 {
        headers_len
    } else {
        let rest = column_count(headers_len, rows.drop_last());
        if rows.last()@.len() > rest {
            rows.last()@.len()
        } else {
            rest
        }
    }
}

/// `padded` is `cells` followed by empty cells up to `count`.
pub open spec fn padded_to(padded: Seq<TableCell>, cells: Seq<TableCell>, count: nat) -> bool {
    &&& padded.len() == count
    &&& forall|i: int| 0 <= i < cells.len() ==> #[trigger] padded[i] == cells[i]
    &&& forall|i: int| cells.len() <= i < count ==> (#[trigger] padded[i])@.len() == 0
}

proof fn lemma_column_count_bounds(headers_len: nat, rows: Seq<Vec<TableCell>>)
    ensures
        column_count(headers_len, rows) >= headers_len,
        forall|r: int| 0 <= r < rows.len() ==> (#[trigger] rows[r])@.len() <= column_count(headers_len, rows),
        column_count(headers_len, rows) == headers_len || exists|r: int|
            0 <= r < rows.len() && (#[trigger] rows[r])@.len() == column_count(headers_len, rows),
    decreases rows.len(),
{
    if rows.len() > 0 {
        lemma_column_count_bounds(headers_len, rows.drop_last());
        assert forall|r: int| 0 <= r < rows.len() implies (#[trigger] rows[r])@.len() <= column_count(
            headers_len,
            rows,
        ) by {
            if r < rows.len() - 1 {
                assert(rows[r] == rows.drop_last()[r]);
            }
        }
        if column_count(headers_len, rows) != headers_len {
            if rows.last()@.len() > column_count(headers_len, rows.drop_last()) {
                assert(rows[rows.len() - 1]@.len() == column_count(headers_len, rows));
            } else {
                let r = choose|r: int|
                    0 <= r < rows.drop_last().len() && (#[trigger] rows.drop_last()[r])@.len()
                        == column_count(headers_len, rows.drop_last());
                assert(rows[r] == rows.drop_last()[r]);
            }
        }
    }
}

fn pad_cells(cells: &mut Vec<TableCell>, count: usize)
    requires
        old(cells)@.len() <= count,
    ensures
        padded_to(final(cells)@, old(cells)@, count as nat),
{
    let ghost start = cells@;
    while cells.len() < count
        invariant
            start.len() <= cells@.len() <= count,
            forall|i: int| 0 <= i < start.len() ==> #[trigger] cells@[i] == start[i],
            forall|i: int| start.len() <= i < cells@.len() ==> (#[trigger] cells@[i])@.len() == 0,
        decreases count - cells@.len(),
    {
        cells.push(Vec::new());
    }
}

/// Pads a ragged table to a rectangle: every row and the header row get
/// empty cells up to the column count, and the alignments are padded with
/// `Left` and cut to the column count.
pub fn normalized_table(table: FormattedTable) -> (res: (Vec<TableCell>, Vec<Vec<TableCell>>, Vec<TableAlignment>))
    ensures
        ({
            let count = column_count(table.headers@.len(), table.rows@);
            let (headers, rows, alignments) = res;
            &&& padded_to(headers@, table.headers@, count)
            &&& rows@.len() == table.rows@.len()
            &&& forall|r: int| 0 <= r < rows@.len() ==> padded_to(#[trigger] rows@[r]@, table.rows@[r]@, count)
            &&& alignments@.len() == count
            &&& forall|i: int| 0 <= i < count ==> #[trigger] alignments@[i] == (if i < table.alignments@.len() {
                table.alignments@[i]
            } else {
                TableAlignment::Left
            })
        }),
{
    let FormattedTable { headers, rows, alignments } = table;
    let ghost old_rows = rows@;
    let ghost old_headers = headers@;
    let ghost old_alignments = alignments@;
    let mut count: usize = headers.len();
    let mut r: usize = 0;
    while r < rows.len()
        invariant
            rows@ == old_rows,
            r <= rows@.len(),
            count == column_count(headers@.len(), rows@.take(r as int)),
        decreases rows@.len() - r,
    {
        assert(rows@.take(r + 1).drop_last() == rows@.take(r as int));
        if rows[r].len() > count {
            count = rows[r].len();
        }
        r = r + 1;
    }
    assert(rows@.take(rows@.len() as int) == rows@);
    proof {
        lemma_column_count_bounds(old_headers.len(), old_rows);
    }
    let mut headers = headers;
    pad_cells(&mut headers, count);
    let mut rows = rows;
    let mut out_rows: Vec<Vec<TableCell>> = Vec::new();
    let n = rows.len();
    let mut k: usize = 0;
    assert(old_rows.skip(0) == old_rows);
    while k < n
        invariant
            n == old_rows.len(),
            k <= n,
            rows@ == old_rows.skip(k as int),
            count == column_count(old_headers.len(), old_rows),
            forall|q: int| 0 <= q < old_rows.len() ==> (#[trigger] old_rows[q])@.len() <= count,
            out_rows@.len() == k,
            forall|q: int| 0 <= q < k ==> padded_to(#[trigger] out_rows@[q]@, old_rows[q]@, count as nat),
        decreases n - k,
    {
        let mut row = rows.remove(0);
        assert(old_rows.skip(k as int)[0] == old_rows[k as int]);
        assert(old_rows.skip(k as int).drop_first() == old_rows.skip(k + 1));
        pad_cells(&mut row, count);
        out_rows.push(row);
        k = k + 1;
    }
    let mut alignments = alignments;
    while alignments.len() < count
        invariant
            old_alignments.len() <= alignments@.len(),
            alignments@.len() <= count || alignments@.len() == old_alignments.len(),
            forall|i: int| 0 <= i < alignments@.len() ==> #[trigger] alignments@[i] == (if i < old_alignments.len() {
                old_alignments[i]
            } else {
                TableAlignment::Left
            }),
        decreases count - alignments@.len(),
    {
        alignments.push(TableAlignment::Left);
    }
    alignments.truncate(count);
    (headers, out_rows, alignments)
}

/// The widest cell of column `c` among the body rows that have it.
pub open spec fn widest_in_rows(rows: Seq<Vec<TableCell>>, c: int) -> nat
    decreases rows.len(),
{
    if rows.len() == 0 {
        0
    } else {
        let rest = widest_in_rows(rows.drop_last(), c);
        let here: nat = if c < rows.last()@.len() {
            spec_inline_visible_width(rows.last()@[c]@) as nat
        } else {
            0
        };
        if here > rest {
            here
        } else {
            rest
        }
    }
}

/// The preferred width of column `c`: its widest cell, the header included,
/// capped at `u16::MAX`.
pub open spec fn preferred_width(headers: Seq<TableCell>, rows: Seq<Vec<TableCell>>, c: int) -> u16 {
    let header = spec_inline_visible_width(headers[c]@) as nat;
    let body = widest_in_rows(rows, c);
    let widest = if body > header {
        body
    } else {
        header
    };
    if widest > u16::MAX {
        u16::MAX
    } else {
        widest as u16
    }
}

/// The preferred width of each header column.
pub fn preferred_column_widths(headers: &[TableCell], rows: &[Vec<TableCell>]) -> (widths: Vec<u16>)
    ensures
        widths@.len() == headers@.len(),
        forall|c: int| 0 <= c < headers@.len() ==> #[trigger] widths@[c] == preferred_width(headers@, rows@, c),
{
    let mut widths: Vec<u16> = Vec::new();
    let mut c: usize = 0;
    while c < headers.len()
        invariant
            c <= headers@.len(),
            widths@.len() == c,
            forall|q: int| 0 <= q < c ==> #[trigger] widths@[q] == preferred_width(headers@, rows@, q),
        decreases headers@.len() - c,
    {
        let mut widest: usize = inline_visible_width(headers[c].as_slice());
        let mut body: usize = 0;
        let mut r: usize = 0;
        while r < rows.len()
            invariant
                c < headers@.len(),
                r <= rows@.len(),
                widest == spec_inline_visible_width(headers@[c as int]@),
                body == widest_in_rows(rows@.take(r as int), c as int),
            decreases rows@.len() - r,
        {
            assert(rows@.take(r + 1).drop_last() == rows@.take(r as int));
            if c < rows[r].len() {
                let w = inline_visible_width(rows[r][c].as_slice());
                if w > body {
                    body = w;
                }
            }
            r = r + 1;
        }
        assert(rows@.take(rows@.len() as int) == rows@);
        if body > widest {
            widest = body;
        }
        let w: u16 = if widest > 65535 {
            65535
        } else {
            widest as u16
        };
        widths.push(w);
        c = c + 1;
    }
    widths
}

/// A width capped at `u16::MAX`.
pub open spec fn capped(w: nat) -> int {
    if w > u16::MAX {
        u16::MAX as int
    } else {
        w as int
    }
}

proof fn lemma_widest_in_rows(rows: Seq<Vec<TableCell>>, c: int)
    requires
        0 <= c,
    ensures
        forall|r: int|
            0 <= r < rows.len() && 0 <= c < rows[r]@.len() ==> widest_in_rows(rows, c)
                >= spec_inline_visible_width((#[trigger] rows[r])@[c]@),
        widest_in_rows(rows, c) == 0 || exists|r: int|
            0 <= r < rows.len() && 0 <= c < rows[r]@.len() && widest_in_rows(rows, c)
                == spec_inline_visible_width((#[trigger] rows[r])@[c]@),
    decreases rows.len(),
{
    if rows.len() > 0 {
        let init = rows.drop_last();
        lemma_widest_in_rows(init, c);
        assert forall|r: int|
            0 <= r < rows.len() && 0 <= c < rows[r]@.len() implies widest_in_rows(rows, c)
                >= spec_inline_visible_width((#[trigger] rows[r])@[c]@) by {
            if r < rows.len() - 1 {
                assert(rows[r] == init[r]);
            }
        }
        if widest_in_rows(rows, c) != 0 {
            if widest_in_rows(rows, c) == widest_in_rows(init, c) {
                let r = choose|r: int|
                    0 <= r < init.len() && 0 <= c < init[r]@.len() && widest_in_rows(init, c)
                        == spec_inline_visible_width((#[trigger] init[r])@[c]@);
                assert(rows[r] == init[r]);
            } else {
                let r = rows.len() - 1;
                assert(rows[r] == rows.last());
                assert(c < rows[r]@.len());
                assert(widest_in_rows(rows, c) == spec_inline_visible_width(rows[r]@[c]@));
            }
        }
    }
}

/// Each column's preferred width is the widest of its cells, the header
/// included: at least the header cell's visible width and at least every
/// body cell's in that column (rows too short to have the column are
/// skipped), each capped at `u16::MAX`, and equal to one of them.
pub proof fn law_preferred_width_is_widest_cell(headers: Seq<TableCell>, rows: Seq<Vec<TableCell>>, c: int)
    requires
        0 <= c < headers.len(),
    ensures
        preferred_width(headers, rows, c) >= capped(spec_inline_visible_width(headers[c]@) as nat),
        forall|r: int|
            0 <= r < rows.len() && c < rows[r]@.len() ==> preferred_width(headers, rows, c)
                >= capped(spec_inline_visible_width((#[trigger] rows[r])@[c]@) as nat),
        preferred_width(headers, rows, c) == capped(spec_inline_visible_width(headers[c]@) as nat)
            || exists|r: int|
            0 <= r < rows.len() && c < rows[r]@.len() && preferred_width(headers, rows, c)
                == capped(spec_inline_visible_width((#[trigger] rows[r])@[c]@) as nat),
{
    lemma_widest_in_rows(rows, c);
    let header = spec_inline_visible_width(headers[c]@) as nat;
    let body = widest_in_rows(rows, c);
    if body > header {
        let r = choose|r: int|
            0 <= r < rows.len() && 0 <= c < rows[r]@.len() && widest_in_rows(rows, c)
                == spec_inline_visible_width((#[trigger] rows[r])@[c]@);
        assert(preferred_width(headers, rows, c) == capped(spec_inline_visible_width(rows[r]@[c]@) as nat));
    }
}

/// How a table is laid out at a width.
pub enum TableLayout {
    /// No columns: a placeholder line.
    Empty,
    /// An aligned grid with these column widths.
    Aligned(Vec<u16>),
    /// One `header: value` line per cell, when the columns cannot fit.
    Records,
}

/// Chooses the layout for a table with `preferred` column widths at `width`
/// columns: no columns is an empty table; columns that fit get an aligned
/// grid; otherwise each row becomes header-keyed records.
pub fn choose_table_layout(preferred: &[u16], width: u16) -> (layout: TableLayout)
    ensures
        preferred@.len() == 0 ==> layout is Empty,
        preferred@.len() > 0 ==> match layout {
            TableLayout::Aligned(w) => allocated_widths(preferred@, width, w@),
            TableLayout::Records => minimum_table_width(preferred@) > width,
            TableLayout::Empty => false,
        },
{
    if preferred.len() == 0 {
        return TableLayout::Empty;
    }
    match allocate_column_widths(preferred, width) {
        Some(widths) => TableLayout::Aligned(widths),
        None => TableLayout::Records,
    }
}

/// The blank columns before a cell's content in a column `width` wide.
pub open spec fn cell_padding(alignment: TableAlignment, width: u16, content_width: usize) -> int {
    if content_width >= width {
        0
    } else {
        match alignment {
            TableAlignment::Left => 0,
            TableAlignment::Center => ((width - content_width) / 2) as int,
            TableAlignment::Right => width - content_width,
        }
    }
}

/// The blank columns before a cell's content: none for left alignment, half
/// the spare room (rounded down) when centered, all of it when right
/// aligned.
pub fn leading_padding(alignment: TableAlignment, width: u16, content_width: usize) -> (padding: usize)
    ensures
        padding == cell_padding(alignment, width, content_width),
{
    let available: usize = if content_width >= width as usize {
        0
    } else {
        width as usize - content_width
    };
    match alignment {
        TableAlignment::Left => 0,
        TableAlignment::Center => available / 2,
        TableAlignment::Right => available,
    }
}


/// The columns a list marker takes: its display width, capped at
/// `u16::MAX`.
pub fn marker_columns(marker: &str) -> (columns: u16)
    ensures
        columns == (if unicode_display_width(marker@) > u16::MAX {
            u16::MAX as int
        } else {
            unicode_display_width(marker@) as int
        }),
{
    let width = display_width(marker);
    if width > 65535 {
        65535
    } else {
        width as u16
    }
}


/// One line of a table laid out as records.
#[derive(Clone, Copy, Debug, PartialEq, Eq, Structural)]
pub enum RecordLine {
    /// The placeholder shown for a table without body rows.
    NoRows,
    /// `header: value` for the cell of body row `row` in column `column`.
    Field { row: usize, column: usize },
    /// The blank line between two records.
    Blank,
}

/// The lines of body row `row` as a record: one field per column, then a
/// blank line unless it is the last row.
pub open spec fn record_block(columns: nat, rows: nat, row: nat) -> Seq<RecordLine> {
    Seq::new(columns, |c: int| RecordLine::Field { row: row as usize, column: c as usize })
        + if row + 1 < rows { seq![RecordLine::Blank] } else { Seq::empty() }
}

/// The records of the first `done` body rows.
pub open spec fn records_prefix(columns: nat, rows: nat, done: nat) -> Seq<RecordLine>
    decreases done,
{
    if done == 0 {
        Seq::empty()
    } else {
        records_prefix(columns, rows, (done - 1) as nat) + record_block(columns, rows, (done - 1) as nat)
    }
}

/// The lines of a table of `rows` body rows and `columns` columns laid out
/// as records: a placeholder when there are no rows, else every row's
/// record in order.
pub open spec fn spec_record_lines(columns: nat, rows: nat) -> Seq<RecordLine> {
    if rows == 0 {
        seq![RecordLine::NoRows]
    } else {
        records_prefix(columns, rows, rows)
    }
}

/// Lays out a table that does not fit its width as records: each body row
/// becomes one `header: value` line per column, records are separated by a
/// blank line, and a table without body rows shows a placeholder.
pub fn record_lines(columns: usize, rows: usize) -> (lines: Vec<RecordLine>)
    ensures
        lines@ == spec_record_lines(columns as nat, rows as nat),
{
    let mut lines: Vec<RecordLine> = Vec::new();
    if rows == 0 {
        lines.push(RecordLine::NoRows);
        return lines;
    }
    let mut r: usize = 0;
    while r < rows
        invariant
            r <= rows,
            lines@ == records_prefix(columns as nat, rows as nat, r as nat),
        decreases rows - r,
    {
        let mut c: usize = 0;
        while c < columns
            invariant
                r < rows,
                c <= columns,
                lines@ == records_prefix(columns as nat, rows as nat, r as nat) + Seq::new(
                    c as nat,
                    |k: int| RecordLine::Field { row: r, column: k as usize },
                ),
            decreases columns - c,
        {
            lines.push(RecordLine::Field { row: r, column: c });
            proof {
                assert(lines@ =~= records_prefix(columns as nat, rows as nat, r as nat) + Seq::new(
                    (c + 1) as nat,
                    |k: int| RecordLine::Field { row: r, column: k as usize },
                ));
            }
            c = c + 1;
        }
        if r + 1 < rows {
            lines.push(RecordLine::Blank);
        }
        proof {
            assert(lines@ =~= records_prefix(columns as nat, rows as nat, (r + 1) as nat));
        }
        r = r + 1;
    }
    lines
}

/// One piece of an aligned table row, left to right.
#[derive(Clone, Copy, Debug, PartialEq, Eq, Structural)]
pub enum RowSegment {
    /// The ` │ ` separator between two cells.
    Gap,
    /// The cell of `column`, `width` columns wide, its content after
    /// `padding` blank columns.
    Cell { column: usize, width: u16, padding: usize },
}

/// The segments of the first `n` cells of a row.
pub open spec fn row_segments_prefix(
    alignments: Seq<TableAlignment>,
    widths: Seq<u16>,
    content_widths: Seq<usize>,
    n: nat,
) -> Seq<RowSegment>
    decreases n,
{
    if n == 0 {
        Seq::empty()
    } else {
        let i = (n - 1) as int;
        row_segments_prefix(alignments, widths, content_widths, (n - 1) as nat)
            + (if i > 0 { seq![RowSegment::Gap] } else { Seq::empty() })
            + seq![RowSegment::Cell {
                column: i as usize,
                width: widths[i],
                padding: cell_padding(alignments[i], widths[i], content_widths[i]) as usize,
            }]
    }
}

/// The number of cells an aligned row shows: as many as there are cells,
/// alignments and widths alike.
pub open spec fn shown_cells(a: nat, b: nat, c: nat) -> nat {
    if a <= b && a <= c {
        a
    } else if b <= c {
        b
    } else {
        c
    }
}

/// Lays out one row of an aligned table: the cells in column order, each in
/// its column's width and padded by its alignment, with a separator between
/// neighbours. `content_widths` are the cells' visible widths; the row ends
/// with the shortest of the three inputs.
pub fn aligned_row_segments(
    alignments: &[TableAlignment],
    widths: &[u16],
    content_widths: &[usize],
) -> (segments: Vec<RowSegment>)
    ensures
        segments@ == row_segments_prefix(
            alignments@,
            widths@,
            content_widths@,
            shown_cells(content_widths@.len(), alignments@.len(), widths@.len()),
        ),
{
    let n: usize = if content_widths.len() <= alignments.len() && content_widths.len() <= widths.len() {
        content_widths.len()
    } else if alignments.len() <= widths.len() {
        alignments.len()
    } else {
        widths.len()
    };
    let mut segments: Vec<RowSegment> = Vec::new();
    let mut i: usize = 0;
    while i < n
        invariant
            n == shown_cells(content_widths@.len(), alignments@.len(), widths@.len()),
            n <= alignments@.len(),
            n <= widths@.len(),
            n <= content_widths@.len(),
            i <= n,
            segments@ == row_segments_prefix(alignments@, widths@, content_widths@, i as nat),
        decreases n - i,
    {
        if i > 0 {
            segments.push(RowSegment::Gap);
        }
        let padding = leading_padding(alignments[i], widths[i], content_widths[i]);
        segments.push(RowSegment::Cell { column: i, width: widths[i], padding });
        proof {
            assert(segments@ =~= row_segments_prefix(alignments@, widths@, content_widths@, (i + 1) as nat));
        }
        i = i + 1;
    }
    segments
}

} // verus!
