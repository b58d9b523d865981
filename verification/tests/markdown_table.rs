use warp_tui::markdown_table::{
    choose_table_layout, inline_visible_width, leading_padding, normalized_table,
    preferred_column_widths, FormattedTable, InlineFragment, TableAlignment, TableCell,
    TableLayout, record_lines, RecordLine, aligned_row_segments, RowSegment,
};
use warp_tui::table_layout::allocate_column_widths;

fn text(s: &str) -> InlineFragment {
    InlineFragment {
        text: s.to_owned(),
        url: None,
    }
}

fn link(s: &str, url: &str) -> InlineFragment {
    InlineFragment {
        text: s.to_owned(),
        url: Some(url.to_owned()),
    }
}

fn cell(s: &str) -> TableCell {
    vec![text(s)]
}

#[test]
fn plain_cells_measure_their_text() {
    assert_eq!(inline_visible_width(&[]), 0);
    assert_eq!(inline_visible_width(&[text("abc"), text("de")]), 5);
    assert_eq!(inline_visible_width(&[text("日本")]), 4);
}

#[test]
fn links_add_their_target_when_it_differs_from_the_text() {
    // "docs" + " (https://x.io)"
    assert_eq!(inline_visible_width(&[link("docs", "https://x.io")]), 4 + 15);
    // The shown text equals the target: nothing is added.
    assert_eq!(inline_visible_width(&[link("https://x.io", "https://x.io")]), 12);
    // One link spread over two fragments is measured once, against its
    // whole text.
    assert_eq!(
        inline_visible_width(&[link("https://", "https://x.io"), link("x.io", "https://x.io")]),
        12
    );
    // Two different links each add their own target.
    assert_eq!(
        inline_visible_width(&[link("a", "u"), text(" "), link("b", "v")]),
        3 + 4 + 4
    );
}

#[test]
fn ragged_tables_are_padded() {
    let table = FormattedTable {
        headers: vec![cell("h1")],
        rows: vec![vec![cell("a"), cell("b"), cell("c")], vec![]],
        alignments: vec![TableAlignment::Right, TableAlignment::Center, TableAlignment::Left, TableAlignment::Right],
    };
    let (headers, rows, alignments) = normalized_table(table);
    assert_eq!(headers.len(), 3);
    assert!(headers[1].is_empty() && headers[2].is_empty());
    assert_eq!(rows.len(), 2);
    assert_eq!(rows[0].len(), 3);
    assert_eq!(rows[1].len(), 3);
    assert_eq!(
        alignments,
        vec![TableAlignment::Right, TableAlignment::Center, TableAlignment::Left]
    );

    let narrow = FormattedTable {
        headers: vec![cell("a"), cell("b")],
        rows: vec![],
        alignments: vec![],
    };
    let (_, _, alignments) = normalized_table(narrow);
    assert_eq!(alignments, vec![TableAlignment::Left, TableAlignment::Left]);
}

#[test]
fn preferred_widths_take_the_widest_cell() {
    let headers = vec![cell("name"), cell("x")];
    let rows = vec![vec![cell("alexander"), cell("1")], vec![cell("bo")]];
    assert_eq!(preferred_column_widths(&headers, &rows), vec![9, 1]);
}

#[test]
fn layout_falls_back_to_records_when_columns_do_not_fit() {
    assert!(matches!(choose_table_layout(&[], 80), TableLayout::Empty));
    match choose_table_layout(&[4, 20], 80) {
        TableLayout::Aligned(widths) => assert_eq!(widths, vec![4, 20]),
        _ => panic!("expected an aligned table"),
    }
    // Starting widths 8 + 8 and one gap of 3 need 19 columns.
    assert!(matches!(choose_table_layout(&[20, 20], 18), TableLayout::Records));
    match choose_table_layout(&[20, 20], 22) {
        TableLayout::Aligned(widths) => assert_eq!(widths, vec![10, 9]),
        _ => panic!("expected an aligned table"),
    }
}

#[test]
fn allocation_shares_room_round_robin() {
    assert_eq!(allocate_column_widths(&[], 0), Some(vec![]));
    assert_eq!(allocate_column_widths(&[1, 2], 20), Some(vec![3, 3]));
    assert_eq!(allocate_column_widths(&[12, 9, 30], 40), Some(vec![12, 9, 13]));
    assert_eq!(allocate_column_widths(&[30, 30], 10), None);
}

#[test]
fn padding_follows_alignment() {
    assert_eq!(leading_padding(TableAlignment::Left, 10, 3), 0);
    assert_eq!(leading_padding(TableAlignment::Center, 10, 3), 3);
    assert_eq!(leading_padding(TableAlignment::Right, 10, 3), 7);
    assert_eq!(leading_padding(TableAlignment::Right, 2, 3), 0);
}

use warp_tui::markdown_blocks::{
    image_fallback_spans, list_indent, ordered_marker, task_marker, FallbackSpanKind,
    FormattedImage,
};
use warp_tui::markdown_table::marker_columns;

#[test]
fn image_fallback_uses_title_then_source_when_alt_text_is_missing() {
    let titled = FormattedImage {
        alt_text: String::new(),
        title: Some("System diagram".to_owned()),
        source: "diagram.png".to_owned(),
    };
    assert_eq!(
        image_fallback_spans(&titled),
        vec![
            ("Image: System diagram".to_owned(), FallbackSpanKind::Fallback),
            (" (diagram.png)".to_owned(), FallbackSpanKind::Link),
        ]
    );
    let bare = FormattedImage {
        alt_text: String::new(),
        title: None,
        source: "fallback.png".to_owned(),
    };
    assert_eq!(
        image_fallback_spans(&bare),
        vec![("Image: fallback.png".to_owned(), FallbackSpanKind::Link)]
    );
    let nothing = FormattedImage {
        alt_text: String::new(),
        title: None,
        source: String::new(),
    };
    assert_eq!(
        image_fallback_spans(&nothing),
        vec![("[Image without description]".to_owned(), FallbackSpanKind::Fallback)]
    );
    let alt = FormattedImage {
        alt_text: "logo".to_owned(),
        title: Some("ignored".to_owned()),
        source: String::new(),
    };
    assert_eq!(
        image_fallback_spans(&alt),
        vec![("Image: logo".to_owned(), FallbackSpanKind::Fallback)]
    );
}

#[test]
fn list_geometry_and_markers() {
    assert_eq!(list_indent(0), 0);
    assert_eq!(list_indent(3), 6);
    assert_eq!(list_indent(40000), u16::MAX);
    assert_eq!(task_marker(true), "[x] ");
    assert_eq!(task_marker(false), "[ ] ");
    assert_eq!(ordered_marker(12), "12. ");
    assert_eq!(marker_columns("• "), 2);
    assert_eq!(marker_columns("12. "), 4);
}

#[test]
fn allocated_tables_fit_their_width() {
    for (preferred, available) in [
        (vec![12u16, 9, 30], 40u16),
        (vec![1, 50, 7, 20], 60),
        (vec![100, 100], 19),
        (vec![2], 3),
    ] {
        let widths = allocate_column_widths(&preferred, available).expect("fits");
        let total: u32 = widths.iter().map(|w| u32::from(*w)).sum::<u32>()
            + 3 * (preferred.len() as u32 - 1);
        assert!(total <= u32::from(available));
        for (w, p) in widths.iter().zip(&preferred) {
            let start = (*p).clamp(3, 8);
            assert!(*w >= start && *w <= start.max(*p));
        }
    }
}

#[test]
fn record_layout_separates_records_with_blank_lines() {
    let lines = record_lines(2, 2);
    assert_eq!(
        lines,
        vec![
            RecordLine::Field { row: 0, column: 0 },
            RecordLine::Field { row: 0, column: 1 },
            RecordLine::Blank,
            RecordLine::Field { row: 1, column: 0 },
            RecordLine::Field { row: 1, column: 1 },
        ]
    );
}

#[test]
fn record_layout_without_rows_shows_placeholder() {
    assert_eq!(record_lines(3, 0), vec![RecordLine::NoRows]);
}

#[test]
fn aligned_row_pads_cells_and_separates_them() {
    let segments = aligned_row_segments(
        &[TableAlignment::Left, TableAlignment::Center, TableAlignment::Right],
        &[8, 8, 8],
        &[3, 3, 3],
    );
    assert_eq!(
        segments,
        vec![
            RowSegment::Cell { column: 0, width: 8, padding: 0 },
            RowSegment::Gap,
            RowSegment::Cell { column: 1, width: 8, padding: 2 },
            RowSegment::Gap,
            RowSegment::Cell { column: 2, width: 8, padding: 5 },
        ]
    );
}

#[test]
fn aligned_row_stops_at_shortest_input() {
    let segments = aligned_row_segments(&[TableAlignment::Right], &[4, 4], &[10, 1]);
    assert_eq!(segments, vec![RowSegment::Cell { column: 0, width: 4, padding: 0 }]);
}

#[test]
fn tables_switch_from_columns_to_header_keyed_records() {
    let headers = vec![cell("Name"), cell("Description")];
    let rows = vec![vec![cell("Alice"), cell("Builds terminals")]];
    let preferred = preferred_column_widths(&headers, &rows);
    assert_eq!(preferred, vec![5, 16]);
    match choose_table_layout(&preferred, 50) {
        TableLayout::Aligned(widths) => assert_eq!(widths, vec![5, 16]),
        _ => panic!("a wide terminal shows columns"),
    }
    assert!(matches!(choose_table_layout(&preferred, 12), TableLayout::Records));
    assert_eq!(
        record_lines(headers.len(), rows.len()),
        vec![
            RecordLine::Field { row: 0, column: 0 },
            RecordLine::Field { row: 0, column: 1 },
        ]
    );
}
