use warp_tui::terminal_input::{
    cell_point, mouse_report, normalize_paste_text, paste_bytes_from_normalized, policy,
    report_all, PointerEvent, PointerEventKind, PointerInput, PointerModifiers, ReportedAction,
    ReportedButton,
    ScreenPoint, ScreenRect,
};

const BRACKETED_PASTE_START: &[u8] = b"\x1b[200~";
const BRACKETED_PASTE_END: &[u8] = b"\x1b[201~";

const NO_POINTER_MODIFIERS: PointerModifiers = PointerModifiers {
    shift: false,
    ctrl: false,
    alt: false,
    cmd: false,
    meta: false,
};

const SHIFT: PointerModifiers = PointerModifiers {
    shift: true,
    ..NO_POINTER_MODIFIERS
};

fn bounds(x: i32, y: i32, width: u16, height: u16) -> ScreenRect {
    ScreenRect { x, y, width, height }
}

fn event(x: u16, y: u16, kind: PointerEventKind) -> PointerEvent {
    PointerEvent {
        position: ScreenPoint { x, y },
        kind,
    }
}

#[test]
fn paste_normalizes_newlines_and_optionally_adds_bracket_markers() {
    let normalized = normalize_paste_text("first\nsecond\r\nthird\r");
    assert_eq!(
        paste_bytes_from_normalized(&normalized, false),
        b"first\rsecond\rthird\r"
    );

    let normalized = normalize_paste_text("first\nsecond");
    let bytes = paste_bytes_from_normalized(&normalized, true);
    assert!(bytes.starts_with(BRACKETED_PASTE_START));
    assert!(bytes.ends_with(BRACKETED_PASTE_END));
    assert_eq!(
        &bytes[BRACKETED_PASTE_START.len()..bytes.len() - BRACKETED_PASTE_END.len()],
        b"first\rsecond"
    );
}

#[test]
fn paste_normalization_edge_cases() {
    assert_eq!(normalize_paste_text(""), "");
    assert_eq!(normalize_paste_text("\r\r\n"), "\r\r");
    assert_eq!(normalize_paste_text("\n\r\n\n"), "\r\r\r");
    assert_eq!(normalize_paste_text("héllo"), "héllo");
    assert_eq!(paste_bytes_from_normalized("é", false), "é".as_bytes());
}

#[test]
fn events_are_gated_by_their_policy_category() {
    let area = bounds(0, 0, 10, 10);
    let left_down = event(2, 3, PointerEventKind::LeftMouseDown { modifiers: NO_POINTER_MODIFIERS });
    let left_dragged = event(2, 3, PointerEventKind::LeftMouseDragged { modifiers: NO_POINTER_MODIFIERS });
    let moved = event(2, 3, PointerEventKind::MouseMoved { modifiers: NO_POINTER_MODIFIERS, is_synthetic: false });

    assert!(mouse_report(left_down, area, policy(false, true, true), true).is_none());
    assert!(mouse_report(left_down, area, policy(true, false, false), true).is_some());
    assert!(mouse_report(left_dragged, area, policy(false, true, true), true).is_none());
    assert!(mouse_report(left_dragged, area, policy(true, false, false), true).is_some());
    assert!(mouse_report(moved, area, policy(true, false, true), true).is_none());
    assert!(mouse_report(moved, area, policy(false, true, false), true).is_some());
}

#[test]
fn unsupported_or_intercepted_mouse_events_are_not_forwarded() {
    let area = bounds(5, 5, 10, 10);
    let outside = event(4, 5, PointerEventKind::LeftMouseDown { modifiers: NO_POINTER_MODIFIERS });
    let shifted = event(6, 6, PointerEventKind::LeftMouseDown { modifiers: SHIFT });
    let middle = event(6, 6, PointerEventKind::MiddleMouseDown);
    let synthetic_move = event(6, 6, PointerEventKind::MouseMoved { modifiers: NO_POINTER_MODIFIERS, is_synthetic: true });

    assert!(mouse_report(outside, area, report_all(), true).is_none());
    assert!(mouse_report(shifted, area, report_all(), true).is_none());
    assert!(mouse_report(middle, area, report_all(), true).is_none());
    assert!(mouse_report(synthetic_move, area, report_all(), true).is_none());
}

#[test]
fn sgr_mouse_events_use_area_relative_coordinates() {
    let area = bounds(10, 5, 20, 10);
    let down = event(12, 6, PointerEventKind::LeftMouseDown { modifiers: NO_POINTER_MODIFIERS });
    assert_eq!(
        mouse_report(down, area, report_all(), true),
        Some((
            (1, 2),
            PointerInput::Button {
                button: ReportedButton::Left,
                action: ReportedAction::Pressed,
                modifiers: NO_POINTER_MODIFIERS
            }
        ))
    );
    let up = event(12, 6, PointerEventKind::LeftMouseUp { modifiers: NO_POINTER_MODIFIERS });
    assert_eq!(
        mouse_report(up, area, report_all(), true).map(|(_, input)| input),
        Some(PointerInput::Button {
            button: ReportedButton::Left,
            action: ReportedAction::Released,
            modifiers: NO_POINTER_MODIFIERS
        })
    );
    let right = event(12, 6, PointerEventKind::RightMouseDown { modifiers: NO_POINTER_MODIFIERS });
    assert_eq!(
        mouse_report(right, area, report_all(), true).map(|(_, input)| input),
        Some(PointerInput::Button {
            button: ReportedButton::Right,
            action: ReportedAction::Pressed,
            modifiers: NO_POINTER_MODIFIERS
        })
    );
    let dragged = event(12, 6, PointerEventKind::LeftMouseDragged { modifiers: NO_POINTER_MODIFIERS });
    assert_eq!(
        mouse_report(dragged, area, report_all(), true),
        Some((
            (1, 2),
            PointerInput::Button {
                button: ReportedButton::LeftDrag,
                action: ReportedAction::Pressed,
                modifiers: NO_POINTER_MODIFIERS
            }
        ))
    );
    let moved = event(12, 6, PointerEventKind::MouseMoved { modifiers: NO_POINTER_MODIFIERS, is_synthetic: false });
    assert_eq!(
        mouse_report(moved, area, report_all(), true),
        Some((
            (1, 2),
            PointerInput::Button {
                button: ReportedButton::Move,
                action: ReportedAction::Pressed,
                modifiers: NO_POINTER_MODIFIERS
            }
        ))
    );
    for rows in [1i64, -1] {
        let scroll = event(12, 6, PointerEventKind::ScrollWheel { rows });
        assert_eq!(
            mouse_report(scroll, area, report_all(), true),
            Some((
                (1, 2),
                PointerInput::Scroll {
                    rows: rows as i32,
                    as_mouse_report: true
                }
            ))
        );
    }
}

#[test]
fn scroll_uses_sgr_when_available_and_arrows_otherwise() {
    let area = bounds(0, 0, 10, 10);
    let scroll = event(2, 3, PointerEventKind::ScrollWheel { rows: 1 });
    assert_eq!(
        mouse_report(scroll, area, policy(false, false, false), true),
        Some((
            (3, 2),
            PointerInput::Scroll {
                rows: 1,
                as_mouse_report: false
            }
        ))
    );
    assert_eq!(
        mouse_report(scroll, area, policy(false, false, true), true).map(|(_, input)| input),
        Some(PointerInput::Scroll {
            rows: 1,
            as_mouse_report: true
        })
    );
    assert_eq!(mouse_report(scroll, area, policy(false, false, false), false), None);
    let huge = event(2, 3, PointerEventKind::ScrollWheel { rows: i64::MAX });
    assert_eq!(mouse_report(huge, area, report_all(), true), None);
}

#[test]
fn cell_points_stay_inside_the_area() {
    let area = bounds(-2, 3, 4, 2);
    assert_eq!(cell_point(ScreenPoint { x: 0, y: 3 }, area), Some((0, 2)));
    assert_eq!(cell_point(ScreenPoint { x: 1, y: 4 }, area), Some((1, 3)));
    assert_eq!(cell_point(ScreenPoint { x: 2, y: 4 }, area), None);
    assert_eq!(cell_point(ScreenPoint { x: 1, y: 5 }, area), None);
    assert_eq!(cell_point(ScreenPoint { x: 1, y: 2 }, area), None);
}

use warp_tui::terminal_input::{
    key_typeahead, paste_input, route_content_event, ContentEventKind, EventRoute, KeyModifiers,
};

const NO_MODIFIERS: KeyModifiers = KeyModifiers {
    ctrl: false,
    alt: false,
    cmd: false,
    meta: false,
};

#[test]
fn typeahead_is_reported_only_for_echoable_text() {
    assert_eq!(key_typeahead("a", "a", NO_MODIFIERS, b"a"), Some("a".to_owned()));
    assert_eq!(
        key_typeahead("e", "é", NO_MODIFIERS, "é".as_bytes()),
        Some("é".to_owned())
    );
    let ctrl = KeyModifiers {
        ctrl: true,
        ..NO_MODIFIERS
    };
    assert_eq!(key_typeahead("c", "c", ctrl, b"\x03"), None);
    assert_eq!(key_typeahead("up", "", NO_MODIFIERS, b"\x1b[A"), None);
    assert_eq!(key_typeahead("enter", "", NO_MODIFIERS, b"\r"), Some("\r".to_owned()));
    assert_eq!(key_typeahead("enter", "", NO_MODIFIERS, b"\x1b\r"), None);
    assert_eq!(key_typeahead("a", "a", NO_MODIFIERS, b"b"), None);
}

#[test]
fn paste_input_pairs_bytes_with_echoable_text() {
    let (bytes, echo) = paste_input("a\r\nb", true);
    assert_eq!(echo, "a\rb");
    assert_eq!(bytes, b"\x1b[200~a\rb\x1b[201~".to_vec());
    let (bytes, echo) = paste_input("x\n", false);
    assert_eq!(echo, "x\r");
    assert_eq!(bytes, b"x\r".to_vec());
}

#[test]
fn content_events_are_routed_to_the_process_first() {
    assert_eq!(
        route_content_event(ContentEventKind::Paste, false, true),
        EventRoute::Child
    );
    assert_eq!(
        route_content_event(ContentEventKind::KeyDown { is_composing: true }, true, true),
        EventRoute::Unhandled
    );
    assert_eq!(
        route_content_event(ContentEventKind::KeyDown { is_composing: false }, true, false),
        EventRoute::Swallow
    );
    assert_eq!(
        route_content_event(ContentEventKind::Paste, true, true),
        EventRoute::ForwardToPty
    );
    assert_eq!(
        route_content_event(ContentEventKind::Pointer, true, false),
        EventRoute::Child
    );
    assert_eq!(
        route_content_event(ContentEventKind::Pointer, true, true),
        EventRoute::ForwardToPty
    );
}

#[test]
fn forwarded_input_preserves_bytes_and_reports_only_echoable_text() {
    assert_eq!(key_typeahead("enter", "", NO_MODIFIERS, b"\r"), Some("\r".to_owned()));
    let ctrl = KeyModifiers {
        ctrl: true,
        ..NO_MODIFIERS
    };
    assert_eq!(key_typeahead("d", "d", ctrl, &[0x04]), None);
    assert_eq!(
        key_typeahead("\u{e9}", "\u{e9}", NO_MODIFIERS, "\u{e9}".as_bytes()),
        Some("\u{e9}".to_owned())
    );
    let (bytes, echo) = paste_input("first\nsecond\r\nthird", false);
    assert_eq!(bytes, b"first\rsecond\rthird".to_vec());
    assert_eq!(echo, "first\rsecond\rthird");
}

#[test]
fn composing_key_event_is_not_forwarded() {
    assert_eq!(
        route_content_event(ContentEventKind::KeyDown { is_composing: true }, true, false),
        EventRoute::Unhandled
    );
}

#[test]
fn button_reports_carry_the_held_modifiers() {
    let area = bounds(0, 0, 10, 10);
    let ctrl = PointerModifiers {
        ctrl: true,
        ..NO_POINTER_MODIFIERS
    };
    let click = event(2, 3, PointerEventKind::LeftMouseDown { modifiers: ctrl });
    assert_eq!(
        mouse_report(click, area, report_all(), true),
        Some((
            (3, 2),
            PointerInput::Button {
                button: ReportedButton::Left,
                action: ReportedAction::Pressed,
                modifiers: ctrl
            }
        ))
    );
    let alt = PointerModifiers {
        alt: true,
        ..NO_POINTER_MODIFIERS
    };
    let moved = event(2, 3, PointerEventKind::MouseMoved { modifiers: alt, is_synthetic: false });
    assert_eq!(
        mouse_report(moved, area, report_all(), true).map(|(_, input)| input),
        Some(PointerInput::Button {
            button: ReportedButton::Move,
            action: ReportedAction::Pressed,
            modifiers: alt
        })
    );
}

#[test]
fn paste_normalization_is_idempotent_and_drops_one_char_per_crlf() {
    let text = "a\r\nb\nc\r\r\nd";
    let once = normalize_paste_text(text);
    assert_eq!(once, "a\rb\rc\r\rd");
    assert_eq!(normalize_paste_text(&once), once);
    assert_eq!(once.chars().count(), text.chars().count() - text.matches("\r\n").count());
    assert_eq!(normalize_paste_text("no feeds\r here"), "no feeds\r here");
}
