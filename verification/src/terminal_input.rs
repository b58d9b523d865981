//! What the foreground process receives of pasted text and pointer events:
//! paste normalization and bracketing, and which pointer events are
//! reported, at which grid cell.
use vstd::prelude::*;
use crate::text::{chars_of, string_from_chars};

verus! {

/// The marker that opens a bracketed paste (`ESC [ 200 ~`).
pub open spec fn bracketed_paste_start() -> Seq<u8> {
    seq![0x1bu8, 0x5bu8, 0x32u8, 0x30u8, 0x30u8, 0x7eu8]
}

/// The marker that closes a bracketed paste (`ESC [ 201 ~`).
pub open spec fn bracketed_paste_end() -> Seq<u8> {
    seq![0x1bu8, 0x5bu8, 0x32u8, 0x30u8, 0x31u8, 0x7eu8]
}

/// Pasted text with every line ending turned into a carriage return: each
/// `\r\n` becomes one `\r`, then each remaining `\n` becomes `\r`.
pub open spec fn normalized_paste(s: Seq<char>) -> Seq<char>
    decreases s.len(),
{
    if s.len() == 0 {
        Seq::empty()
    } else if s.len() >= 2 && s[0] == '\r' && s[1] == '\n' {
        seq!['\r'] + normalized_paste(s.skip(2))
    } else if s[0] == '\n' {
        seq!['\r'] + normalized_paste(s.skip(1))
    } else {
        seq![s[0]] + normalized_paste(s.skip(1))
    }
}

/// Normalizes pasted text to the carriage returns a terminal sends for Enter.
pub fn normalize_paste_text(text: &str) -> (normalized: String)
    ensures
        normalized@ == normalized_paste(text@),
{
    let chars = chars_of(text);
    let n = chars.len();
    let mut out: Vec<char> = Vec::new();
    let mut i: usize = 0;
    assert(text@.skip(0) == text@);
    while i < n
        invariant
            chars@ == text@,
            n == chars@.len(),
            i <= n,
            normalized_paste(text@) == out@ + normalized_paste(text@.skip(i as int)),
        decreases n - i,
    {
        let ghost rest = text@.skip(i as int);
        if i + 1 < n && chars[i] == '\r' && chars[i + 1] == '\n' {
            assert(rest.skip(2) == text@.skip(i + 2));
            out.push('\r');
            assert(normalized_paste(text@) == out@ + normalized_paste(text@.skip(i + 2)));
            i = i + 2;
        } else {
            let c = chars[i];
            assert(rest.skip(1) == text@.skip(i + 1));
            if c == '\n' {
                out.push('\r');
            } else {
                out.push(c);
            }
            assert(normalized_paste(text@) == out@ + normalized_paste(text@.skip(i + 1)));
            i = i + 1;
        }
    }
    assert(text@.skip(n as int).len() == 0);
    assert(out@ + normalized_paste(text@.skip(n as int)) == out@);
    string_from_chars(out.as_slice())
}

/// The bytes a paste sends: the UTF-8 of the normalized text, wrapped in the
/// bracketed-paste markers when the foreground process asked for them.
pub open spec fn spec_paste_bytes(normalized: Seq<char>, needs_bracketed_paste: bool) -> Seq<u8> {
    if needs_bracketed_paste {
        bracketed_paste_start() + vstd::utf8::encode_utf8(normalized) + bracketed_paste_end()
    } else {
        vstd::utf8::encode_utf8(normalized)
    }
}

fn push_bytes(out: &mut Vec<u8>, bytes: &[u8])
    ensures
        final(out)@ == old(out)@ + bytes@,
{
    let mut i: usize = 0;
    while i < bytes.len()
        invariant
            i <= bytes@.len(),
            out@ == old(out)@ + bytes@.take(i as int),
        decreases bytes@.len() - i,
    {
        out.push(bytes[i]);
        assert(bytes@.take(i + 1) == bytes@.take(i as int).push(bytes@[i as int]));
        i = i + 1;
    }
    assert(bytes@.take(bytes@.len() as int) == bytes@);
}

/// Encodes already-normalized paste text for the PTY.
pub fn paste_bytes_from_normalized(normalized: &str, needs_bracketed_paste: bool) -> (bytes: Vec<u8>)
    ensures
        bytes@ == spec_paste_bytes(normalized@, needs_bracketed_paste),
{
    let text = normalized.as_bytes();
    let mut bytes: Vec<u8> = Vec::new();
    if needs_bracketed_paste {
        let start: [u8; 6] = [0x1b, 0x5b, 0x32, 0x30, 0x30, 0x7e];
        let end: [u8; 6] = [0x1b, 0x5b, 0x32, 0x30, 0x31, 0x7e];
        push_bytes(&mut bytes, start.as_slice());
        assert(start@ == bracketed_paste_start());
        push_bytes(&mut bytes, text);
        push_bytes(&mut bytes, end.as_slice());
        assert(end@ == bracketed_paste_end());
    } else {
        push_bytes(&mut bytes, text);
    }
    bytes
}

/// Which terminal mouse reports the active process and user settings allow.
#[derive(Clone, Copy, Debug, PartialEq, Eq, Structural)]
pub struct MouseReportPolicy {
    /// Clicks, releases, and drags.
    pub report_buttons: bool,
    /// Hover motion.
    pub report_motion: bool,
    /// Wheel events as SGR reports.
    pub report_scroll: bool,
}

/// A reporting policy with the given per-category flags.
pub fn policy(buttons: bool, motion: bool, scroll: bool) -> (p: MouseReportPolicy)
    ensures
        p == (MouseReportPolicy { report_buttons: buttons, report_motion: motion, report_scroll: scroll }),
{
    MouseReportPolicy { report_buttons: buttons, report_motion: motion, report_scroll: scroll }
}

/// A policy allowing every report category.
pub fn report_all() -> (p: MouseReportPolicy)
    ensures
        p == (MouseReportPolicy { report_buttons: true, report_motion: true, report_scroll: true }),
{
    policy(true, true, true)
}

/// A screen cell position.
#[derive(Clone, Copy, Debug, PartialEq, Eq, Structural)]
pub struct ScreenPoint {
    pub x: u16,
    pub y: u16,
}

/// A screen rectangle: its origin may lie off screen.
#[derive(Clone, Copy, Debug, PartialEq, Eq, Structural)]
pub struct ScreenRect {
    pub x: i32,
    pub y: i32,
    pub width: u16,
    pub height: u16,
}

/// Whether `p` lies inside `r`.
pub open spec fn rect_contains(r: ScreenRect, p: ScreenPoint) -> bool {
    r.x <= p.x < r.x + r.width && r.y <= p.y < r.y + r.height
}

/// A grid cell of the terminal content, as (line, column).
pub type GridPoint = (usize, usize);

/// Converts an in-bounds screen position to terminal grid coordinates,
/// relative to the content's origin.
pub fn cell_point(position: ScreenPoint, bounds: ScreenRect) -> (point: Option<GridPoint>)
    ensures
        match point {
            Some((line, column)) => rect_contains(bounds, position) && line == position.y - bounds.y
                && column == position.x - bounds.x,
            None => !rect_contains(bounds, position),
        },
{
    let x: i64 = position.x as i64;
    let y: i64 = position.y as i64;
    let ox: i64 = bounds.x as i64;
    let oy: i64 = bounds.y as i64;
    if x < ox || x >= ox + bounds.width as i64 || y < oy || y >= oy + bounds.height as i64 {
        return None;
    }
    Some(((y - oy) as usize, (x - ox) as usize))
}

/// The modifier keys held during a pointer event. Button reports carry all
/// of them; a shift-modified click is left to text selection.
#[derive(Clone, Copy, Debug, PartialEq, Eq, Structural)]
pub struct PointerModifiers {
    pub shift: bool,
    pub ctrl: bool,
    pub alt: bool,
    pub cmd: bool,
    pub meta: bool,
}

/// The pointer events that may be forwarded, with what forwarding reads of
/// them.
#[derive(Clone, Copy, Debug, PartialEq, Eq, Structural)]
pub enum PointerEventKind {
    /// A wheel event; `rows` is its vertical delta.
    ScrollWheel { rows: i64 },
    LeftMouseDown { modifiers: PointerModifiers },
    RightMouseDown { modifiers: PointerModifiers },
    LeftMouseUp { modifiers: PointerModifiers },
    LeftMouseDragged { modifiers: PointerModifiers },
    MiddleMouseDown,
    MouseMoved { modifiers: PointerModifiers, is_synthetic: bool },
}

/// A pointer event at a screen position.
#[derive(Clone, Copy, Debug, PartialEq, Eq, Structural)]
pub struct PointerEvent {
    pub position: ScreenPoint,
    pub kind: PointerEventKind,
}

/// The button a report names.
#[derive(Clone, Copy, Debug, PartialEq, Eq, Structural)]
pub enum ReportedButton {
    Left,
    Right,
    LeftDrag,
    Move,
}

/// Whether the button was pressed or released.
#[derive(Clone, Copy, Debug, PartialEq, Eq, Structural)]
pub enum ReportedAction {
    Pressed,
    Released,
}

/// What the foreground process is sent for a pointer event.
#[derive(Clone, Copy, Debug, PartialEq, Eq, Structural)]
pub enum PointerInput {
    /// Scroll by `rows`: as SGR wheel reports when `as_mouse_report`, else as
    /// arrow keys.
    Scroll { rows: i32, as_mouse_report: bool },
    /// A button report, with the modifiers held during the event.
    Button { button: ReportedButton, action: ReportedAction, modifiers: PointerModifiers },
}

/// The input to send for `event`, before its grid position is attached.
pub open spec fn spec_pointer_input(
    kind: PointerEventKind,
    policy: MouseReportPolicy,
    allow_arrow_fallback: bool,
) -> Option<PointerInput> {
    match kind {
        PointerEventKind::ScrollWheel { rows } => if !policy.report_scroll && !allow_arrow_fallback {
            None
        } else if i32::MIN <= rows <= i32::MAX {
            Some(PointerInput::Scroll { rows: rows as i32, as_mouse_report: policy.report_scroll })
        } else {
            None
        },
        PointerEventKind::LeftMouseDown { modifiers } => if policy.report_buttons && !modifiers.shift {
            Some(PointerInput::Button { button: ReportedButton::Left, action: ReportedAction::Pressed, modifiers })
        } else {
            None
        },
        PointerEventKind::RightMouseDown { modifiers } => if policy.report_buttons && !modifiers.shift {
            Some(PointerInput::Button { button: ReportedButton::Right, action: ReportedAction::Pressed, modifiers })
        } else {
            None
        },
        PointerEventKind::LeftMouseUp { modifiers } => if policy.report_buttons && !modifiers.shift {
            Some(PointerInput::Button { button: ReportedButton::Left, action: ReportedAction::Released, modifiers })
        } else {
            None
        },
        PointerEventKind::LeftMouseDragged { modifiers } => if policy.report_buttons && !modifiers.shift {
            Some(
                PointerInput::Button { button: ReportedButton::LeftDrag, action: ReportedAction::Pressed, modifiers },
            )
        } else {
            None
        },
        PointerEventKind::MiddleMouseDown => None,
        PointerEventKind::MouseMoved { modifiers, is_synthetic } => if !is_synthetic && policy.report_motion {
            Some(PointerInput::Button { button: ReportedButton::Move, action: ReportedAction::Pressed, modifiers })
        } else {
            None
        },
    }
}

/// Decides what a pointer event sends to the foreground process: nothing
/// outside the content, nothing for a category the policy withholds or for a
/// shift-modified click (left to selection), and otherwise the report at the
/// event's grid cell. Wheel events fall back to arrow keys when allowed.
pub fn mouse_report(
    event: PointerEvent,
    bounds: ScreenRect,
    policy: MouseReportPolicy,
    allow_arrow_fallback: bool,
) -> (report: Option<(GridPoint, PointerInput)>)
    ensures
        match report {
            Some((point, input)) => rect_contains(bounds, event.position) && point == (
                (event.position.y - bounds.y) as usize,
                (event.position.x - bounds.x) as usize,
            ) && spec_pointer_input(event.kind, policy, allow_arrow_fallback) == Some(input),
            None => !rect_contains(bounds, event.position) || spec_pointer_input(
                event.kind,
                policy,
                allow_arrow_fallback,
            ) is None,
        },
{
    let point = match cell_point(event.position, bounds) {
        Some(p) => p,
        None => {
            return None;
        },
    };
    let input = match event.kind {
        PointerEventKind::ScrollWheel { rows } => {
            if !policy.report_scroll && !allow_arrow_fallback {
                return None;
            }
            if rows < i32::MIN as i64 || rows > i32::MAX as i64 {
                return None;
            }
            PointerInput::Scroll { rows: rows as i32, as_mouse_report: policy.report_scroll }
        },
        PointerEventKind::LeftMouseDown { modifiers } => {
            if !policy.report_buttons || modifiers.shift {
                return None;
            }
            PointerInput::Button { button: ReportedButton::Left, action: ReportedAction::Pressed, modifiers }
        },
        PointerEventKind::RightMouseDown { modifiers } => {
            if !policy.report_buttons || modifiers.shift {
                return None;
            }
            PointerInput::Button { button: ReportedButton::Right, action: ReportedAction::Pressed, modifiers }
        },
        PointerEventKind::LeftMouseUp { modifiers } => {
            if !policy.report_buttons || modifiers.shift {
                return None;
            }
            PointerInput::Button { button: ReportedButton::Left, action: ReportedAction::Released, modifiers }
        },
        PointerEventKind::LeftMouseDragged { modifiers } => {
            if !policy.report_buttons || modifiers.shift {
                return None;
            }
            PointerInput::Button { button: ReportedButton::LeftDrag, action: ReportedAction::Pressed, modifiers }
        },
        PointerEventKind::MiddleMouseDown => {
            return None;
        },
        PointerEventKind::MouseMoved { modifiers, is_synthetic } => {
            if is_synthetic || !policy.report_motion {
                return None;
            }
            PointerInput::Button { button: ReportedButton::Move, action: ReportedAction::Pressed, modifiers }
        },
    };
    Some((point, input))
}


/// The modifier keys held with a key press.
#[derive(Clone, Copy, Debug, PartialEq, Eq, Structural)]
pub struct KeyModifiers {
    pub ctrl: bool,
    pub alt: bool,
    pub cmd: bool,
    pub meta: bool,
}

/// The text a key press may echo as shell typeahead.
pub open spec fn spec_key_typeahead(
    key: Seq<char>,
    chars: Seq<char>,
    modifiers: KeyModifiers,
    bytes: Seq<u8>,
) -> Option<Seq<char>> {
    if chars.len() > 0 && !modifiers.ctrl && !modifiers.alt && !modifiers.cmd && !modifiers.meta
        && bytes == vstd::utf8::encode_utf8(chars) {
        Some(chars)
    } else if key == "enter"@ && bytes == seq![0x0du8] {
        Some("\r"@)
    } else {
        None
    }
}

fn bytes_equal(a: &[u8], b: &[u8]) -> (eq: bool)
    ensures
        eq == (a@ == b@),
{
    if a.len() != b.len() {
        return false;
    }
    let mut i: usize = 0;
    while i < a.len()
        invariant
            a@.len() == b@.len(),
            i <= a@.len(),
            forall|k: int| 0 <= k < i ==> a@[k] == b@[k],
        decreases a@.len() - i,
    {
        if a[i] != b[i] {
            return false;
        }
        i = i + 1;
    }
    assert(a@ == b@);
    true
}

/// Which text of a forwarded key press the shell may echo back as typeahead:
/// the typed characters when no modifier is held and the PTY receives
/// exactly their UTF-8 bytes; a carriage return for Enter sent as `\r`;
/// otherwise nothing.
pub fn key_typeahead(key: &str, chars: &str, modifiers: KeyModifiers, bytes: &[u8]) -> (typeahead: Option<String>)
    ensures
        match spec_key_typeahead(key@, chars@, modifiers, bytes@) {
            Some(text) => typeahead matches Some(t) && t@ == text,
            None => typeahead is None,
        },
{
    if !chars.is_empty() && !modifiers.ctrl && !modifiers.alt && !modifiers.cmd && !modifiers.meta
        && bytes_equal(bytes, chars.as_bytes()) {
        let mut text = String::new();
        crate::text::push_chars(&mut text, chars);
        return Some(text);
    }
    if crate::text::str_eq(key, "enter") && bytes.len() == 1 && bytes[0] == 0x0d {
        assert(bytes@ == seq![0x0du8]);
        let mut text = String::new();
        crate::text::push_chars(&mut text, "\r");
        return Some(text);
    }
    proof {
        reveal_strlit("enter");
    }
    None
}

/// A paste sends the normalized text's bytes (bracketed when the process
/// asked for it), and the normalized text is what the shell may echo.
pub fn paste_input(text: &str, needs_bracketed_paste: bool) -> (input: (Vec<u8>, String))
    ensures
        input.1@ == normalized_paste(text@),
        input.0@ == spec_paste_bytes(normalized_paste(text@), needs_bracketed_paste),
{
    let normalized = normalize_paste_text(text);
    let bytes = paste_bytes_from_normalized(normalized.as_str(), needs_bracketed_paste);
    (bytes, normalized)
}


/// The input events the terminal content may forward.
#[derive(Clone, Copy, Debug, PartialEq, Eq, Structural)]
pub enum ContentEventKind {
    KeyDown { is_composing: bool },
    Paste,
    Pointer,
}

/// Where an input event over the terminal content goes.
#[derive(Clone, Copy, Debug, PartialEq, Eq, Structural)]
pub enum EventRoute {
    /// Send the produced bytes to the foreground process; handled.
    ForwardToPty,
    /// Handled without sending anything.
    Swallow,
    /// Not handled, and not passed on.
    Unhandled,
    /// Passed on to the wrapped content.
    Child,
}

/// Routes an event: without PTY input everything goes to the content; keys
/// and pastes belong to the process (forwarded when they produce bytes,
/// swallowed otherwise), except keys still being composed, which stay
/// unhandled; pointer events are forwarded when they produce a report, else
/// passed to the content.
pub fn route_content_event(kind: ContentEventKind, pty_input: bool, produced_bytes: bool) -> (route: EventRoute)
    ensures
        route == (if !pty_input {
            EventRoute::Child
        } else {
            match kind {
                ContentEventKind::KeyDown { is_composing: true } => EventRoute::Unhandled,
                ContentEventKind::KeyDown { .. } | ContentEventKind::Paste => if produced_bytes {
                    EventRoute::ForwardToPty
                } else {
                    EventRoute::Swallow
                },
                ContentEventKind::Pointer => if produced_bytes {
                    EventRoute::ForwardToPty
                } else {
                    EventRoute::Child
                },
            }
        }),
{
    if !pty_input {
        return EventRoute::Child;
    }
    match kind {
        ContentEventKind::KeyDown { is_composing } => {
            if is_composing {
                EventRoute::Unhandled
            } else if produced_bytes {
                EventRoute::ForwardToPty
            } else {
                EventRoute::Swallow
            }
        },
        ContentEventKind::Paste => if produced_bytes {
            EventRoute::ForwardToPty
        } else {
            EventRoute::Swallow
        },
        ContentEventKind::Pointer => if produced_bytes {
            EventRoute::ForwardToPty
        } else {
            EventRoute::Child
        },
    }
}

/// Normalized paste text holds no line feed, so the shell never sees a bare
/// `\n` from a paste; and a text without line feeds or carriage returns is
/// pasted unchanged.
pub proof fn law_paste_has_no_line_feeds(s: Seq<char>)
    ensures
        forall|i: int| 0 <= i < normalized_paste(s).len() ==> normalized_paste(s)[i] != '\n',
        (forall|i: int| 0 <= i < s.len() ==> s[i] != '\n' && s[i] != '\r') ==> normalized_paste(s)
            == s,
    decreases s.len(),
{
    if s.len() >= 2 && s[0] == '\r' && s[1] == '\n' {
        law_paste_has_no_line_feeds(s.skip(2));
    } else if s.len() > 0 {
        law_paste_has_no_line_feeds(s.skip(1));
        if forall|i: int| 0 <= i < s.len() ==> s[i] != '\n' && s[i] != '\r' {
            assert forall|i: int| 0 <= i < s.skip(1).len() implies s.skip(1)[i] != '\n' && s.skip(
                1,
            )[i] != '\r' by {
                assert(s.skip(1)[i] == s[i + 1]);
            }
            assert(seq![s[0]] + s.skip(1) == s);
        }
    }
    if s.len() > 0 {
        let rest = if s.len() >= 2 && s[0] == '\r' && s[1] == '\n' {
            s.skip(2)
        } else {
            s.skip(1)
        };
        assert forall|i: int| 0 <= i < normalized_paste(s).len() implies normalized_paste(s)[i]
            != '\n' by {
            if i > 0 {
                assert(normalized_paste(s)[i] == normalized_paste(rest)[i - 1]);
            }
        }
    }
}

/// How many `\r\n` pairs `s` holds, counted left to right without overlap
/// (what `str::matches("\r\n").count()` counts).
pub open spec fn crlf_count(s: Seq<char>) -> nat
    decreases s.len(),
{
    if s.len() == 0 {
        0
    } else if s.len() >= 2 && s[0] == '\r' && s[1] == '\n' {
        1 + crlf_count(s.skip(2))
    } else {
        crlf_count(s.skip(1))
    }
}

proof fn lemma_no_line_feed_is_fixed(s: Seq<char>)
    requires
        forall|i: int| 0 <= i < s.len() ==> s[i] != '\n',
    ensures
        normalized_paste(s) == s,
    decreases s.len(),
{
    if s.len() > 0 {
        if s.len() >= 2 {
            assert(s[1] != '\n');
        }
        assert forall|i: int| 0 <= i < s.skip(1).len() implies s.skip(1)[i] != '\n' by {
            assert(s.skip(1)[i] == s[i + 1]);
        }
        lemma_no_line_feed_is_fixed(s.skip(1));
        assert(seq![s[0]] + s.skip(1) == s);
    }
}

proof fn lemma_paste_length(s: Seq<char>)
    ensures
        normalized_paste(s).len() + crlf_count(s) == s.len(),
    decreases s.len(),
{
    if s.len() >= 2 && s[0] == '\r' && s[1] == '\n' {
        lemma_paste_length(s.skip(2));
    } else if s.len() > 0 {
        lemma_paste_length(s.skip(1));
    }
}

/// Normalizing pasted text leaves text without a line feed unchanged, so
/// normalizing twice is normalizing once; and it shortens the text by one
/// character for each `\r\n` it held.
pub proof fn law_paste_normalization(s: Seq<char>)
    ensures
        (forall|i: int| 0 <= i < s.len() ==> s[i] != '\n') ==> normalized_paste(s) == s,
        normalized_paste(normalized_paste(s)) == normalized_paste(s),
        normalized_paste(s).len() == s.len() - crlf_count(s),
{
    if forall|i: int| 0 <= i < s.len() ==> s[i] != '\n' {
        lemma_no_line_feed_is_fixed(s);
    }
    law_paste_has_no_line_feeds(s);
    lemma_no_line_feed_is_fixed(normalized_paste(s));
    lemma_paste_length(s);
}

/// A category the policy withholds is never reported: buttons, motion, and
/// (without arrow fallback) the wheel.
pub proof fn law_policy_gates_reports(
    kind: PointerEventKind,
    policy: MouseReportPolicy,
    allow_arrow_fallback: bool,
)
    ensures
        spec_pointer_input(kind, policy, allow_arrow_fallback) matches Some(
            PointerInput::Button { button, .. },
        ) ==> if button == ReportedButton::Move {
            policy.report_motion
        } else {
            policy.report_buttons
        },
        spec_pointer_input(kind, policy, allow_arrow_fallback) matches Some(
            PointerInput::Scroll { as_mouse_report, .. },
        ) ==> (as_mouse_report == policy.report_scroll) && (policy.report_scroll
            || allow_arrow_fallback),
{
}

} // verus!
