//! Plain-text stand-ins and list geometry for rendered Markdown blocks.
use vstd::prelude::*;
use crate::text::{decimal, push_chars, push_decimal};

verus! {

/// Columns of indentation per list nesting level.
pub const LIST_INDENT_COLUMNS: u16 = 2;

/// How an image fallback span is styled.
#[derive(Clone, Copy, Debug, PartialEq, Eq, Structural)]
pub enum FallbackSpanKind {
    /// Muted fallback text.
    Fallback,
    /// Link-styled text.
    Link,
}

/// An image in the Markdown source.
pub struct FormattedImage {
    pub alt_text: String,
    pub title: Option<String>,
    pub source: String,
}

/// The fallback spans for an image.
pub open spec fn spec_image_fallback(alt: Seq<char>, title: Option<Seq<char>>, source: Seq<char>) -> Seq<(Seq<char>, FallbackSpanKind)> {
    let description = if alt.len() > 0 {
        Some(alt)
    } else {
        title
    };
    match description {
        Some(d) => if source.len() > 0 {
            seq![
                ("Image: "@ + d, FallbackSpanKind::Fallback),
                (" ("@ + source + ")"@, FallbackSpanKind::Link),
            ]
        } else {
            seq![("Image: "@ + d, FallbackSpanKind::Fallback)]
        },
        None => if source.len() > 0 {
            seq![("Image: "@ + source, FallbackSpanKind::Link)]
        } else {
            seq![("[Image without description]"@, FallbackSpanKind::Fallback)]
        },
    }
}

pub open spec fn span_views(spans: Seq<(String, FallbackSpanKind)>) -> Seq<(Seq<char>, FallbackSpanKind)> {
    Seq::new(spans.len(), |i: int| (spans[i].0@, spans[i].1))
}

/// Describes an image that cannot be shown: by its alt text, else its title,
/// followed by its source; by its source alone when it has no description;
/// or as an image without description.
pub fn image_fallback_spans(image: &FormattedImage) -> (spans: Vec<(String, FallbackSpanKind)>)
    ensures
        span_views(spans@) == spec_image_fallback(
            image.alt_text@,
            match image.title {
                Some(t) => Some(t@),
                None => None,
            },
            image.source@,
        ),
{
    let description: Option<&str> = if !image.alt_text.as_str().is_empty() {
        Some(image.alt_text.as_str())
    } else {
        match &image.title {
            Some(t) => Some(t.as_str()),
            None => None,
        }
    };
    let mut spans: Vec<(String, FallbackSpanKind)> = Vec::new();
    match description {
        Some(d) => {
            let mut text = String::new();
            push_chars(&mut text, "Image: ");
            push_chars(&mut text, d);
            spans.push((text, FallbackSpanKind::Fallback));
            if !image.source.as_str().is_empty() {
                let mut source = String::new();
                push_chars(&mut source, " (");
                push_chars(&mut source, image.source.as_str());
                push_chars(&mut source, ")");
                spans.push((source, FallbackSpanKind::Link));
            }
        },
        None => {
            let mut text = String::new();
            if !image.source.as_str().is_empty() {
                push_chars(&mut text, "Image: ");
                push_chars(&mut text, image.source.as_str());
                spans.push((text, FallbackSpanKind::Link));
            } else {
                push_chars(&mut text, "[Image without description]");
                spans.push((text, FallbackSpanKind::Fallback));
            }
        },
    }
    assert(span_views(spans@) =~= spec_image_fallback(
        image.alt_text@,
        match image.title {
            Some(t) => Some(t@),
            None => None,
        },
        image.source@,
    ));
    spans
}

/// The left padding of a list item: two columns per nesting level,
/// saturating at `u16::MAX`.
pub fn list_indent(indent_level: usize) -> (indent: u16)
    ensures
        indent == (if indent_level * LIST_INDENT_COLUMNS > u16::MAX {
            u16::MAX as int
        } else {
            indent_level * LIST_INDENT_COLUMNS
        }),
{
    let level: u16 = if indent_level > 65535 {
        65535
    } else {
        indent_level as u16
    };
    if level > 32767 {
        65535
    } else {
        level * LIST_INDENT_COLUMNS
    }
}

/// The marker of a task-list item.
pub fn task_marker(complete: bool) -> (marker: String)
    ensures
        marker@ == (if complete {
            "[x] "@
        } else {
            "[ ] "@
        }),
{
    let mut marker = String::new();
    if complete {
        push_chars(&mut marker, "[x] ");
    } else {
        push_chars(&mut marker, "[ ] ");
    }
    marker
}

/// The marker of an ordered-list item labelled `index`.
pub fn ordered_marker(index: u64) -> (marker: String)
    ensures
        marker@ == decimal(index as nat) + ". "@,
{
    let mut marker = String::new();
    push_decimal(&mut marker, index);
    push_chars(&mut marker, ". ");
    marker
}

} // verus!
