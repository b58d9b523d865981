//! Grapheme clusters of tab labels, and the width of the first visible one,
//! which sets how narrow a truncated label (one grapheme plus `...`) can be.
use vstd::prelude::*;
use unicode_segmentation::UnicodeSegmentation;
use crate::diff_apply::views;

verus! {

/// The extended grapheme clusters that `unicode-segmentation` splits a
/// string into, in order.
pub uninterp spec fn extended_graphemes(s: Seq<char>) -> Seq<Seq<char>>;

/// `UnicodeSegmentation::graphemes(s, true)` from `unicode-segmentation`,
/// collected as owned strings. The contract claims only that the result is
/// that crate's sequence of extended grapheme clusters of `s`.
#[verifier::external_body]
fn grapheme_clusters(s: &str) -> (clusters: Vec<String>)
    ensures
        views(clusters@) == extended_graphemes(s@),
{
    UnicodeSegmentation::graphemes(s, true).map(str::to_owned).collect()
}

/// The extended grapheme clusters of a label, which are measured one by one
/// to find the first visible grapheme.
pub fn label_graphemes(label: &str) -> (clusters: Vec<String>)
    ensures
        views(clusters@) == extended_graphemes(label@),
{
    grapheme_clusters(label)
}

/// The index of the first positive width, if any.
pub open spec fn first_positive(widths: Seq<u16>) -> Option<int> {
    if exists|i: int| 0 <= i < widths.len() && widths[i] > 0 {
        Some(
            choose|i: int|
                0 <= i < widths.len() && widths[i] > 0 && forall|j: int| 0 <= j < i ==> widths[j] == 0,
        )
    } else {
        None
    }
}

/// The columns of the first grapheme that takes any room, given each
/// grapheme's columns in order; one column when none does.
pub fn first_visible_grapheme_columns(grapheme_columns: &[u16]) -> (columns: u16)
    ensures
        match first_positive(grapheme_columns@) {
            Some(i) => columns == grapheme_columns@[i],
            None => columns == 1,
        },
        columns > 0,
{
    let mut i: usize = 0;
    while i < grapheme_columns.len()
        invariant
            i <= grapheme_columns@.len(),
            forall|j: int| 0 <= j < i ==> grapheme_columns@[j] == 0,
        decreases grapheme_columns@.len() - i,
    {
        if grapheme_columns[i] > 0 {
            proof {
                let c = first_positive(grapheme_columns@)->0;
                assert(grapheme_columns@[c] > 0);
                if (i as int) < c {
                    assert(grapheme_columns@[i as int] == 0);
                }
                assert(c == i);
            }
            return grapheme_columns[i];
        }
        i = i + 1;
    }
    1
}

} // verus!
