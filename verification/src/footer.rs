//! The session footer: which hint replaces the status row, and the
//! left-aligned status row itself: which sections appear, in which order,
//! and the separators between them.
use vstd::prelude::*;
use crate::session_control::TransientHintTone;
use crate::text::push_chars;

verus! {

/// One piece of the status row.
#[derive(Clone, Debug, PartialEq, Eq)]
pub enum FooterPiece {
    /// The shell-mode indicator, leading the row in shell mode.
    ShellModeIndicator,
    /// The clickable active-model label (agent mode).
    ModelLabel,
    /// A plain space.
    Space,
    /// The compacted working directory.
    Cwd(String),
    /// The branch, rendered ` ↬ branch` after the working directory.
    Branch(String),
    /// The ` • ` separator.
    Dot,
    /// The clickable usage entry (agent mode).
    Usage,
    /// `+N` uncommitted added lines.
    Additions(usize),
    /// `-M` uncommitted removed lines.
    Deletions(usize),
}

/// What the row shows.
pub struct FooterSegments {
    pub shell_mode: bool,
    pub has_model_label: bool,
    pub cwd: Option<String>,
    pub branch: Option<String>,
    pub has_usage: bool,
    pub diff_additions: usize,
    pub diff_deletions: usize,
}

/// Whether a piece only separates others.
pub open spec fn is_separator(p: FooterPiece) -> bool {
    p is Space || p is Dot
}

/// The leading section: the shell-mode indicator, else the model label.
pub open spec fn lead_section(s: FooterSegments) -> Seq<FooterPiece> {
    if s.shell_mode {
        seq![FooterPiece::ShellModeIndicator]
    } else if s.has_model_label {
        seq![FooterPiece::ModelLabel]
    } else {
        Seq::empty()
    }
}

/// The working-directory section: the directory, then the branch.
pub open spec fn place_section(s: FooterSegments) -> Seq<FooterPiece> {
    (match s.cwd {
        Some(c) => seq![FooterPiece::Cwd(c)],
        None => Seq::empty(),
    }) + (match s.branch {
        Some(b) => seq![FooterPiece::Branch(b)],
        None => Seq::empty(),
    })
}

/// The usage section, shown in agent mode only.
pub open spec fn usage_section(s: FooterSegments) -> Seq<FooterPiece> {
    if !s.shell_mode && s.has_usage {
        seq![FooterPiece::Usage]
    } else {
        Seq::empty()
    }
}

/// The diff section: `+N`, then `-M`, separated by a space when both show.
pub open spec fn diff_section(s: FooterSegments) -> Seq<FooterPiece> {
    if s.diff_additions > 0 && s.diff_deletions > 0 {
        seq![
            FooterPiece::Additions(s.diff_additions),
            FooterPiece::Space,
            FooterPiece::Deletions(s.diff_deletions),
        ]
    } else if s.diff_additions > 0 {
        seq![FooterPiece::Additions(s.diff_additions)]
    } else if s.diff_deletions > 0 {
        seq![FooterPiece::Deletions(s.diff_deletions)]
    } else {
        Seq::empty()
    }
}

/// Appends a section after `row`, preceded by `separator` when both are
/// non-empty.
pub open spec fn join_section(row: Seq<FooterPiece>, separator: FooterPiece, section: Seq<FooterPiece>) -> Seq<FooterPiece> {
    if section.len() == 0 {
        row
    } else if row.len() == 0 {
        section
    } else {
        row.push(separator) + section
    }
}

/// The status row: `[lead] [cwd ↬ branch] • [usage] • [+N -M]`.
pub open spec fn spec_footer_pieces(s: FooterSegments) -> Seq<FooterPiece> {
    join_section(
        join_section(
            join_section(lead_section(s), FooterPiece::Space, place_section(s)),
            FooterPiece::Dot,
            usage_section(s),
        ),
        FooterPiece::Dot,
        diff_section(s),
    )
}

/// Builds the status row. Agent mode orders the sections `[model]
/// [cwd ↬ branch] • [usage] • [+N -M]`; shell mode leads with its indicator
/// and hides the model and usage. A plain space separates the leading
/// section from the working directory; ` • ` precedes usage and diff counts.
pub fn footer_pieces(segments: FooterSegments) -> (row: Vec<FooterPiece>)
    ensures
        row@ == spec_footer_pieces(segments),
{
    let ghost s = segments;
    let FooterSegments { shell_mode, has_model_label, cwd, branch, has_usage, diff_additions, diff_deletions } = segments;
    let mut row: Vec<FooterPiece> = Vec::new();
    let mut has_segment = false;
    if shell_mode {
        row.push(FooterPiece::ShellModeIndicator);
        has_segment = true;
    } else if has_model_label {
        row.push(FooterPiece::ModelLabel);
        has_segment = true;
    }
    assert(row@ == lead_section(s));
    if cwd.is_some() || branch.is_some() {
        if has_segment {
            row.push(FooterPiece::Space);
        }
        if let Some(cwd) = cwd {
            row.push(FooterPiece::Cwd(cwd));
        }
        if let Some(branch) = branch {
            row.push(FooterPiece::Branch(branch));
        }
        has_segment = true;
    }
    assert(row@ =~= join_section(lead_section(s), FooterPiece::Space, place_section(s)));
    let ghost after_place = row@;
    if !shell_mode && has_usage {
        if has_segment {
            row.push(FooterPiece::Dot);
        }
        row.push(FooterPiece::Usage);
        has_segment = true;
    }
    assert(row@ =~= join_section(after_place, FooterPiece::Dot, usage_section(s)));
    let ghost after_usage = row@;
    if diff_additions > 0 || diff_deletions > 0 {
        if has_segment {
            row.push(FooterPiece::Dot);
        }
        if diff_additions > 0 {
            row.push(FooterPiece::Additions(diff_additions));
        }
        if diff_deletions > 0 {
            if diff_additions > 0 {
                row.push(FooterPiece::Space);
            }
            row.push(FooterPiece::Deletions(diff_deletions));
        }
    }
    assert(row@ =~= join_section(after_usage, FooterPiece::Dot, diff_section(s)));
    row
}


/// No separator at either end of `row`, and never two in a row.
pub open spec fn tidy(row: Seq<FooterPiece>) -> bool {
    &&& row.len() > 0 ==> !is_separator(row[0]) && !is_separator(row.last())
    &&& forall|i: int| 0 <= i < row.len() - 1 ==> !(is_separator(#[trigger] row[i]) && is_separator(row[i + 1]))
}

proof fn lemma_join_tidy(row: Seq<FooterPiece>, separator: FooterPiece, section: Seq<FooterPiece>)
    requires
        tidy(row),
        tidy(section),
        is_separator(separator),
    ensures
        tidy(join_section(row, separator, section)),
{
    if section.len() > 0 && row.len() > 0 {
        let joined = row.push(separator) + section;
        assert forall|i: int| 0 <= i < joined.len() - 1 implies !(is_separator(#[trigger] joined[i])
            && is_separator(joined[i + 1])) by {
            if i < row.len() - 1 {
                assert(joined[i] == row[i] && joined[i + 1] == row[i + 1]);
            } else if i == row.len() - 1 {
                assert(joined[i] == row.last());
            } else if i == row.len() {
                assert(joined[i + 1] == section[0]);
            } else {
                assert(joined[i] == section[i - row.len() - 1]);
                assert(joined[i + 1] == section[i - row.len()]);
            }
        }
        assert(joined.last() == section.last());
    }
}

/// Absent metadata never leaves a stray separator: the row neither starts
/// nor ends with a separator and never shows two in a row; shell mode hides
/// the model label and the usage entry.
pub proof fn law_footer_has_no_stray_separators(s: FooterSegments)
    ensures
        tidy(spec_footer_pieces(s)),
        s.shell_mode ==> forall|i: int|
            0 <= i < spec_footer_pieces(s).len() ==> !(#[trigger] spec_footer_pieces(s)[i] is ModelLabel)
                && !(spec_footer_pieces(s)[i] is Usage),
{
    let lead = lead_section(s);
    let place = place_section(s);
    assert(tidy(place)) by {
        if place.len() == 2 {
            assert(!is_separator(place[0]) && !is_separator(place[1]));
        }
    }
    let first = join_section(lead, FooterPiece::Space, place);
    lemma_join_tidy(lead, FooterPiece::Space, place);
    let second = join_section(first, FooterPiece::Dot, usage_section(s));
    lemma_join_tidy(first, FooterPiece::Dot, usage_section(s));
    lemma_join_tidy(second, FooterPiece::Dot, diff_section(s));
    if s.shell_mode {
        let row = spec_footer_pieces(s);
        assert(usage_section(s).len() == 0);
    }
}

proof fn lemma_join_contains(row: Seq<FooterPiece>, separator: FooterPiece, section: Seq<FooterPiece>, x: FooterPiece)
    requires
        x != separator,
    ensures
        join_section(row, separator, section).contains(x) == (row.contains(x) || section.contains(x)),
{
    let joined = join_section(row, separator, section);
    if section.len() > 0 && row.len() > 0 {
        assert(joined == row.push(separator) + section);
        if joined.contains(x) {
            let i = choose|i: int| 0 <= i < joined.len() && joined[i] == x;
            if i < row.len() {
                assert(row[i] == x);
            } else if i > row.len() {
                assert(section[i - row.len() - 1] == x);
            }
        }
        if row.contains(x) {
            let i = choose|i: int| 0 <= i < row.len() && row[i] == x;
            assert(joined[i] == x);
        }
        if section.contains(x) {
            let i = choose|i: int| 0 <= i < section.len() && section[i] == x;
            assert(joined[i + row.len() + 1] == x);
        }
    }
}

/// The diff counts show independently of each other: the row holds `+n`
/// exactly when there are `n > 0` added lines, and `-m` exactly when there
/// are `m > 0` removed lines, whatever else the row shows.
pub proof fn law_diff_counts_show_independently(s: FooterSegments)
    ensures
        forall|n: usize|
            #[trigger] spec_footer_pieces(s).contains(FooterPiece::Additions(n)) <==> (n == s.diff_additions
                && n > 0),
        forall|m: usize|
            #[trigger] spec_footer_pieces(s).contains(FooterPiece::Deletions(m)) <==> (m == s.diff_deletions
                && m > 0),
{
    let lead = lead_section(s);
    let place = place_section(s);
    let usage = usage_section(s);
    let diff = diff_section(s);
    let first = join_section(lead, FooterPiece::Space, place);
    let second = join_section(first, FooterPiece::Dot, usage);
    assert forall|x: FooterPiece| (x is Additions || x is Deletions) implies (spec_footer_pieces(s).contains(x)
        == diff.contains(x)) by {
        lemma_join_contains(lead, FooterPiece::Space, place, x);
        lemma_join_contains(first, FooterPiece::Dot, usage, x);
        lemma_join_contains(second, FooterPiece::Dot, diff, x);
        if lead.contains(x) {
            let i = choose|i: int| 0 <= i < lead.len() && lead[i] == x;
        }
        if place.contains(x) {
            let i = choose|i: int| 0 <= i < place.len() && place[i] == x;
            if place.len() == 2 {
                assert(i == 0 || i == 1);
            }
        }
        if usage.contains(x) {
            let i = choose|i: int| 0 <= i < usage.len() && usage[i] == x;
        }
    }
    assert forall|n: usize| #[trigger] spec_footer_pieces(s).contains(FooterPiece::Additions(n)) <==> (n
        == s.diff_additions && n > 0) by {
        let x = FooterPiece::Additions(n);
        if diff.contains(x) {
            let i = choose|i: int| 0 <= i < diff.len() && diff[i] == x;
        }
        if n == s.diff_additions && n > 0 {
            assert(diff[0] == x);
        }
    }
    assert forall|m: usize| #[trigger] spec_footer_pieces(s).contains(FooterPiece::Deletions(m)) <==> (m
        == s.diff_deletions && m > 0) by {
        let x = FooterPiece::Deletions(m);
        if diff.contains(x) {
            let i = choose|i: int| 0 <= i < diff.len() && diff[i] == x;
        }
        if m == s.diff_deletions && m > 0 {
            assert(diff.last() == x);
        }
    }
}

/// What the footer row shows: a hint that replaces the whole row, or the
/// status row.
pub enum FooterRow {
    /// A replacing hint, in its tone.
    Hint { text: String, tone: TransientHintTone },
    /// The sectioned status row.
    Status(Vec<FooterPiece>),
}

/// The hint that replaces the status row, if any, in priority order: the
/// armed ctrl-c exit confirmation, then loading a conversation picked from
/// the conversation list, then the current transient notice, then the
/// sub-agents callout when orchestration tabs are available outside shell
/// mode.
pub open spec fn spec_footer_hint(
    exit_armed: bool,
    list_restore_loading: bool,
    transient: Option<(Seq<char>, TransientHintTone)>,
    orchestration_tabs_available: bool,
    shell_mode: bool,
) -> Option<(Seq<char>, TransientHintTone)> {
    if exit_armed {
        Some(("ctrl-c again to exit"@, TransientHintTone::Muted))
    } else if list_restore_loading {
        Some(("Loading conversation\u{2026}"@, TransientHintTone::Muted))
    } else if transient is Some {
        transient
    } else if orchestration_tabs_available && !shell_mode {
        Some(("Shift + \u{2191} sub-agents"@, TransientHintTone::Muted))
    } else {
        None
    }
}

fn hint(text: &str) -> (row: FooterRow)
    ensures
        row matches FooterRow::Hint { text: t, tone } && t@ == text@ && tone == TransientHintTone::Muted,
{
    let mut t = String::new();
    push_chars(&mut t, text);
    FooterRow::Hint { text: t, tone: TransientHintTone::Muted }
}

/// Builds the footer row: the highest-priority replacing hint when one
/// applies (see `spec_footer_hint`), else the status row of `segments`.
/// `transient` is the current transient notice and `list_restore_loading`
/// whether a conversation picked from the conversation list is loading.
pub fn footer_row(
    exit_armed: bool,
    list_restore_loading: bool,
    transient: Option<(String, TransientHintTone)>,
    orchestration_tabs_available: bool,
    segments: FooterSegments,
) -> (row: FooterRow)
    ensures
        match spec_footer_hint(
            exit_armed,
            list_restore_loading,
            match transient {
                Some((t, tone)) => Some((t@, tone)),
                None => None,
            },
            orchestration_tabs_available,
            segments.shell_mode,
        ) {
            Some((text, tone)) => row matches FooterRow::Hint { text: t, tone: tn } && t@ == text
                && tn == tone,
            None => row matches FooterRow::Status(pieces) && pieces@ == spec_footer_pieces(segments),
        },
{
    if exit_armed {
        return hint("ctrl-c again to exit");
    }
    if list_restore_loading {
        return hint("Loading conversation\u{2026}");
    }
    if let Some((text, tone)) = transient {
        return FooterRow::Hint { text, tone };
    }
    if orchestration_tabs_available && !segments.shell_mode {
        return hint("Shift + \u{2191} sub-agents");
    }
    FooterRow::Status(footer_pieces(segments))
}

} // verus!
