//! Final file content for file-edit diffs, derived by applying each diff's
//! line-range replacement deltas to its base content, and the write that
//! persists it.
use vstd::prelude::*;
use core::ops::Range;
use crate::text::{
    chars_of, decimal, first_line_len, lemma_first_line_len, lemma_flatten_prepend,
    lemma_split_lines_flatten, lemma_split_lines_shape, push_char, push_chars, push_decimal, split_lines,
    str_eq, string_from_chars,
};

verus! {

/// One replacement: the 1-based line range `start..end` of the base content
/// is replaced by `insertion`.
pub struct DiffDelta {
    pub replacement_line_range: Range<usize>,
    pub insertion: String,
}

/// The kind of change a diff makes to one file.
pub enum DiffType {
    Create { delta: DiffDelta },
    Update { deltas: Vec<DiffDelta>, rename: Option<String> },
    Delete,
}

impl DiffType {
    /// An update made of `deltas`, optionally moving the file to `rename`.
    pub fn update(deltas: Vec<DiffDelta>, rename: Option<String>) -> (op: DiffType)
        ensures
            op == (DiffType::Update { deltas, rename }),
    {
        DiffType::Update { deltas, rename }
    }
}

/// The backend that persists a diff.
pub enum DiffSessionType {
    Local,
    Remote(String),
}

/// The write operation performed for a file.
pub enum PersistAction {
    /// Write the final content at the file's original path.
    Write,
    /// Move the file to the new path and write the final content there.
    Rename(String),
    /// Delete the file.
    Delete,
}

/// The write operation for a diff: delete for a deletion, a move for a
/// local update renamed to another path, and an in-place write otherwise.
pub open spec fn persist_action_for(
    op: DiffType,
    session_type: DiffSessionType,
    path: Seq<char>,
    action: PersistAction,
) -> bool {
    match op {
        DiffType::Delete => action is Delete,
        DiffType::Update { rename: Some(to), .. } => if session_type is Local && to@ != path {
            action matches PersistAction::Rename(target) && target@ == to@
        } else {
            action is Write
        },
        _ => action is Write,
    }
}

impl PersistAction {
    /// Decides the write operation from the diff op and backend. Remote
    /// sessions have no rename primitive, so remote renames fall back to an
    /// in-place write at the original path.
    pub fn resolve(op: &DiffType, session_type: &DiffSessionType, path: &str) -> (action: Self)
        ensures
            persist_action_for(*op, *session_type, path@, action),
    {
        match op {
            DiffType::Delete => PersistAction::Delete,
            DiffType::Update { rename: Some(to), .. } => {
                let local = match session_type {
                    DiffSessionType::Local => true,
                    DiffSessionType::Remote(_) => false,
                };
                if local && !str_eq(to.as_str(), path) {
                    PersistAction::Rename(to.clone())
                } else {
                    PersistAction::Write
                }
            },
            _ => PersistAction::Write,
        }
    }
}

/// The character views of a sequence of strings.
pub open spec fn views(lines: Seq<String>) -> Seq<Seq<char>> {
    Seq::new(lines.len(), |i: int| lines[i]@)
}

/// Splits content into lines while keeping trailing newlines, so that
/// concatenating the lines reproduces the content.
pub fn split_lines_preserving_newlines(content: &str) -> (lines: Vec<String>)
    ensures
        views(lines@) == split_lines(content@),
{
    let chars = chars_of(content);
    let n = chars.len();
    let mut lines: Vec<String> = Vec::new();
    let mut start: usize = 0;
    let mut i: usize = 0;
    assert(content@.skip(0) == content@);
    assert(views(lines@) =~= Seq::<Seq<char>>::empty());
    while i < n
        invariant
            chars@ == content@,
            n == chars@.len(),
            start <= i <= n,
            forall|k: int| start <= k < i ==> #[trigger] chars@[k] != '\n',
            split_lines(content@) == views(lines@) + split_lines(content@.skip(start as int)),
        decreases n - i,
    {
        if chars[i] == '\n' {
            let ghost rest = content@.skip(start as int);
            proof {
                lemma_first_line_at(rest, i - start);
            }
            let line = string_from_chars(slice_range(&chars, start, i + 1).as_slice());
            let ghost before = lines@;
            lines.push(line);
            assert(rest.take(i - start + 1) == content@.subrange(start as int, i + 1));
            assert(rest.skip(i - start + 1) == content@.skip(i + 1));
            assert(views(lines@) == views(before).push(line@));
            assert(split_lines(rest) == seq![rest.take(i - start + 1)].add(
                split_lines(rest.skip(i - start + 1)),
            ));
            assert(views(before) + split_lines(rest) == views(lines@) + split_lines(
                content@.skip(i + 1),
            ));
            start = i + 1;
        }
        i = i + 1;
    }
    if start < n {
        let ghost rest = content@.skip(start as int);
        proof {
            lemma_first_line_len(rest);
            lemma_no_newline_line(rest);
        }
        let line = string_from_chars(slice_range(&chars, start, n).as_slice());
        let ghost before = lines@;
        lines.push(line);
        assert(rest.take(rest.len() as int) == rest);
        assert(rest.skip(rest.len() as int).len() == 0);
        assert(split_lines(rest.skip(rest.len() as int)) =~= Seq::<Seq<char>>::empty());
        assert(split_lines(rest) == seq![rest]);
        assert(views(lines@) == views(before).push(line@));
        assert(views(lines@) == views(before) + split_lines(rest));
    } else {
        assert(content@.skip(start as int).len() == 0);
        assert(split_lines(content@.skip(start as int)) =~= Seq::<Seq<char>>::empty());
        assert(views(lines@) + Seq::<Seq<char>>::empty() == views(lines@));
    }
    lines
}

proof fn lemma_first_line_at(s: Seq<char>, k: int)
    requires
        0 <= k < s.len(),
        s[k] == '\n',
        forall|j: int| 0 <= j < k ==> #[trigger] s[j] != '\n',
    ensures
        first_line_len(s) == k + 1,
    decreases k,
{
    if k > 0 {
        assert forall|j: int| 0 <= j < k - 1 implies #[trigger] s.drop_first()[j] != '\n' by {
            assert(s.drop_first()[j] == s[j + 1]);
        }
        lemma_first_line_at(s.drop_first(), k - 1);
    }
}

proof fn lemma_no_newline_line(s: Seq<char>)
    requires
        s.len() > 0,
        forall|j: int| 0 <= j < s.len() ==> #[trigger] s[j] != '\n',
    ensures
        first_line_len(s) == s.len(),
    decreases s.len(),
{
    assert(s[0] != '\n');
    if s.len() > 1 {
        assert forall|j: int| 0 <= j < s.len() - 1 implies #[trigger] s.drop_first()[j] != '\n' by {
            assert(s.drop_first()[j] == s[j + 1]);
        }
        lemma_no_newline_line(s.drop_first());
    } else {
        assert(first_line_len(s.drop_first()) == 0);
    }
}

/// The characters `chars[lo..hi]`.
fn slice_range(chars: &Vec<char>, lo: usize, hi: usize) -> (out: Vec<char>)
    requires
        lo <= hi <= chars@.len(),
    ensures
        out@ == chars@.subrange(lo as int, hi as int),
{
    let mut out: Vec<char> = Vec::new();
    let mut i = lo;
    while i < hi
        invariant
            lo <= i <= hi <= chars@.len(),
            out@ == chars@.subrange(lo as int, i as int),
        decreases hi - i,
    {
        out.push(chars[i]);
        i = i + 1;
    }
    out
}

/// Stable insertion of `d` into deltas already ordered by range start: it
/// goes after every delta whose start is not greater than its own.
pub open spec fn insert_by_start(sorted: Seq<DiffDelta>, d: DiffDelta) -> Seq<DiffDelta>
    decreases sorted.len(),
{
    if sorted.len() == 0 {
        seq![d]
    } else if sorted.last().replacement_line_range.start <= d.replacement_line_range.start {
        sorted.push(d)
    } else {
        insert_by_start(sorted.drop_last(), d).push(sorted.last())
    }
}

/// The deltas stably sorted by range start (`sort_by_key` on the start).
pub open spec fn sort_by_start(deltas: Seq<DiffDelta>) -> Seq<DiffDelta>
    decreases deltas.len(),
{
    if deltas.len() == 0 {
        Seq::empty()
    } else {
        insert_by_start(sort_by_start(deltas.drop_last()), deltas.last())
    }
}

/// An insertion that lacks a trailing newline gets one, unless the base
/// content is empty.
pub open spec fn normalized_insertion(insertion: Seq<char>, base_is_empty: bool) -> Seq<char> {
    if insertion.len() > 0 && insertion.last() != '\n' && !base_is_empty {
        insertion.push('\n')
    } else {
        insertion
    }
}

/// A delta whose line range does not fit the lines it is applied to.
pub struct OutOfBounds {
    pub start: usize,
    pub end: usize,
    pub line_count: nat,
}

pub open spec fn sat_sub1(x: usize) -> int {
    if x > 0 {
        x - 1
    } else {
        0
    }
}

/// Applies `sorted` to `lines` from its last delta to its first.
pub open spec fn apply_sorted(
    lines: Seq<Seq<char>>,
    sorted: Seq<DiffDelta>,
    base_is_empty: bool,
) -> Result<Seq<Seq<char>>, OutOfBounds>
    decreases sorted.len(),
{
    if sorted.len() == 0 {
        Ok(lines)
    } else {
        let d = sorted.last();
        let start = sat_sub1(d.replacement_line_range.start);
        let end = sat_sub1(d.replacement_line_range.end);
        if start > lines.len() || end > lines.len() || start > end {
            Err(
                OutOfBounds {
                    start: d.replacement_line_range.start,
                    end: d.replacement_line_range.end,
                    line_count: lines.len(),
                },
            )
        } else {
            apply_sorted(
                lines.take(start) + split_lines(
                    normalized_insertion(d.insertion@, base_is_empty),
                ) + lines.skip(end),
                sorted.drop_last(),
                base_is_empty,
            )
        }
    }
}

/// The message reported for a delta whose range is out of bounds.
pub open spec fn out_of_bounds_message(e: OutOfBounds) -> Seq<char> {
    "Diff range "@ + decimal(e.start as nat) + ".."@ + decimal(e.end as nat)
        + " is out of bounds for file with "@ + decimal(e.line_count) + " lines"@
}

/// What applying `deltas` to `content` yields: the concatenated lines, or
/// the message for the first delta (in application order) that does not fit.
pub open spec fn spec_apply_deltas(content: Seq<char>, deltas: Seq<DiffDelta>) -> Result<
    Seq<char>,
    Seq<char>,
> {
    match apply_sorted(split_lines(content), sort_by_start(deltas), content.len() == 0) {
        Ok(lines) => Ok(lines.flatten()),
        Err(e) => Err(out_of_bounds_message(e)),
    }
}

proof fn lemma_insert_by_start_at(sorted: Seq<DiffDelta>, d: DiffDelta, p: int)
    requires
        0 <= p <= sorted.len(),
        forall|k: int| p <= k < sorted.len() ==> (#[trigger] sorted[k]).replacement_line_range.start
            > d.replacement_line_range.start,
        p > 0 ==> sorted[p - 1].replacement_line_range.start <= d.replacement_line_range.start,
    ensures
        insert_by_start(sorted, d) == sorted.take(p).push(d) + sorted.skip(p),
    decreases sorted.len(),
{
    if sorted.len() == 0 {
        assert(sorted.take(p).push(d) + sorted.skip(p) == seq![d]);
    } else if p == sorted.len() {
        assert(sorted.take(p) == sorted);
        assert(sorted.skip(p).len() == 0);
        assert(sorted.take(p).push(d) + sorted.skip(p) == sorted.push(d));
    } else {
        let rest = sorted.drop_last();
        lemma_insert_by_start_at(rest, d, p);
        assert(rest.take(p) == sorted.take(p));
        assert(rest.skip(p).push(sorted.last()) == sorted.skip(p));
        assert((rest.take(p).push(d) + rest.skip(p)).push(sorted.last()) == sorted.take(p).push(d)
            + sorted.skip(p));
    }
}

/// The deltas' positions in `deltas`, ordered stably by range start.
fn sorted_order(deltas: &[DiffDelta]) -> (order: Vec<usize>)
    ensures
        order@.len() == deltas@.len(),
        forall|k: int| 0 <= k < order@.len() ==> #[trigger] order@[k] < deltas@.len(),
        Seq::new(order@.len(), |k: int| deltas@[order@[k] as int]) == sort_by_start(deltas@),
{
    let n = deltas.len();
    let mut order: Vec<usize> = Vec::new();
    let mut i: usize = 0;
    while i < n
        invariant
            n == deltas@.len(),
            i <= n,
            order@.len() == i,
            forall|k: int| 0 <= k < order@.len() ==> #[trigger] order@[k] < n,
            Seq::new(order@.len(), |k: int| deltas@[order@[k] as int]) == sort_by_start(
                deltas@.take(i as int),
            ),
        decreases n - i,
    {
        let ghost sorted = Seq::new(order@.len(), |k: int| deltas@[order@[k] as int]);
        let key = deltas[i].replacement_line_range.start;
        let mut p: usize = i;
        while p > 0 && deltas[order[p - 1]].replacement_line_range.start > key
            invariant
                n == deltas@.len(),
                i < n,
                order@.len() == i,
                p <= i,
                forall|k: int| 0 <= k < order@.len() ==> #[trigger] order@[k] < n,
                sorted == Seq::new(order@.len(), |k: int| deltas@[order@[k] as int]),
                key == deltas@[i as int].replacement_line_range.start,
                forall|k: int|
                    p <= k < i ==> (#[trigger] sorted[k]).replacement_line_range.start > key,
            decreases p,
        {
            p = p - 1;
        }
        proof {
            lemma_insert_by_start_at(sorted, deltas@[i as int], p as int);
            assert(deltas@.take(i + 1).drop_last() == deltas@.take(i as int));
            assert(deltas@.take(i + 1).last() == deltas@[i as int]);
        }
        order.insert(p, i);
        assert(Seq::new(order@.len(), |k: int| deltas@[order@[k] as int]) == sorted.take(
            p as int,
        ).push(deltas@[i as int]) + sorted.skip(p as int));
        i = i + 1;
    }
    assert(deltas@.take(n as int) == deltas@);
    order
}

/// The strings `lines[lo..hi]`, cloned.
fn clone_range(lines: &Vec<String>, lo: usize, hi: usize, out: &mut Vec<String>)
    requires
        lo <= hi <= lines@.len(),
    ensures
        views(final(out)@) == views(old(out)@) + views(lines@).subrange(lo as int, hi as int),
{
    let mut i = lo;
    let ghost start = views(old(out)@);
    while i < hi
        invariant
            lo <= i <= hi <= lines@.len(),
            views(out@) == start + views(lines@).subrange(lo as int, i as int),
        decreases hi - i,
    {
        let ghost before = out@;
        out.push(lines[i].clone());
        assert(views(out@) == views(before).push(lines@[i as int]@));
        assert(views(lines@).subrange(lo as int, i + 1) == views(lines@).subrange(
            lo as int,
            i as int,
        ).push(lines@[i as int]@));
        i = i + 1;
    }
}

/// Applies line-range replacement deltas to `content`, producing the new
/// content, or the message for the first delta whose range does not fit.
///
/// Deltas are applied from the last range start to the first, so earlier
/// line numbers stay valid; an insertion that lacks a trailing newline gets
/// one unless the content is empty.
pub fn apply_deltas_to_content(content: &str, deltas: &[DiffDelta]) -> (res: Result<String, String>)
    ensures
        match spec_apply_deltas(content@, deltas@) {
            Ok(text) => res matches Ok(s) && s@ == text,
            Err(message) => res matches Err(m) && m@ == message,
        },
{
    let mut lines = split_lines_preserving_newlines(content);
    let base_is_empty = content.is_empty();
    let order = sorted_order(deltas);
    let ghost sorted = sort_by_start(deltas@);
    let mut remaining: usize = order.len();
    assert(sorted.take(remaining as int) == sorted);
    while remaining > 0
        invariant
            remaining <= order@.len(),
            order@.len() == deltas@.len(),
            forall|k: int| 0 <= k < order@.len() ==> #[trigger] order@[k] < deltas@.len(),
            sorted == Seq::new(order@.len(), |k: int| deltas@[order@[k] as int]),
            sorted == sort_by_start(deltas@),
            base_is_empty == (content@.len() == 0),
            apply_sorted(split_lines(content@), sorted, base_is_empty) == apply_sorted(
                views(lines@),
                sorted.take(remaining as int),
                base_is_empty,
            ),
        decreases remaining,
    {
        let delta = &deltas[order[remaining - 1]];
        let ghost prefix = sorted.take(remaining as int);
        assert(prefix.last() == *delta);
        assert(prefix.drop_last() == sorted.take(remaining - 1));
        let range_start = delta.replacement_line_range.start;
        let range_end = delta.replacement_line_range.end;
        let start = if range_start > 0 {
            range_start - 1
        } else {
            0
        };
        let end = if range_end > 0 {
            range_end - 1
        } else {
            0
        };
        let count = lines.len();
        if start > count || end > count || start > end {
            let ghost e = OutOfBounds { start: range_start, end: range_end, line_count: views(lines@).len() };
            assert(apply_sorted(views(lines@), prefix, base_is_empty) == Err::<Seq<Seq<char>>, OutOfBounds>(e));
            let mut message = String::new();
            push_chars(&mut message, "Diff range ");
            push_decimal(&mut message, range_start as u64);
            push_chars(&mut message, "..");
            push_decimal(&mut message, range_end as u64);
            push_chars(&mut message, " is out of bounds for file with ");
            push_decimal(&mut message, count as u64);
            push_chars(&mut message, " lines");
            proof {
                reveal_strlit("Diff range ");
                reveal_strlit("..");
                reveal_strlit(" is out of bounds for file with ");
                reveal_strlit(" lines");
            }
            assert(message@ == out_of_bounds_message(e));
            return Err(message);
        }
        let ins_chars = chars_of(delta.insertion.as_str());
        let mut insertion = string_from_chars(ins_chars.as_slice());
        if ins_chars.len() > 0 && ins_chars[ins_chars.len() - 1] != '\n' && !base_is_empty {
            push_char(&mut insertion, '\n');
        }
        assert(insertion@ == normalized_insertion(delta.insertion@, base_is_empty));
        let replacement = split_lines_preserving_newlines(insertion.as_str());
        let mut next: Vec<String> = Vec::new();
        clone_range(&lines, 0, start, &mut next);
        clone_range(&replacement, 0, replacement.len(), &mut next);
        clone_range(&lines, end, count, &mut next);
        assert(views(lines@).subrange(0, start as int) == views(lines@).take(start as int));
        assert(views(lines@).subrange(end as int, count as int) == views(lines@).skip(
            end as int,
        ));
        assert(views(replacement@).subrange(0, replacement@.len() as int) == views(
            replacement@,
        ));
        lines = next;
        remaining = remaining - 1;
    }
    assert(sorted.take(0) == Seq::<DiffDelta>::empty());
    let mut result = String::new();
    let mut i: usize = 0;
    while i < lines.len()
        invariant
            i <= lines@.len(),
            result@ == views(lines@).take(i as int).flatten(),
        decreases lines@.len() - i,
    {
        let ghost before = result@;
        push_chars(&mut result, lines[i].as_str());
        proof {
            lemma_flatten_push(views(lines@).take(i as int), lines@[i as int]@);
            assert(views(lines@).take(i + 1) == views(lines@).take(i as int).push(
                lines@[i as int]@,
            ));
        }
        i = i + 1;
    }
    assert(views(lines@).take(lines@.len() as int) == views(lines@));
    Ok(result)
}

proof fn lemma_flatten_push(lines: Seq<Seq<char>>, last: Seq<char>)
    ensures
        lines.push(last).flatten() == lines.flatten() + last,
    decreases lines.len(),
{
    if lines.len() == 0 {
        lemma_flatten_prepend(last, Seq::<Seq<char>>::empty());
        assert(lines.push(last) == seq![last].add(Seq::<Seq<char>>::empty()));
        assert(last + Seq::<char>::empty() == last);
    } else {
        lemma_flatten_push(lines.drop_first(), last);
        assert(lines.push(last).drop_first() == lines.drop_first().push(last));
    }
}

/// The final content of a file after `op`: the created content, the base
/// with the update's deltas applied, or nothing after a deletion.
pub open spec fn spec_final_content(base: Seq<char>, op: DiffType) -> Result<Seq<char>, Seq<char>> {
    match op {
        DiffType::Create { delta } => Ok(delta.insertion@),
        DiffType::Update { deltas, .. } => spec_apply_deltas(base, deltas@),
        DiffType::Delete => Ok(Seq::empty()),
    }
}

/// Derives the final file content for a diff from its base content and deltas.
pub fn final_content_from_op(base_content: &str, op: &DiffType) -> (res: Result<String, String>)
    ensures
        match spec_final_content(base_content@, *op) {
            Ok(text) => res matches Ok(s) && s@ == text,
            Err(message) => res matches Err(m) && m@ == message,
        },
{
    match op {
        DiffType::Create { delta } => Ok(delta.insertion.clone()),
        DiffType::Update { deltas, .. } => apply_deltas_to_content(base_content, deltas.as_slice()),
        DiffType::Delete => Ok(String::new()),
    }
}


/// A resolved diff for one file: its path, the content the deltas apply to,
/// and the change.
pub struct FileDiff {
    pub path: String,
    pub base_content: String,
    pub diff_type: DiffType,
}

impl FileDiff {
    /// A diff of the file at `path` whose base content is `base_content`.
    pub fn new(base_content: String, path: String, diff_type: DiffType) -> (diff: Self)
        ensures
            diff.base_content@ == base_content@,
            diff.path@ == path@,
            diff.diff_type == diff_type,
    {
        FileDiff { path, base_content, diff_type }
    }
}

/// The state reported for a file that the write leaves in place.
pub struct UpdatedFileState<L> {
    pub path: String,
    pub changed_lines: L,
    pub final_content: String,
    pub was_edited: bool,
}

/// What the write of one file reports: the file left in place (if any), the
/// paths removed, and the before/after pair for the result diff.
pub struct FileSnapshot<L> {
    pub updated: Option<UpdatedFileState<L>>,
    pub deleted_paths: Vec<String>,
    pub diff_base: String,
    pub diff_new: String,
    pub diff_name: String,
}

/// `snapshot` reports the write `action` of `content` at `path`.
pub open spec fn snapshot_matches<L>(
    snapshot: FileSnapshot<L>,
    action: PersistAction,
    base: Seq<char>,
    path: Seq<char>,
    content: Seq<char>,
    changed_lines: L,
) -> bool {
    &&& snapshot.diff_base@ == base
    &&& match action {
        PersistAction::Delete => {
            &&& snapshot.updated is None
            &&& snapshot.deleted_paths@.len() == 1
            &&& snapshot.deleted_paths@[0]@ == path
            &&& snapshot.diff_new@.len() == 0
            &&& snapshot.diff_name@ == path
        },
        PersistAction::Rename(to) => {
            &&& snapshot.updated matches Some(u) && u.path@ == to@ && u.changed_lines == changed_lines
                && u.final_content@ == content && !u.was_edited
            &&& snapshot.deleted_paths@.len() == 1
            &&& snapshot.deleted_paths@[0]@ == path
            &&& snapshot.diff_new@ == content
            &&& snapshot.diff_name@ == to@
        },
        PersistAction::Write => {
            &&& snapshot.updated matches Some(u) && u.path@ == path && u.changed_lines == changed_lines
                && u.final_content@ == content && !u.was_edited
            &&& snapshot.deleted_paths@.len() == 0
            &&& snapshot.diff_new@ == content
            &&& snapshot.diff_name@ == path
        },
    }
}

/// The report for a file mirrors the write that `action` performs: a delete
/// reports the path removed and empty new content; a rename reports the new
/// path as updated and the old one as removed; a write updates the path in
/// place.
pub fn persist_outcome<L>(
    action: &PersistAction,
    diff: &FileDiff,
    path: &str,
    final_content: &str,
    changed_lines: L,
) -> (snapshot: FileSnapshot<L>)
    ensures
        snapshot_matches(snapshot, *action, diff.base_content@, path@, final_content@, changed_lines),
{
    let diff_base = diff.base_content.clone();
    match action {
        PersistAction::Delete => {
            let mut deleted_paths = Vec::new();
            deleted_paths.push(owned(path));
            FileSnapshot {
                updated: None,
                deleted_paths,
                diff_base,
                diff_new: String::new(),
                diff_name: owned(path),
            }
        },
        PersistAction::Rename(to) => {
            let mut deleted_paths = Vec::new();
            deleted_paths.push(owned(path));
            FileSnapshot {
                updated: Some(
                    UpdatedFileState {
                        path: to.clone(),
                        changed_lines,
                        final_content: owned(final_content),
                        was_edited: false,
                    },
                ),
                deleted_paths,
                diff_base,
                diff_new: owned(final_content),
                diff_name: to.clone(),
            }
        },
        PersistAction::Write => FileSnapshot {
            updated: Some(
                UpdatedFileState {
                    path: owned(path),
                    changed_lines,
                    final_content: owned(final_content),
                    was_edited: false,
                },
            ),
            deleted_paths: Vec::new(),
            diff_base,
            diff_new: owned(final_content),
            diff_name: owned(path),
        },
    }
}

/// An owned copy of `s`.
fn owned(s: &str) -> (out: String)
    ensures
        out@ == s@,
{
    let mut out = String::new();
    push_chars(&mut out, s);
    out
}

/// The write planned for one diff on accept: its final content and write
/// operation, or the derivation error that fails that file's save.
pub fn planned_write(diff: &FileDiff, session_type: &DiffSessionType) -> (plan: Result<
    (PersistAction, String),
    String,
>)
    ensures
        match spec_final_content(diff.base_content@, diff.diff_type) {
            Ok(text) => plan matches Ok((action, content)) && content@ == text && persist_action_for(
                diff.diff_type,
                *session_type,
                diff.path@,
                action,
            ),
            Err(message) => plan matches Err(m) && m@ == message,
        },
{
    let content = match final_content_from_op(diff.base_content.as_str(), &diff.diff_type) {
        Ok(content) => content,
        Err(error) => {
            return Err(error);
        },
    };
    let action = PersistAction::resolve(&diff.diff_type, session_type, diff.path.as_str());
    Ok((action, content))
}

/// The snapshot reported for one pending file before it is written. A
/// derivation failure is reported at save time, so it is shown here with
/// empty final content.
pub fn snapshot_pending_file<L>(diff: &FileDiff, session_type: &DiffSessionType, changed_lines: L) -> (snapshot: FileSnapshot<L>)
    ensures
        exists|action: PersistAction|
            persist_action_for(diff.diff_type, *session_type, diff.path@, action) && snapshot_matches(
                snapshot,
                action,
                diff.base_content@,
                diff.path@,
                match spec_final_content(diff.base_content@, diff.diff_type) {
                    Ok(text) => text,
                    Err(_) => Seq::empty(),
                },
                changed_lines,
            ),
{
    let action = PersistAction::resolve(&diff.diff_type, session_type, diff.path.as_str());
    let content = match final_content_from_op(diff.base_content.as_str(), &diff.diff_type) {
        Ok(content) => content,
        Err(_) => String::new(),
    };
    persist_outcome(&action, diff, diff.path.as_str(), content.as_str(), changed_lines)
}

/// Splitting content into lines and concatenating them reproduces it exactly.
pub proof fn law_split_lines_roundtrip(content: Seq<char>)
    ensures
        split_lines(content).flatten() == content,
{
    lemma_split_lines_flatten(content);
}


/// The lines of content are exactly its `\n`-terminated pieces: only empty
/// content has no lines, no line is empty, a line feed can only end a line,
/// and every line but the last ends with one.
pub proof fn law_split_lines_shape(content: Seq<char>)
    ensures
        (content.len() == 0) <==> (split_lines(content).len() == 0),
        forall|i: int| 0 <= i < split_lines(content).len() ==> #[trigger] split_lines(content)[i].len() > 0,
        forall|i: int, k: int|
            0 <= i < split_lines(content).len() && 0 <= k < split_lines(content)[i].len() - 1
                ==> #[trigger] split_lines(content)[i][k] != '\n',
        forall|i: int|
            0 <= i < split_lines(content).len() - 1 ==> #[trigger] split_lines(content)[i].last() == '\n',
{
    lemma_split_lines_shape(content);
}

/// An update without deltas leaves the content exactly as it was.
pub proof fn law_no_deltas_keep_content(content: Seq<char>)
    ensures
        spec_apply_deltas(content, Seq::<DiffDelta>::empty()) == Ok::<Seq<char>, Seq<char>>(content),
{
    assert(sort_by_start(Seq::<DiffDelta>::empty()) == Seq::<DiffDelta>::empty());
    lemma_split_lines_flatten(content);
}


/// A single delta whose range fits replaces exactly the lines it names: the
/// lines before it and after it are kept as they were, and the (normalized)
/// insertion stands in between.
pub proof fn law_single_delta_replaces_its_range(content: Seq<char>, d: DiffDelta)
    requires
        sat_sub1(d.replacement_line_range.start) <= sat_sub1(d.replacement_line_range.end)
            <= split_lines(content).len(),
    ensures
        ({
            let lines = split_lines(content);
            let start = sat_sub1(d.replacement_line_range.start);
            let end = sat_sub1(d.replacement_line_range.end);
            spec_apply_deltas(content, seq![d]) == Ok::<Seq<char>, Seq<char>>(
                (lines.take(start) + split_lines(normalized_insertion(d.insertion@, content.len() == 0))
                    + lines.skip(end)).flatten(),
            )
        }),
{
    let single = seq![d];
    assert(single.drop_last() == Seq::<DiffDelta>::empty());
    assert(single.last() == d);
    assert(sort_by_start(Seq::<DiffDelta>::empty()) == Seq::<DiffDelta>::empty());
    assert(insert_by_start(Seq::<DiffDelta>::empty(), d) == single);
    assert(sort_by_start(single) == single);
    reveal_with_fuel(apply_sorted, 2);
}

/// The lines a delta inserts.
pub open spec fn inserted_lines(d: DiffDelta, base_is_empty: bool) -> Seq<Seq<char>> {
    split_lines(normalized_insertion(d.insertion@, base_is_empty))
}

/// Base content lines from line index `pos` on, with each delta of `deltas`
/// (in range order, all at or after `pos`) replacing the base lines its
/// range names: the base lines up to the delta's first line, its inserted
/// lines, and so on from the line after its range.
pub open spec fn spliced(lines: Seq<Seq<char>>, deltas: Seq<DiffDelta>, pos: int, base_is_empty: bool) -> Seq<Seq<char>>
    decreases deltas.len(),
{
    if deltas.len() == 0 {
        lines.skip(pos)
    } else {
        let d = deltas[0];
        lines.subrange(pos, sat_sub1(d.replacement_line_range.start)) + inserted_lines(d, base_is_empty)
            + spliced(lines, deltas.drop_first(), sat_sub1(d.replacement_line_range.end), base_is_empty)
    }
}

/// Every range is well formed and ends before the next one starts.
pub open spec fn in_range_order(deltas: Seq<DiffDelta>) -> bool {
    &&& forall|k: int|
        0 <= k < deltas.len() ==> sat_sub1((#[trigger] deltas[k]).replacement_line_range.start)
            <= sat_sub1(deltas[k].replacement_line_range.end)
    &&& forall|k: int|
        0 <= k < deltas.len() - 1 ==> sat_sub1((#[trigger] deltas[k]).replacement_line_range.end)
            <= sat_sub1(deltas[k + 1].replacement_line_range.start)
}

proof fn lemma_spliced_after_last(
    lines: Seq<Seq<char>>,
    ds: Seq<DiffDelta>,
    dl: DiffDelta,
    pos: int,
    be: bool,
)
    requires
        in_range_order(ds),
        0 <= pos,
        sat_sub1(dl.replacement_line_range.start) <= sat_sub1(dl.replacement_line_range.end)
            <= lines.len(),
        ds.len() > 0 ==> pos <= sat_sub1(ds[0].replacement_line_range.start) && sat_sub1(
            ds.last().replacement_line_range.end,
        ) <= sat_sub1(dl.replacement_line_range.start),
        ds.len() == 0 ==> pos <= sat_sub1(dl.replacement_line_range.start),
    ensures
        ({
            let s = sat_sub1(dl.replacement_line_range.start);
            let e = sat_sub1(dl.replacement_line_range.end);
            spliced(lines.take(s) + inserted_lines(dl, be) + lines.skip(e), ds, pos, be)
                == spliced(lines, ds.push(dl), pos, be)
        }),
    decreases ds.len(),
{
    let s = sat_sub1(dl.replacement_line_range.start);
    let e = sat_sub1(dl.replacement_line_range.end);
    let ins = inserted_lines(dl, be);
    let l2 = lines.take(s) + ins + lines.skip(e);
    let all = ds.push(dl);
    if ds.len() == 0 {
        assert(all[0] == dl);
        assert(all.drop_first() =~= Seq::<DiffDelta>::empty());
        assert(spliced(lines, all.drop_first(), e, be) == lines.skip(e));
        assert(l2.skip(pos) =~= lines.subrange(pos, s) + ins + lines.skip(e));
    } else {
        let d0 = ds[0];
        let r0 = sat_sub1(d0.replacement_line_range.start);
        let e0 = sat_sub1(d0.replacement_line_range.end);
        let tail = ds.drop_first();
        assert(in_range_order(tail)) by {
            assert forall|k: int| 0 <= k < tail.len() implies sat_sub1(
                (#[trigger] tail[k]).replacement_line_range.start,
            ) <= sat_sub1(tail[k].replacement_line_range.end) by {
                assert(tail[k] == ds[k + 1]);
            }
            assert forall|k: int| 0 <= k < tail.len() - 1 implies sat_sub1(
                (#[trigger] tail[k]).replacement_line_range.end,
            ) <= sat_sub1(tail[k + 1].replacement_line_range.start) by {
                assert(tail[k] == ds[k + 1]);
                assert(tail[k + 1] == ds[k + 2]);
            }
        }
        assert(r0 <= e0);
        if tail.len() > 0 {
            assert(tail[0] == ds[1]);
            assert(tail.last() == ds.last());
        } else {
            assert(ds.last() == d0);
        }
        assert(e0 <= s) by {
            if tail.len() > 0 {
                assert(e0 <= sat_sub1(ds[1].replacement_line_range.start));
                lemma_range_order_chain(ds, 1);
            } else {
                assert(ds.last() == d0);
            }
        }
        lemma_spliced_after_last(lines, tail, dl, e0, be);
        assert(all[0] == d0);
        assert(all.drop_first() =~= tail.push(dl));
        assert(l2.subrange(pos, r0) =~= lines.subrange(pos, r0));
    }
}

proof fn lemma_range_order_chain(ds: Seq<DiffDelta>, k: int)
    requires
        in_range_order(ds),
        0 <= k < ds.len(),
    ensures
        sat_sub1(ds[k].replacement_line_range.start) <= sat_sub1(ds.last().replacement_line_range.end),
    decreases ds.len() - k,
{
    if k < ds.len() - 1 {
        lemma_range_order_chain(ds, k + 1);
        assert(sat_sub1(ds[k].replacement_line_range.start) <= sat_sub1(ds[k].replacement_line_range.end));
        assert(sat_sub1(ds[k].replacement_line_range.end) <= sat_sub1(ds[k + 1].replacement_line_range.start));
    }
}

proof fn lemma_apply_in_range_order(lines: Seq<Seq<char>>, ds: Seq<DiffDelta>, be: bool)
    requires
        in_range_order(ds),
        ds.len() > 0 ==> sat_sub1(ds.last().replacement_line_range.end) <= lines.len(),
    ensures
        apply_sorted(lines, ds, be) == Ok::<Seq<Seq<char>>, OutOfBounds>(spliced(lines, ds, 0, be)),
    decreases ds.len(),
{
    if ds.len() == 0 {
        assert(lines.skip(0) == lines);
    } else {
        let dl = ds.last();
        let s = sat_sub1(dl.replacement_line_range.start);
        let e = sat_sub1(dl.replacement_line_range.end);
        let init = ds.drop_last();
        let l2 = lines.take(s) + inserted_lines(dl, be) + lines.skip(e);
        assert(s <= e);
        assert(in_range_order(init)) by {
            assert forall|k: int| 0 <= k < init.len() implies sat_sub1(
                (#[trigger] init[k]).replacement_line_range.start,
            ) <= sat_sub1(init[k].replacement_line_range.end) by {
                assert(init[k] == ds[k]);
            }
            assert forall|k: int| 0 <= k < init.len() - 1 implies sat_sub1(
                (#[trigger] init[k]).replacement_line_range.end,
            ) <= sat_sub1(init[k + 1].replacement_line_range.start) by {
                assert(init[k] == ds[k]);
                assert(init[k + 1] == ds[k + 1]);
            }
        }
        if init.len() > 0 {
            assert(init.last() == ds[ds.len() - 2]);
            assert(sat_sub1(init.last().replacement_line_range.end) <= s);
        }
        lemma_apply_in_range_order(l2, init, be);
        lemma_spliced_after_last(lines, init, dl, 0, be);
        assert(init.push(dl) =~= ds);
    }
}

proof fn lemma_sorted_input_stays(ds: Seq<DiffDelta>)
    requires
        forall|k: int|
            0 <= k < ds.len() - 1 ==> (#[trigger] ds[k]).replacement_line_range.start
                <= ds[k + 1].replacement_line_range.start,
    ensures
        sort_by_start(ds) == ds,
    decreases ds.len(),
{
    if ds.len() > 0 {
        let init = ds.drop_last();
        assert forall|k: int| 0 <= k < init.len() - 1 implies (#[trigger] init[k]).replacement_line_range.start
            <= init[k + 1].replacement_line_range.start by {
            assert(init[k] == ds[k]);
            assert(init[k + 1] == ds[k + 1]);
        }
        lemma_sorted_input_stays(init);
        if init.len() > 0 {
            assert(init.last() == ds[ds.len() - 2]);
        }
        assert(init.push(ds.last()) =~= ds);
    }
}

/// Deltas given in range order, with disjoint ranges that fit the content,
/// each replace exactly the base content's lines that their range names:
/// the result is the base lines before the first range, the first
/// insertion, the base lines between the first and second ranges, the
/// second insertion, and so on, with the base lines after the last range.
/// An insertion never shifts the lines a later delta names.
pub proof fn law_disjoint_deltas_replace_base_ranges(content: Seq<char>, deltas: Seq<DiffDelta>)
    requires
        in_range_order(deltas),
        forall|k: int|
            0 <= k < deltas.len() - 1 ==> (#[trigger] deltas[k]).replacement_line_range.start
                <= deltas[k + 1].replacement_line_range.start,
        deltas.len() > 0 ==> sat_sub1(deltas.last().replacement_line_range.end) <= split_lines(
            content,
        ).len(),
    ensures
        spec_apply_deltas(content, deltas) == Ok::<Seq<char>, Seq<char>>(
            spliced(split_lines(content), deltas, 0, content.len() == 0).flatten(),
        ),
{
    lemma_sorted_input_stays(deltas);
    lemma_apply_in_range_order(split_lines(content), deltas, content.len() == 0);
}

/// Two deltas with disjoint ranges `s1..e1` and `s2..e2` (as 0-based line
/// indices, `s1 <= e1 <= s2 <= e2`) give `base[..s1] ++ ins1 ++
/// base[e1..s2] ++ ins2 ++ base[e2..]`, whichever order they are given in
/// when their starts differ.
pub proof fn law_two_deltas_replace_base_lines(content: Seq<char>, d1: DiffDelta, d2: DiffDelta)
    requires
        sat_sub1(d1.replacement_line_range.start) <= sat_sub1(d1.replacement_line_range.end)
            <= sat_sub1(d2.replacement_line_range.start) <= sat_sub1(d2.replacement_line_range.end)
            <= split_lines(content).len(),
        d1.replacement_line_range.start <= d2.replacement_line_range.start,
    ensures
        ({
            let base = split_lines(content);
            let be = content.len() == 0;
            let s1 = sat_sub1(d1.replacement_line_range.start);
            let e1 = sat_sub1(d1.replacement_line_range.end);
            let s2 = sat_sub1(d2.replacement_line_range.start);
            let e2 = sat_sub1(d2.replacement_line_range.end);
            let expected = (base.subrange(0, s1) + inserted_lines(d1, be) + base.subrange(e1, s2)
                + inserted_lines(d2, be) + base.skip(e2)).flatten();
            &&& spec_apply_deltas(content, seq![d1, d2]) == Ok::<Seq<char>, Seq<char>>(expected)
            &&& d1.replacement_line_range.start < d2.replacement_line_range.start
                ==> spec_apply_deltas(content, seq![d2, d1]) == Ok::<Seq<char>, Seq<char>>(expected)
        }),
{
    let ds = seq![d1, d2];
    let base = split_lines(content);
    let be = content.len() == 0;
    assert(in_range_order(ds));
    assert(ds.last() == d2);
    law_disjoint_deltas_replace_base_ranges(content, ds);
    assert(ds.drop_first() =~= seq![d2]);
    assert(seq![d2].drop_first() =~= Seq::<DiffDelta>::empty());
    let e1 = sat_sub1(d1.replacement_line_range.end);
    let s2 = sat_sub1(d2.replacement_line_range.start);
    let e2 = sat_sub1(d2.replacement_line_range.end);
    assert(spliced(base, seq![d2], e1, be) == base.subrange(e1, s2) + inserted_lines(d2, be)
        + spliced(base, Seq::<DiffDelta>::empty(), e2, be));
    assert(spliced(base, ds, 0, be) =~= base.subrange(0, sat_sub1(d1.replacement_line_range.start))
        + inserted_lines(d1, be) + base.subrange(e1, s2) + inserted_lines(d2, be) + base.skip(e2));
    if d1.replacement_line_range.start < d2.replacement_line_range.start {
        let rev = seq![d2, d1];
        assert(rev.drop_last() =~= seq![d2]);
        assert(rev.last() == d1);
        assert(seq![d2].drop_last() =~= Seq::<DiffDelta>::empty());
        assert(sort_by_start(Seq::<DiffDelta>::empty()) == Seq::<DiffDelta>::empty());
        assert(insert_by_start(Seq::<DiffDelta>::empty(), d2) == seq![d2]);
        assert(sort_by_start(seq![d2]) == seq![d2]);
        assert(insert_by_start(Seq::<DiffDelta>::empty(), d1) == seq![d1]);
        assert(insert_by_start(seq![d2], d1) == seq![d1].push(d2));
        assert(seq![d1].push(d2) =~= ds);
        assert(sort_by_start(rev) == ds);
        lemma_sorted_input_stays(ds);
    }
}

} // verus!
