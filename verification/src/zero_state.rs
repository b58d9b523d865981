//! Text of the zero state shown before a conversation starts: the version
//! line, the "What's new" bullets, and the project-context lines.
use vstd::prelude::*;
use crate::diff_apply::{split_lines_preserving_newlines, views};
use crate::history_menu::starts_with;
use crate::text::{decimal, push_chars, push_decimal, split_lines, str_eq, string_from_chars, trim_chars, trimmed};

verus! {

/// At most this many changelog bullets are shown.
pub const MAX_CHANGELOG_BULLETS: usize = 3;

/// The background auto-updater's status.
#[derive(Clone, Copy, Debug, PartialEq, Eq, Structural)]
pub enum TuiAutoupdateStatus {
    Idle,
    Checking,
    Updating,
    UpToDate,
    PendingRestart,
}

/// The version line: the version (or `dev build`) and an optional
/// parenthesized updater status, `highlighted` when a restart applies an
/// installed update.
pub struct VersionLine {
    pub text: String,
    pub suffix: Option<(String, bool)>,
}

/// The label of an updater status, if it shows one.
pub open spec fn status_label(status: TuiAutoupdateStatus) -> Option<Seq<char>> {
    match status {
        TuiAutoupdateStatus::Idle => None,
        TuiAutoupdateStatus::Checking => Some("checking for updates…"@),
        TuiAutoupdateStatus::Updating => Some("updating…"@),
        TuiAutoupdateStatus::UpToDate => Some("up to date"@),
        TuiAutoupdateStatus::PendingRestart => Some("update installed, restart to apply"@),
    }
}

/// Builds the version line. Development builds have no version and never
/// update, so they read `dev build`; otherwise the version is followed by
/// the updater's status in parentheses, when it has one to show.
pub fn version_line(version: Option<&str>, status: TuiAutoupdateStatus) -> (line: VersionLine)
    ensures
        match version {
            None => line.text@ == "dev build"@ && line.suffix is None,
            Some(v) => match status_label(status) {
                None => line.text@ == v@ && line.suffix is None,
                Some(label) => line.text@ == v@ + " "@ && (line.suffix matches Some((s, highlighted))
                    && s@ == "("@ + label + ")"@ && highlighted == (status
                    == TuiAutoupdateStatus::PendingRestart)),
            },
        },
{
    let mut text = String::new();
    let v = match version {
        None => {
            push_chars(&mut text, "dev build");
            return VersionLine { text, suffix: None };
        },
        Some(v) => v,
    };
    push_chars(&mut text, v);
    let label = match status {
        TuiAutoupdateStatus::Idle => {
            return VersionLine { text, suffix: None };
        },
        TuiAutoupdateStatus::Checking => "checking for updates…",
        TuiAutoupdateStatus::Updating => "updating…",
        TuiAutoupdateStatus::UpToDate => "up to date",
        TuiAutoupdateStatus::PendingRestart => "update installed, restart to apply",
    };
    push_chars(&mut text, " ");
    let mut suffix = String::new();
    push_chars(&mut suffix, "(");
    push_chars(&mut suffix, label);
    push_chars(&mut suffix, ")");
    let highlighted = match status {
        TuiAutoupdateStatus::PendingRestart => true,
        _ => false,
    };
    VersionLine { text, suffix: Some((suffix, highlighted)) }
}

/// The bullet text of a changelog line: the trimmed line after a leading
/// `* ` or `- `.
pub open spec fn bullet_of(line: Seq<char>) -> Option<Seq<char>> {
    let t = trimmed(line);
    if starts_with(t, "* "@) || starts_with(t, "- "@) {
        Some(t.skip(2))
    } else {
        None
    }
}

/// The bullets among `lines`, in order.
pub open spec fn line_bullets(lines: Seq<Seq<char>>) -> Seq<Seq<char>>
    decreases lines.len(),
{
    if lines.len() == 0 {
        Seq::empty()
    } else {
        let rest = line_bullets(lines.drop_last());
        match bullet_of(lines.last()) {
            Some(b) => rest.push(b),
            None => rest,
        }
    }
}

/// The bullets of every markdown section's lines, in order.
pub open spec fn markdown_bullets(sections: Seq<Seq<char>>) -> Seq<Seq<char>>
    decreases sections.len(),
{
    if sections.len() == 0 {
        Seq::empty()
    } else {
        markdown_bullets(sections.drop_last()) + line_bullets(split_lines(sections.last()))
    }
}

/// At most `MAX_CHANGELOG_BULLETS` leading items.
pub open spec fn first_bullets(items: Seq<Seq<char>>) -> Seq<Seq<char>> {
    if items.len() > MAX_CHANGELOG_BULLETS {
        items.take(MAX_CHANGELOG_BULLETS as int)
    } else {
        items
    }
}

/// The bullets shown: the first items of the changelog's sections or, when
/// there are none, the first `*`/`-` bullet lines of its markdown sections.
pub open spec fn spec_changelog_bullets(items: Seq<Seq<char>>, markdown: Seq<Seq<char>>) -> Seq<Seq<char>> {
    if items.len() > 0 {
        first_bullets(items)
    } else {
        first_bullets(markdown_bullets(markdown))
    }
}

fn bullet_text(line: &str) -> (bullet: Option<String>)
    ensures
        match bullet_of(line@) {
            Some(b) => bullet matches Some(s) && s@ == b,
            None => bullet is None,
        },
{
    let t = trim_chars(line);
    if t.len() >= 2 && (t[0] == '*' || t[0] == '-') && t[1] == ' ' {
        proof {
            reveal_strlit("* ");
            reveal_strlit("- ");
            assert(t@.take(2) == "* "@ || t@.take(2) == "- "@);
        }
        let mut out: Vec<char> = Vec::new();
        let mut i: usize = 2;
        while i < t.len()
            invariant
                2 <= i <= t@.len(),
                out@ == t@.subrange(2, i as int),
            decreases t@.len() - i,
        {
            out.push(t[i]);
            i = i + 1;
        }
        assert(out@ == t@.skip(2));
        Some(string_from_chars(out.as_slice()))
    } else {
        proof {
            reveal_strlit("* ");
            reveal_strlit("- ");
            if t@.len() >= 2 {
                assert(t@.take(2)[0] == t@[0] && t@.take(2)[1] == t@[1]);
            }
        }
        None
    }
}

/// Collects the "What's new" bullets from the changelog's section items and,
/// failing those, from its markdown sections.
pub fn changelog_bullets(items: &[String], markdown: &[String]) -> (bullets: Vec<String>)
    ensures
        views(bullets@) == spec_changelog_bullets(views(items@), views(markdown@)),
{
    let mut bullets: Vec<String> = Vec::new();
    if items.len() > 0 {
        let mut i: usize = 0;
        while i < items.len() && i < MAX_CHANGELOG_BULLETS
            invariant
                i <= items@.len(),
                i <= MAX_CHANGELOG_BULLETS,
                views(bullets@) == views(items@).take(i as int),
            decreases items@.len() - i,
        {
            bullets.push(items[i].clone());
            assert(views(items@).take(i + 1) == views(items@).take(i as int).push(items@[i as int]@));
            i = i + 1;
        }
        assert(views(bullets@) == first_bullets(views(items@)));
        return bullets;
    }
    let mut all: Vec<String> = Vec::new();
    let mut s: usize = 0;
    while s < markdown.len()
        invariant
            s <= markdown@.len(),
            views(all@) == markdown_bullets(views(markdown@).take(s as int)),
        decreases markdown@.len() - s,
    {
        let lines = split_lines_preserving_newlines(markdown[s].as_str());
        let ghost before = all@;
        let mut k: usize = 0;
        while k < lines.len()
            invariant
                k <= lines@.len(),
                views(all@) == views(before) + line_bullets(views(lines@).take(k as int)),
            decreases lines@.len() - k,
        {
            assert(views(lines@).take(k + 1).drop_last() == views(lines@).take(k as int));
            assert(views(lines@).take(k + 1).last() == lines@[k as int]@);
            let ghost prior = all@;
            match bullet_text(lines[k].as_str()) {
                Some(b) => {
                    all.push(b);
                    assert(views(all@) == views(prior).push(b@));
                },
                None => {},
            }
            k = k + 1;
        }
        assert(views(lines@).take(lines@.len() as int) == views(lines@));
        assert(views(markdown@).take(s + 1).drop_last() == views(markdown@).take(s as int));
        assert(views(markdown@).take(s + 1).last() == markdown@[s as int]@);
        s = s + 1;
    }
    assert(views(markdown@).take(markdown@.len() as int) == views(markdown@));
    let mut j: usize = 0;
    while j < all.len() && j < MAX_CHANGELOG_BULLETS
        invariant
            j <= all@.len(),
            j <= MAX_CHANGELOG_BULLETS,
            views(bullets@) == views(all@).take(j as int),
        decreases all@.len() - j,
    {
        bullets.push(all[j].clone());
        assert(views(all@).take(j + 1) == views(all@).take(j as int).push(all@[j as int]@));
        j = j + 1;
    }
    bullets
}

/// The project-context lines.
pub enum ProjectContextLines {
    /// Nothing is known yet (discovery runs asynchronously), or there is no
    /// project context.
    Discovering,
    /// One `✓` line per item.
    Loaded(Vec<String>),
}

/// The distinct names of `names`, first occurrences in order.
pub open spec fn distinct_names(names: Seq<Seq<char>>) -> Seq<Seq<char>>
    decreases names.len(),
{
    if names.len() == 0 {
        Seq::empty()
    } else {
        let rest = distinct_names(names.drop_last());
        if rest.contains(names.last()) {
            rest
        } else {
            rest.push(names.last())
        }
    }
}

/// The lines for the rule files and project skills.
pub open spec fn spec_project_lines(rule_files: Seq<Seq<char>>, skill_count: usize) -> Seq<Seq<char>> {
    Seq::new(distinct_names(rule_files).len(), |i: int| distinct_names(rule_files)[i] + " loaded"@)
        + if skill_count > 0 {
        seq![decimal(skill_count as nat) + " skill"@ + (if skill_count == 1 {
            ""@
        } else {
            "s"@
        }) + " discovered"@]
    } else {
        Seq::empty()
    }
}

fn contains_name(names: &Vec<String>, name: &str) -> (found: bool)
    ensures
        found == views(names@).contains(name@),
{
    let mut i: usize = 0;
    while i < names.len()
        invariant
            i <= names@.len(),
            forall|k: int| 0 <= k < i ==> names@[k]@ != name@,
        decreases names@.len() - i,
    {
        if str_eq(names[i].as_str(), name) {
            assert(views(names@)[i as int] == name@);
            return true;
        }
        i = i + 1;
    }
    assert(!views(names@).contains(name@)) by {
        if views(names@).contains(name@) {
            let k = choose|k: int| 0 <= k < views(names@).len() && views(names@)[k] == name@;
            assert(names@[k]@ == name@);
        }
    }
    false
}

/// The project section's lines: each active rule file once (by file name,
/// since nested roots can contribute rules with the same name), then the
/// number of project skills; while neither is known, a discovering notice.
pub fn project_context_lines(rule_files: &[String], project_skill_count: usize) -> (lines: ProjectContextLines)
    ensures
        match lines {
            ProjectContextLines::Discovering => rule_files@.len() == 0 && project_skill_count == 0,
            ProjectContextLines::Loaded(l) => (rule_files@.len() > 0 || project_skill_count > 0) && views(
                l@,
            ) == spec_project_lines(views(rule_files@), project_skill_count),
        },
{
    if rule_files.len() == 0 && project_skill_count == 0 {
        return ProjectContextLines::Discovering;
    }
    let mut names: Vec<String> = Vec::new();
    let mut i: usize = 0;
    while i < rule_files.len()
        invariant
            i <= rule_files@.len(),
            views(names@) == distinct_names(views(rule_files@).take(i as int)),
        decreases rule_files@.len() - i,
    {
        assert(views(rule_files@).take(i + 1).drop_last() == views(rule_files@).take(i as int));
        assert(views(rule_files@).take(i + 1).last() == rule_files@[i as int]@);
        if !contains_name(&names, rule_files[i].as_str()) {
            let ghost before = names@;
            names.push(rule_files[i].clone());
            assert(views(names@) == views(before).push(rule_files@[i as int]@));
        }
        i = i + 1;
    }
    assert(views(rule_files@).take(rule_files@.len() as int) == views(rule_files@));
    let ghost distinct = views(names@);
    let mut lines: Vec<String> = Vec::new();
    let mut k: usize = 0;
    while k < names.len()
        invariant
            k <= names@.len(),
            distinct == views(names@),
            views(lines@) == Seq::new(k as nat, |j: int| distinct[j] + " loaded"@),
        decreases names@.len() - k,
    {
        let mut line = names[k].clone();
        push_chars(&mut line, " loaded");
        assert(line@ == distinct[k as int] + " loaded"@);
        let ghost before = lines@;
        lines.push(line);
        assert(views(lines@) == views(before).push(line@));
        assert(views(lines@) =~= Seq::new((k + 1) as nat, |j: int| distinct[j] + " loaded"@));
        k = k + 1;
    }
    let ghost loaded = views(lines@);
    if project_skill_count > 0 {
        let mut line = String::new();
        push_decimal(&mut line, project_skill_count as u64);
        push_chars(&mut line, " skill");
        if project_skill_count != 1 {
            push_chars(&mut line, "s");
        } else {
            proof {
                reveal_strlit("");
            }
            assert(line@ + ""@ == line@);
        }
        push_chars(&mut line, " discovered");
        lines.push(line);
        assert(views(lines@) =~= loaded + seq![line@]);
    } else {
        assert(views(lines@) =~= loaded + Seq::<Seq<char>>::empty());
    }
    ProjectContextLines::Loaded(lines)
}

} // verus!
