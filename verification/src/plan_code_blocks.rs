//! Which code-block views a plan view keeps: every fenced code block of every
//! parsed document gets a key made of its document's position and its
//! position among that document's code blocks; views whose key is gone are
//! dropped, views whose key remains are updated, and new keys get new views.
use vstd::prelude::*;

verus! {

/// Names one code block of a plan: the document it is in and its position
/// among that document's code blocks.
#[derive(Clone, Copy, Debug, PartialEq, Eq, Hash, Structural)]
pub struct TuiPlanCodeKey {
    pub document_index: usize,
    pub code_index: usize,
}

/// How many of the first `n` lines are code blocks.
pub open spec fn code_count(lines: Seq<bool>, n: int) -> nat
    decreases n,
{
    if n <= 0 {
        0
    } else {
        code_count(lines, n - 1) + if lines[n - 1] { 1nat } else { 0nat }
    }
}

/// The keys of the code blocks among the first `n` lines of document
/// `document`, in line order.
pub open spec fn document_code_keys(document: nat, lines: Seq<bool>, n: int) -> Seq<TuiPlanCodeKey>
    decreases n,
{
    if n <= 0 {
        Seq::empty()
    } else {
        let earlier = document_code_keys(document, lines, n - 1);
        if lines[n - 1] {
            earlier.push(
                TuiPlanCodeKey {
                    document_index: document as usize,
                    code_index: code_count(lines, n - 1) as usize,
                },
            )
        } else {
            earlier
        }
    }
}

/// The keys of the code blocks of the first `m` documents; a document that
/// has not been parsed has none.
pub open spec fn plan_code_keys_prefix(documents: Seq<Option<Vec<bool>>>, m: int) -> Seq<TuiPlanCodeKey>
    decreases m,
{
    if m <= 0 {
        Seq::empty()
    } else {
        plan_code_keys_prefix(documents, m - 1) + match documents[m - 1] {
            Some(lines) => document_code_keys((m - 1) as nat, lines@, lines@.len() as int),
            None => Seq::empty(),
        }
    }
}

proof fn lemma_code_count_bounded(lines: Seq<bool>, n: int)
    requires
        0 <= n,
    ensures
        code_count(lines, n) <= n,
    decreases n,
{
    if n > 0 {
        lemma_code_count_bounded(lines, n - 1);
    }
}

/// The keys of a plan's code blocks, document by document and line by line.
/// Each document is `None` until it has been parsed, else one flag per
/// formatted line telling whether that line is a code block.
pub fn plan_code_keys(documents: &[Option<Vec<bool>>]) -> (keys: Vec<TuiPlanCodeKey>)
    ensures
        keys@ == plan_code_keys_prefix(documents@, documents@.len() as int),
{
    let mut keys: Vec<TuiPlanCodeKey> = Vec::new();
    let mut d: usize = 0;
    while d < documents.len()
        invariant
            d <= documents@.len(),
            keys@ == plan_code_keys_prefix(documents@, d as int),
        decreases documents@.len() - d,
    {
        match &documents[d] {
            Some(lines) => {
                let ghost before = keys@;
                let mut code_index: usize = 0;
                let mut j: usize = 0;
                while j < lines.len()
                    invariant
                        documents@[d as int] == Some(*lines),
                        j <= lines@.len(),
                        code_index == code_count(lines@, j as int),
                        keys@ == before + document_code_keys(d as nat, lines@, j as int),
                    decreases lines@.len() - j,
                {
                    proof {
                        lemma_code_count_bounded(lines@, j as int);
                    }
                    if lines[j] {
                        keys.push(TuiPlanCodeKey { document_index: d, code_index });
                        code_index = code_index + 1;
                    }
                    proof {
                        assert(keys@ =~= before + document_code_keys(d as nat, lines@, (j + 1) as int));
                    }
                    j = j + 1;
                }
            },
            None => {
                proof {
                    assert(keys@ =~= plan_code_keys_prefix(documents@, (d + 1) as int));
                }
            },
        }
        d = d + 1;
    }
    keys
}

/// What happens to the view for one wanted code block.
#[derive(Clone, Copy, Debug, PartialEq, Eq, Structural)]
pub enum CodeViewStep {
    /// A view for the key exists: it is given the block's new content.
    Update(TuiPlanCodeKey),
    /// No view for the key exists yet: one is created.
    Create(TuiPlanCodeKey),
}

/// The changes that bring the plan's code-block views in line with its
/// current code blocks.
#[derive(Clone, Debug)]
pub struct CodeViewSync {
    /// Keys of existing views to drop, in their existing order.
    pub removed: Vec<TuiPlanCodeKey>,
    /// One step per wanted key, in order.
    pub steps: Vec<CodeViewStep>,
}

/// Keeps the keys that are no longer wanted.
pub open spec fn unwanted(wanted: Seq<TuiPlanCodeKey>) -> spec_fn(TuiPlanCodeKey) -> bool {
    |k: TuiPlanCodeKey| !wanted.contains(k)
}

/// The step for the `i`-th wanted key: it updates a view that existed or
/// that an earlier step created, else it creates one.
pub open spec fn step_for(existing: Seq<TuiPlanCodeKey>, wanted: Seq<TuiPlanCodeKey>, i: int) -> CodeViewStep {
    if existing.contains(wanted[i]) || wanted.take(i).contains(wanted[i]) {
        CodeViewStep::Update(wanted[i])
    } else {
        CodeViewStep::Create(wanted[i])
    }
}

fn contains_key(keys: &[TuiPlanCodeKey], key: TuiPlanCodeKey, n: usize) -> (found: bool)
    requires
        n <= keys@.len(),
    ensures
        found == keys@.take(n as int).contains(key),
{
    let mut i: usize = 0;
    while i < n
        invariant
            n <= keys@.len(),
            i <= n,
            forall|k: int| 0 <= k < i ==> keys@[k] != key,
        decreases n - i,
    {
        if keys[i] == key {
            proof {
                assert(keys@.take(n as int)[i as int] == key);
            }
            return true;
        }
        i = i + 1;
    }
    proof {
        if keys@.take(n as int).contains(key) {
            let k = choose|k: int| 0 <= k < n && keys@.take(n as int)[k] == key;
            assert(keys@[k] == key);
        }
    }
    false
}

/// Reconciles the existing code-block views (`existing`, one key each) with
/// the plan's current code blocks (`wanted`, from `plan_code_keys`): views
/// whose key is no longer wanted are removed; each wanted key updates its
/// view when one exists and creates one otherwise.
pub fn code_view_sync(existing: &[TuiPlanCodeKey], wanted: &[TuiPlanCodeKey]) -> (sync: CodeViewSync)
    ensures
        sync.removed@ == existing@.filter(unwanted(wanted@)),
        sync.steps@.len() == wanted@.len(),
        forall|i: int| 0 <= i < wanted@.len() ==> #[trigger] sync.steps@[i] == step_for(existing@, wanted@, i),
{
    let mut removed: Vec<TuiPlanCodeKey> = Vec::new();
    let mut i: usize = 0;
    while i < existing.len()
        invariant
            i <= existing@.len(),
            removed@ == existing@.take(i as int).filter(unwanted(wanted@)),
        decreases existing@.len() - i,
    {
        let key = existing[i];
        let still_wanted = contains_key(wanted, key, wanted.len());
        proof {
            assert(wanted@.take(wanted@.len() as int) =~= wanted@);
            reveal(Seq::filter);
            assert(existing@.take(i + 1).drop_last() =~= existing@.take(i as int));
            assert(existing@.take(i + 1).last() == key);
        }
        if !still_wanted {
            removed.push(key);
        }
        i = i + 1;
    }
    proof {
        assert(existing@.take(existing@.len() as int) =~= existing@);
    }
    let mut steps: Vec<CodeViewStep> = Vec::new();
    let mut j: usize = 0;
    while j < wanted.len()
        invariant
            j <= wanted@.len(),
            steps@.len() == j,
            forall|k: int| 0 <= k < j ==> #[trigger] steps@[k] == step_for(existing@, wanted@, k),
        decreases wanted@.len() - j,
    {
        let key = wanted[j];
        let existed = contains_key(existing, key, existing.len());
        let earlier = contains_key(wanted, key, j);
        proof {
            assert(existing@.take(existing@.len() as int) =~= existing@);
        }
        if existed || earlier {
            steps.push(CodeViewStep::Update(key));
        } else {
            steps.push(CodeViewStep::Create(key));
        }
        j = j + 1;
    }
    CodeViewSync { removed, steps }
}

/// Whether some step creates a view for `k`.
pub open spec fn creates(steps: Seq<CodeViewStep>, k: TuiPlanCodeKey) -> bool {
    exists|i: int| 0 <= i < steps.len() && steps[i] == CodeViewStep::Create(k)
}

/// Reconciling leaves exactly the wanted views: a key keeps or gets a view
/// if and only if it is wanted. No view is created for a key that already
/// had one, and no key gets two new views.
pub proof fn law_sync_leaves_exactly_wanted_views(
    existing: Seq<TuiPlanCodeKey>,
    wanted: Seq<TuiPlanCodeKey>,
    removed: Seq<TuiPlanCodeKey>,
    steps: Seq<CodeViewStep>,
)
    requires
        removed == existing.filter(unwanted(wanted)),
        steps.len() == wanted.len(),
        forall|i: int| 0 <= i < wanted.len() ==> #[trigger] steps[i] == step_for(existing, wanted, i),
    ensures
        forall|k: TuiPlanCodeKey|
            ((existing.contains(k) && !removed.contains(k)) || creates(steps, k)) <==> wanted.contains(k),
        forall|i: int|
            0 <= i < steps.len() && steps[i] is Create ==> !existing.contains(#[trigger] wanted[i]),
        forall|i: int, j: int|
            0 <= i < j < steps.len() && steps[i] is Create ==> #[trigger] steps[j] != #[trigger] steps[i],
{
    broadcast use vstd::seq_lib::group_filter_ensures;
    let p = unwanted(wanted);
    assert forall|k: TuiPlanCodeKey| removed.contains(k) <==> existing.contains(k) && !wanted.contains(k) by {
        if removed.contains(k) {
            existing.lemma_filter_contains_rev(p, k);
            let j = choose|j: int| 0 <= j < removed.len() && removed[j] == k;
            assert(p(removed[j]));
        }
        if existing.contains(k) && !wanted.contains(k) {
            let j = choose|j: int| 0 <= j < existing.len() && existing[j] == k;
            assert(p(existing[j]));
        }
    }
    assert forall|k: TuiPlanCodeKey|
        ((existing.contains(k) && !removed.contains(k)) || creates(steps, k)) <==> wanted.contains(k) by {
        if creates(steps, k) {
            let i = choose|i: int| 0 <= i < steps.len() && steps[i] == CodeViewStep::Create(k);
            assert(steps[i] == step_for(existing, wanted, i));
            assert(wanted[i] == k);
        }
        if wanted.contains(k) && !existing.contains(k) {
            let first = choose|i: int|
                0 <= i < wanted.len() && wanted[i] == k && forall|j: int| 0 <= j < i ==> wanted[j] != k;
            assert(exists|i: int|
                0 <= i < wanted.len() && wanted[i] == k && forall|j: int| 0 <= j < i ==> wanted[j] != k) by {
                lemma_first_occurrence(wanted, k);
            }
            assert(steps[first] == step_for(existing, wanted, first));
            assert(!wanted.take(first).contains(k)) by {
                if wanted.take(first).contains(k) {
                    let j = choose|j: int| 0 <= j < first && wanted.take(first)[j] == k;
                    assert(wanted[j] == k);
                }
            }
            assert(steps[first] == CodeViewStep::Create(k));
        }
    }
    assert forall|i: int, j: int|
        0 <= i < j < steps.len() && steps[i] is Create implies #[trigger] steps[j] != #[trigger] steps[i] by {
        assert(steps[i] == step_for(existing, wanted, i));
        assert(steps[j] == step_for(existing, wanted, j));
        if steps[j] == steps[i] {
            assert(wanted[j] == wanted[i]);
            assert(wanted.take(j)[i] == wanted[j]);
            assert(wanted.take(j).contains(wanted[j]));
        }
    }
    assert forall|i: int| 0 <= i < steps.len() && steps[i] is Create implies !existing.contains(
        #[trigger] wanted[i],
    ) by {
        assert(steps[i] == step_for(existing, wanted, i));
    }
}

proof fn lemma_first_occurrence(s: Seq<TuiPlanCodeKey>, k: TuiPlanCodeKey)
    requires
        s.contains(k),
    ensures
        exists|i: int| 0 <= i < s.len() && s[i] == k && forall|j: int| 0 <= j < i ==> s[j] != k,
    decreases s.len(),
{
    if s[0] == k {
        assert(forall|j: int| 0 <= j < 0 ==> s[j] != k);
    } else {
        let t = s.drop_first();
        let w = choose|w: int| 0 <= w < s.len() && s[w] == k;
        assert(t[w - 1] == k);
        lemma_first_occurrence(t, k);
        let i = choose|i: int| 0 <= i < t.len() && t[i] == k && forall|j: int| 0 <= j < i ==> t[j] != k;
        assert(s[i + 1] == k);
        assert forall|j: int| 0 <= j < i + 1 implies s[j] != k by {
            if j > 0 {
                assert(s[j] == t[j - 1]);
            }
        }
    }
}

} // verus!
