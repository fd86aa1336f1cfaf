use vstd::prelude::*;

use crate::domain::{attached_names, clone_attached, clone_available, clone_candidate, AttachedRepository, AvailableRepository, RepositoryCandidate, RepositoryCandidatePath};
use crate::order::{compare_text, lemma_text_lt_irreflexive, lemma_text_lt_transitive, text_lt, Order3};
use crate::sorting::{first_after, insert_sorted, isort, lemma_first_after, strict_order};
use crate::text::{chars_of, clone_string, concat2, concat3, contains, contains_text, lower, push_str, str_eq, to_lower, trim, trim_exec};

verus! {

/// One row of the repository catalog.
#[derive(Debug, Clone, PartialEq, Eq)]
pub enum RepoCatalogRow {
    /// A repository from the GitHub catalog.
    GitHub(AvailableRepository),
    /// A local checkout found in a repository workspace.
    Local(RepositoryCandidate),
    /// A local path whose inspection is still running, or failed.
    PendingLocal { path: String, failed: bool },
    /// A repository attached to the Work but found in no other source.
    Attached(AttachedRepository),
}

/// The repository name a row shows (the path for a pending local row).
pub open spec fn row_name(r: RepoCatalogRow) -> Seq<char> {
    match r {
        RepoCatalogRow::GitHub(a) => a.name_with_owner@,
        RepoCatalogRow::Local(c) => c.name_with_owner@,
        RepoCatalogRow::PendingLocal { path, .. } => path@,
        RepoCatalogRow::Attached(a) => a.name_with_owner@,
    }
}

/// The secondary text a row is ordered by after its name.
pub open spec fn row_meta(r: RepoCatalogRow) -> Seq<char> {
    match r {
        RepoCatalogRow::GitHub(a) => "github default "@ + a.default_branch@,
        RepoCatalogRow::Local(c) => "local "@ + c.branch@ + " "@ + c.path@,
        RepoCatalogRow::PendingLocal { path, failed } => if failed {
            "local failed "@ + path@
        } else {
            "local pending "@ + path@
        },
        RepoCatalogRow::Attached(a) => "attached "@ + a.branch@,
    }
}

/// Attached repositories first, then local rows, then the rest.
pub open spec fn row_rank(r: RepoCatalogRow, attached: Seq<Seq<char>>) -> int {
    if attached.contains(row_name(r)) {
        0
    } else {
        match r {
            RepoCatalogRow::Local(_) | RepoCatalogRow::PendingLocal { .. } => 1,
            _ => 2,
        }
    }
}

/// Catalog order: by rank, then name, then meta.
pub open spec fn row_before(attached: Seq<Seq<char>>) -> spec_fn(RepoCatalogRow, RepoCatalogRow) -> bool {
    |a: RepoCatalogRow, b: RepoCatalogRow|
        row_rank(a, attached) < row_rank(b, attached) || (row_rank(a, attached) == row_rank(
            b,
            attached,
        ) && (text_lt(row_name(a), row_name(b)) || (row_name(a) == row_name(b) && text_lt(
            row_meta(a),
            row_meta(b),
        ))))
}

/// Catalog order is a strict order.
pub proof fn lemma_row_before_strict(attached: Seq<Seq<char>>)
    ensures
        strict_order(row_before(attached)),
{
    let before = row_before(attached);
    assert forall|a: RepoCatalogRow| !#[trigger] before(a, a) by {
        lemma_text_lt_irreflexive(row_name(a));
        lemma_text_lt_irreflexive(row_meta(a));
    }
    assert forall|a: RepoCatalogRow, b: RepoCatalogRow, c: RepoCatalogRow|
        #[trigger] before(a, b) && #[trigger] before(b, c) implies before(a, c) by {
        if row_name(a) != row_name(b) && row_name(b) != row_name(c) && text_lt(row_name(a), row_name(b))
            && text_lt(row_name(b), row_name(c)) {
            lemma_text_lt_transitive(row_name(a), row_name(b), row_name(c));
        }
        if text_lt(row_name(a), row_name(b)) && text_lt(row_name(b), row_name(c)) {
            lemma_text_lt_transitive(row_name(a), row_name(b), row_name(c));
        }
        if text_lt(row_meta(a), row_meta(b)) && text_lt(row_meta(b), row_meta(c)) {
            lemma_text_lt_transitive(row_meta(a), row_meta(b), row_meta(c));
        }
    }
}

/// The lower-cased, trimmed filter text that rows are matched against.
pub open spec fn query_text(filter: Seq<char>) -> Seq<char> {
    lower(trim(filter))
}

/// A name matches an empty query, or one that its lower-cased form holds.
pub open spec fn name_matches(name: Seq<char>, q: Seq<char>) -> bool {
    q.len() == 0 || contains_text(lower(name), q)
}

/// A candidate matches by name, branch or path.
pub open spec fn candidate_matches(c: RepositoryCandidate, q: Seq<char>) -> bool {
    q.len() == 0 || contains_text(lower(c.name_with_owner@), q) || contains_text(
        lower(c.branch@),
        q,
    ) || contains_text(lower(c.path@), q)
}

/// Local rows: the matching candidates.
pub open spec fn local_rows(cs: Seq<RepositoryCandidate>, q: Seq<char>) -> Seq<RepoCatalogRow>
    decreases cs.len(),
{
    if cs.len() == 0 {
        Seq::empty()
    } else if candidate_matches(cs.last(), q) {
        local_rows(cs.drop_last(), q).push(RepoCatalogRow::Local(cs.last()))
    } else {
        local_rows(cs.drop_last(), q)
    }
}

/// The names of rows.
pub open spec fn rows_names(rows: Seq<RepoCatalogRow>) -> Seq<Seq<char>> {
    rows.map_values(|r: RepoCatalogRow| row_name(r))
}

/// The names of GitHub repositories.
pub open spec fn available_names(av: Seq<AvailableRepository>) -> Seq<Seq<char>> {
    av.map_values(|a: AvailableRepository| a.name_with_owner@)
}

/// GitHub rows: matching repositories that no local row names.
pub open spec fn github_rows(
    av: Seq<AvailableRepository>,
    q: Seq<char>,
    local: Seq<Seq<char>>,
) -> Seq<RepoCatalogRow>
    decreases av.len(),
{
    if av.len() == 0 {
        Seq::empty()
    } else if name_matches(av.last().name_with_owner@, q) && !local.contains(
        av.last().name_with_owner@,
    ) {
        github_rows(av.drop_last(), q, local).push(RepoCatalogRow::GitHub(av.last()))
    } else {
        github_rows(av.drop_last(), q, local)
    }
}

/// Rows for local paths still being inspected, matched by path.
pub open spec fn pending_rows(ps: Seq<RepositoryCandidatePath>, q: Seq<char>) -> Seq<RepoCatalogRow>
    decreases ps.len(),
{
    if ps.len() == 0 {
        Seq::empty()
    } else if name_matches(ps.last().path@, q) {
        pending_rows(ps.drop_last(), q).push(
            RepoCatalogRow::PendingLocal { path: ps.last().path, failed: false },
        )
    } else {
        pending_rows(ps.drop_last(), q)
    }
}

/// Rows for local paths whose inspection failed, matched by path.
pub open spec fn failed_rows(fs: Seq<String>, q: Seq<char>) -> Seq<RepoCatalogRow>
    decreases fs.len(),
{
    if fs.len() == 0 {
        Seq::empty()
    } else if name_matches(fs.last()@, q) {
        failed_rows(fs.drop_last(), q).push(
            RepoCatalogRow::PendingLocal { path: fs.last(), failed: true },
        )
    } else {
        failed_rows(fs.drop_last(), q)
    }
}

/// Attached rows: matching attached repositories found in no other source.
pub open spec fn attached_rows(
    at: Seq<AttachedRepository>,
    q: Seq<char>,
    avail: Seq<Seq<char>>,
    local: Seq<Seq<char>>,
) -> Seq<RepoCatalogRow>
    decreases at.len(),
{
    if at.len() == 0 {
        Seq::empty()
    } else if name_matches(at.last().name_with_owner@, q) && !avail.contains(
        at.last().name_with_owner@,
    ) && !local.contains(at.last().name_with_owner@) {
        attached_rows(at.drop_last(), q, avail, local).push(RepoCatalogRow::Attached(at.last()))
    } else {
        attached_rows(at.drop_last(), q, avail, local)
    }
}

/// The catalog rows before ordering: GitHub, local, pending, failed, then
/// attached rows.
pub open spec fn unsorted_catalog(
    filter: Seq<char>,
    available: Seq<AvailableRepository>,
    candidates: Seq<RepositoryCandidate>,
    pending: Seq<RepositoryCandidatePath>,
    failed: Seq<String>,
    attached: Seq<AttachedRepository>,
) -> Seq<RepoCatalogRow> {
    let q = query_text(filter);
    let local = local_rows(candidates, q);
    let local_names = rows_names(local);
    github_rows(available, q, local_names) + local + pending_rows(pending, q) + failed_rows(
        failed,
        q,
    ) + attached_rows(attached, q, available_names(available), local_names)
}

/// The catalog rows in catalog order.
pub open spec fn catalog(
    filter: Seq<char>,
    available: Seq<AvailableRepository>,
    candidates: Seq<RepositoryCandidate>,
    pending: Seq<RepositoryCandidatePath>,
    failed: Seq<String>,
    attached: Seq<AttachedRepository>,
) -> Seq<RepoCatalogRow> {
    isort(
        unsorted_catalog(filter, available, candidates, pending, failed, attached),
        row_before(attached_names(attached)),
    )
}

impl RepoCatalogRow {
    /// The repository name the row shows.
    pub fn name(&self) -> (r: String)
        ensures
            r@ == row_name(*self),
    {
        match self {
            RepoCatalogRow::GitHub(a) => clone_string(&a.name_with_owner),
            RepoCatalogRow::Local(c) => clone_string(&c.name_with_owner),
            RepoCatalogRow::PendingLocal { path, .. } => clone_string(path),
            RepoCatalogRow::Attached(a) => clone_string(&a.name_with_owner),
        }
    }

    /// The secondary text of the row.
    pub fn meta(&self) -> (r: String)
        ensures
            r@ == row_meta(*self),
    {
        match self {
            RepoCatalogRow::GitHub(a) => concat2("github default ", a.default_branch.as_str()),
            RepoCatalogRow::Local(c) => {
                let mut r = concat3("local ", c.branch.as_str(), " ");
                push_str(&mut r, c.path.as_str());
                r
            },
            RepoCatalogRow::PendingLocal { path, failed } => {
                if *failed {
                    concat2("local failed ", path.as_str())
                } else {
                    concat2("local pending ", path.as_str())
                }
            },
            RepoCatalogRow::Attached(a) => concat2("attached ", a.branch.as_str()),
        }
    }
}

/// An executable copy of a row.
pub fn clone_row(r: &RepoCatalogRow) -> (c: RepoCatalogRow)
    ensures
        c == *r,
{
    match r {
        RepoCatalogRow::GitHub(a) => RepoCatalogRow::GitHub(clone_available(a)),
        RepoCatalogRow::Local(c) => RepoCatalogRow::Local(clone_candidate(c)),
        RepoCatalogRow::PendingLocal { path, failed } => RepoCatalogRow::PendingLocal {
            path: clone_string(path),
            failed: *failed,
        },
        RepoCatalogRow::Attached(a) => RepoCatalogRow::Attached(clone_attached(a)),
    }
}

/// Whether an attached repository has the name.
pub fn attached_has(attached: &Vec<AttachedRepository>, name: &str) -> (r: bool)
    ensures
        r == attached_names(attached@).contains(name@),
{
    let mut i: usize = 0;
    while i < attached.len()
        invariant
            i <= attached.len(),
            forall|k: int| 0 <= k < i ==> attached@[k].name_with_owner@ != name@,
        decreases attached.len() - i,
    {
        if str_eq(attached[i].name_with_owner.as_str(), name) {
            assert(attached_names(attached@)[i as int] == name@);
            return true;
        }
        i = i + 1;
    }
    proof {
        if attached_names(attached@).contains(name@) {
            let k = choose|k: int|
                0 <= k < attached_names(attached@).len() && attached_names(attached@)[k] == name@;
            assert(attached@[k].name_with_owner@ == name@);
        }
    }
    false
}

/// Whether a GitHub repository has the name.
fn available_has(available: &Vec<AvailableRepository>, name: &str) -> (r: bool)
    ensures
        r == available_names(available@).contains(name@),
{
    let mut i: usize = 0;
    while i < available.len()
        invariant
            i <= available.len(),
            forall|k: int| 0 <= k < i ==> available@[k].name_with_owner@ != name@,
        decreases available.len() - i,
    {
        if str_eq(available[i].name_with_owner.as_str(), name) {
            assert(available_names(available@)[i as int] == name@);
            return true;
        }
        i = i + 1;
    }
    proof {
        if available_names(available@).contains(name@) {
            let k = choose|k: int|
                0 <= k < available_names(available@).len() && available_names(available@)[k]
                    == name@;
            assert(available@[k].name_with_owner@ == name@);
        }
    }
    false
}

/// Whether a row has the name.
fn rows_have(rows: &Vec<RepoCatalogRow>, name: &str) -> (r: bool)
    ensures
        r == rows_names(rows@).contains(name@),
{
    let mut i: usize = 0;
    while i < rows.len()
        invariant
            i <= rows.len(),
            forall|k: int| 0 <= k < i ==> row_name(rows@[k]) != name@,
        decreases rows.len() - i,
    {
        let n = rows[i].name();
        if str_eq(n.as_str(), name) {
            assert(rows_names(rows@)[i as int] == name@);
            return true;
        }
        i = i + 1;
    }
    proof {
        if rows_names(rows@).contains(name@) {
            let k = choose|k: int|
                0 <= k < rows_names(rows@).len() && rows_names(rows@)[k] == name@;
            assert(row_name(rows@[k]) == name@);
        }
    }
    false
}

/// Whether a name matches the query.
pub fn matches_name(name: &str, q: &str) -> (r: bool)
    ensures
        r == name_matches(name@, q@),
{
    if chars_of(q).len() == 0 {
        return true;
    }
    let l = to_lower(name);
    contains(l.as_str(), q)
}

/// Whether a candidate matches the query.
fn matches_candidate(c: &RepositoryCandidate, q: &str) -> (r: bool)
    ensures
        r == candidate_matches(*c, q@),
{
    if chars_of(q).len() == 0 {
        return true;
    }
    let n = to_lower(c.name_with_owner.as_str());
    if contains(n.as_str(), q) {
        return true;
    }
    let b = to_lower(c.branch.as_str());
    if contains(b.as_str(), q) {
        return true;
    }
    let p = to_lower(c.path.as_str());
    contains(p.as_str(), q)
}

/// The rank of a row.
fn rank_of(row: &RepoCatalogRow, attached: &Vec<AttachedRepository>) -> (r: u8)
    ensures
        r as int == row_rank(*row, attached_names(attached@)),
{
    let name = row.name();
    if attached_has(attached, name.as_str()) {
        return 0;
    }
    match row {
        RepoCatalogRow::Local(_) | RepoCatalogRow::PendingLocal { .. } => 1,
        _ => 2,
    }
}

/// Whether row `a` comes before row `b` in catalog order.
pub fn row_comes_before(a: &RepoCatalogRow, b: &RepoCatalogRow, attached: &Vec<AttachedRepository>) -> (r: bool)
    ensures
        r == row_before(attached_names(attached@))(*a, *b),
{
    let ra = rank_of(a, attached);
    let rb = rank_of(b, attached);
    if ra != rb {
        return ra < rb;
    }
    let na = a.name();
    let nb = b.name();
    match compare_text(na.as_str(), nb.as_str()) {
        Order3::Less => true,
        Order3::Greater => false,
        Order3::Equal => {
            let ma = a.meta();
            let mb = b.meta();
            match compare_text(ma.as_str(), mb.as_str()) {
                Order3::Less => true,
                _ => false,
            }
        },
    }
}

/// Sorts rows stably into catalog order.
pub fn sort_rows(rows: &Vec<RepoCatalogRow>, attached: &Vec<AttachedRepository>) -> (r: Vec<RepoCatalogRow>)
    ensures
        r@ == isort(rows@, row_before(attached_names(attached@))),
{
    let ghost before = row_before(attached_names(attached@));
    let mut out: Vec<RepoCatalogRow> = Vec::new();
    let mut i: usize = 0;
    assert(rows@.take(0) =~= Seq::<RepoCatalogRow>::empty());
    while i < rows.len()
        invariant
            i <= rows.len(),
            before == row_before(attached_names(attached@)),
            out@ == isort(rows@.take(i as int), before),
        decreases rows.len() - i,
    {
        let x = clone_row(&rows[i]);
        let mut p: usize = 0;
        proof {
            lemma_first_after(out@, x, before, 0);
        }
        loop
            invariant
                p <= out.len(),
                before == row_before(attached_names(attached@)),
                first_after(out@, x, before, 0) == first_after(out@, x, before, p as int),
            ensures
                p <= out.len(),
                first_after(out@, x, before, 0) == first_after(out@, x, before, p as int),
                p == out.len() || before(x, out@[p as int]),
            decreases out.len() - p,
        {
            if p >= out.len() {
                break;
            }
            if row_comes_before(&x, &out[p], attached) {
                break;
            }
            p = p + 1;
        }
        proof {
            assert(first_after(out@, x, before, p as int) == p);
            assert(rows@.take(i + 1).drop_last() =~= rows@.take(i as int));
            assert(rows@.take(i + 1).last() == rows@[i as int]);
        }
        out.insert(p, x);
        i = i + 1;
        assert(out@ == insert_sorted(isort(rows@.take(i - 1), before), x, before));
    }
    assert(rows@.take(rows@.len() as int) =~= rows@);
    out
}

/// Builds the catalog rows in catalog order.
pub fn build_catalog(
    filter: &str,
    available: &Vec<AvailableRepository>,
    candidates: &Vec<RepositoryCandidate>,
    pending: &Vec<RepositoryCandidatePath>,
    failed: &Vec<String>,
    attached: &Vec<AttachedRepository>,
) -> (r: Vec<RepoCatalogRow>)
    ensures
        r@ == catalog(filter@, available@, candidates@, pending@, failed@, attached@),
{
    let trimmed = trim_exec(filter);
    let q = to_lower(trimmed.as_str());
    let ghost qs = query_text(filter@);
    assert(q@ == qs);
    // Local rows.
    let mut local: Vec<RepoCatalogRow> = Vec::new();
    let mut i: usize = 0;
    while i < candidates.len()
        invariant
            i <= candidates.len(),
            q@ == qs,
            local@ == local_rows(candidates@.take(i as int), qs),
        decreases candidates.len() - i,
    {
        proof {
            assert(candidates@.take(i + 1).drop_last() =~= candidates@.take(i as int));
        }
        if matches_candidate(&candidates[i], q.as_str()) {
            local.push(RepoCatalogRow::Local(clone_candidate(&candidates[i])));
        }
        i = i + 1;
    }
    assert(candidates@.take(candidates@.len() as int) =~= candidates@);
    let ghost local_names = rows_names(local@);
    // GitHub rows.
    let mut rows: Vec<RepoCatalogRow> = Vec::new();
    let mut i: usize = 0;
    while i < available.len()
        invariant
            i <= available.len(),
            q@ == qs,
            local_names == rows_names(local@),
            rows@ == github_rows(available@.take(i as int), qs, local_names),
        decreases available.len() - i,
    {
        proof {
            assert(available@.take(i + 1).drop_last() =~= available@.take(i as int));
        }
        let name = available[i].name_with_owner.as_str();
        if matches_name(name, q.as_str()) && !rows_have(&local, name) {
            rows.push(RepoCatalogRow::GitHub(clone_available(&available[i])));
        }
        i = i + 1;
    }
    assert(available@.take(available@.len() as int) =~= available@);
    let ghost github = rows@;
    // Local rows follow.
    let mut i: usize = 0;
    while i < local.len()
        invariant
            i <= local.len(),
            rows@ == github + local@.take(i as int),
        decreases local.len() - i,
    {
        rows.push(clone_row(&local[i]));
        i = i + 1;
        assert(rows@ =~= github + local@.take(i as int));
    }
    assert(local@.take(local@.len() as int) =~= local@);
    let ghost before_pending = rows@;
    // Pending rows.
    let mut extra: Vec<RepoCatalogRow> = Vec::new();
    let mut i: usize = 0;
    while i < pending.len()
        invariant
            i <= pending.len(),
            q@ == qs,
            extra@ == pending_rows(pending@.take(i as int), qs),
        decreases pending.len() - i,
    {
        proof {
            assert(pending@.take(i + 1).drop_last() =~= pending@.take(i as int));
        }
        if matches_name(pending[i].path.as_str(), q.as_str()) {
            extra.push(
                RepoCatalogRow::PendingLocal { path: clone_string(&pending[i].path), failed: false },
            );
        }
        i = i + 1;
    }
    assert(pending@.take(pending@.len() as int) =~= pending@);
    let ghost pend = extra@;
    // Failed rows.
    let mut fails: Vec<RepoCatalogRow> = Vec::new();
    let mut i: usize = 0;
    while i < failed.len()
        invariant
            i <= failed.len(),
            q@ == qs,
            fails@ == failed_rows(failed@.take(i as int), qs),
        decreases failed.len() - i,
    {
        proof {
            assert(failed@.take(i + 1).drop_last() =~= failed@.take(i as int));
        }
        if matches_name(failed[i].as_str(), q.as_str()) {
            fails.push(RepoCatalogRow::PendingLocal { path: clone_string(&failed[i]), failed: true });
        }
        i = i + 1;
    }
    assert(failed@.take(failed@.len() as int) =~= failed@);
    // Attached rows.
    let mut att: Vec<RepoCatalogRow> = Vec::new();
    let mut i: usize = 0;
    while i < attached.len()
        invariant
            i <= attached.len(),
            q@ == qs,
            local_names == rows_names(local@),
            att@ == attached_rows(
                attached@.take(i as int),
                qs,
                available_names(available@),
                local_names,
            ),
        decreases attached.len() - i,
    {
        proof {
            assert(attached@.take(i + 1).drop_last() =~= attached@.take(i as int));
        }
        let name = attached[i].name_with_owner.as_str();
        if matches_name(name, q.as_str()) && !available_has(available, name) && !rows_have(
            &local,
            name,
        ) {
            att.push(RepoCatalogRow::Attached(clone_attached(&attached[i])));
        }
        i = i + 1;
    }
    assert(attached@.take(attached@.len() as int) =~= attached@);
    rows.append(&mut extra);
    rows.append(&mut fails);
    rows.append(&mut att);
    assert(rows@ =~= unsorted_catalog(
        filter@,
        available@,
        candidates@,
        pending@,
        failed@,
        attached@,
    ));
    sort_rows(&rows, attached)
}

/// The catalog holds exactly the rows of its sources that match the filter
/// (a permutation of them), with attached repositories first, then local
/// ones, then GitHub ones, each group by name: no row comes after one it
/// should precede.
pub proof fn law_catalog_is_ordered_permutation(
    filter: Seq<char>,
    available: Seq<AvailableRepository>,
    candidates: Seq<RepositoryCandidate>,
    pending: Seq<RepositoryCandidatePath>,
    failed: Seq<String>,
    attached: Seq<AttachedRepository>,
)
    ensures
        catalog(filter, available, candidates, pending, failed, attached).to_multiset()
            == unsorted_catalog(filter, available, candidates, pending, failed, attached).to_multiset(),
        crate::sorting::in_order(
            catalog(filter, available, candidates, pending, failed, attached),
            row_before(attached_names(attached)),
        ),
{
    let rows = unsorted_catalog(filter, available, candidates, pending, failed, attached);
    crate::sorting::law_isort_permutes(rows, row_before(attached_names(attached)));
    lemma_row_before_strict(attached_names(attached));
    crate::sorting::law_isort_in_order(rows, row_before(attached_names(attached)));
}

} // verus!
