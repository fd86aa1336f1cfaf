use vstd::prelude::*;

use crate::text::{clone_string, texts};

verus! {

/// One active Work as listed from storage.
#[derive(Debug, Clone, PartialEq, Eq)]
pub struct WorkSummary {
    pub title: String,
    pub slug: String,
    pub goal: String,
    pub intent_id: String,
    pub path: String,
}

/// The texts of a [`WorkSummary`].
pub struct WorkView {
    pub title: Seq<char>,
    pub slug: Seq<char>,
    pub goal: Seq<char>,
    pub intent_id: Seq<char>,
    pub path: Seq<char>,
}

impl View for WorkSummary {
    type V = WorkView;

    open spec fn view(&self) -> WorkView {
        WorkView {
            title: self.title@,
            slug: self.slug@,
            goal: self.goal@,
            intent_id: self.intent_id@,
            path: self.path@,
        }
    }
}

/// The active Works.
#[derive(Debug, Clone, PartialEq, Eq)]
pub struct WorkList {
    pub works: Vec<WorkSummary>,
}

/// The views of a sequence of Works.
pub open spec fn work_views(ws: Seq<WorkSummary>) -> Seq<WorkView> {
    ws.map_values(|w: WorkSummary| w@)
}

/// A Work that was opened.
#[derive(Debug, Clone, PartialEq, Eq)]
pub struct OpenedWork {
    pub title: String,
    pub slug: String,
    pub goal: String,
    pub intent_id: String,
    pub path: String,
}

/// A Work that was created.
#[derive(Debug, Clone, PartialEq, Eq)]
pub struct CreatedWork {
    pub title: String,
    pub slug: String,
    pub goal: String,
    pub intent_id: String,
    pub path: String,
    /// The agent instruction files written into the Work folder.
    pub instruction_files: Vec<String>,
}

/// A Work that was moved to the archive.
#[derive(Debug, Clone, PartialEq, Eq)]
pub struct ArchivedWork {
    pub title: String,
    pub slug: String,
    pub path: String,
    pub archive_path: String,
}

/// A repository of the active GitHub account.
#[derive(Debug, Clone, PartialEq, Eq)]
pub struct AvailableRepository {
    pub name_with_owner: String,
    pub default_branch: String,
    pub url: String,
    pub ssh_url: String,
}

/// A repository linked to a Work.
#[derive(Debug, Clone, PartialEq, Eq)]
pub struct AttachedRepository {
    pub name_with_owner: String,
    pub branch: String,
    pub path: String,
    pub default_branch: String,
    pub url: String,
}

/// A local checkout found in a repository workspace.
#[derive(Debug, Clone, PartialEq, Eq)]
pub struct RepositoryCandidate {
    pub name_with_owner: String,
    pub branch: String,
    pub path: String,
    pub url: String,
}

/// A folder Workon may scan and create repositories in.
#[derive(Debug, Clone, PartialEq, Eq)]
pub struct RepositoryWorkspace {
    pub path: String,
}

/// A local path that may hold a repository, still to be inspected.
#[derive(Debug, Clone, PartialEq, Eq)]
pub struct RepositoryCandidatePath {
    pub path: String,
    pub cached: Option<RepositoryCandidate>,
}

/// What inspecting a candidate path found.
#[derive(Debug, Clone, PartialEq, Eq)]
pub struct RepositoryCandidateInspection {
    pub path: String,
    pub candidate: Option<RepositoryCandidate>,
    pub cached: bool,
}

/// The repositories of a Work after a change.
#[derive(Debug, Clone, PartialEq, Eq)]
pub struct RepositoryContextChange {
    pub work: WorkSummary,
    pub repositories: Vec<AttachedRepository>,
}

/// The repositories attached to a Work.
#[derive(Debug, Clone, PartialEq, Eq)]
pub struct WorkRepositoryList {
    pub work: WorkSummary,
    pub repositories: Vec<AttachedRepository>,
}

/// Where a reusable intent profile comes from.
#[derive(Debug, Clone, Copy, PartialEq, Eq)]
pub enum IntentSource {
    BuiltIn,
    Custom,
}

/// A reusable intent profile.
#[derive(Debug, Clone, PartialEq, Eq)]
pub struct IntentProfile {
    pub id: String,
    pub name: String,
    pub summary: String,
    pub skill_weights: Vec<String>,
    pub mcp_weights: Vec<String>,
    pub instructions: Vec<String>,
}

/// An intent profile with its source, as shown or changed.
#[derive(Debug, Clone, PartialEq, Eq)]
pub struct IntentProfileChange {
    pub intent: IntentProfile,
    pub source: IntentSource,
}

/// One line of the intent catalog.
#[derive(Debug, Clone, PartialEq, Eq)]
pub struct IntentSummary {
    pub id: String,
    pub name: String,
    pub summary: String,
    pub source: IntentSource,
}

/// The intent catalog.
#[derive(Debug, Clone, PartialEq, Eq)]
pub struct IntentList {
    pub intents: Vec<IntentSummary>,
}

/// The GitHub repositories the user can reach.
#[derive(Debug, Clone, PartialEq, Eq)]
pub struct RepositoryCatalog {
    pub repositories: Vec<AvailableRepository>,
}

/// The local repository candidates found for a Work.
#[derive(Debug, Clone, PartialEq, Eq)]
pub struct RepositoryCandidateList {
    pub work: WorkSummary,
    pub candidates: Vec<RepositoryCandidate>,
}

/// The configured repository workspaces.
#[derive(Debug, Clone, PartialEq, Eq)]
pub struct RepositoryWorkspaceList {
    pub workspaces: Vec<RepositoryWorkspace>,
}

/// A Work whose intent changed.
#[derive(Debug, Clone, PartialEq, Eq)]
pub struct WorkIntentSwitch {
    pub work: WorkSummary,
    pub previous_intent_id: String,
    pub intent: IntentProfile,
    /// The agent instruction files rewritten in the Work folder.
    pub instruction_files: Vec<String>,
}

/// An executable copy of a Work.
pub fn clone_work(w: &WorkSummary) -> (r: WorkSummary)
    ensures
        r == *w,
        r@ == w@,
{
    WorkSummary {
        title: clone_string(&w.title),
        slug: clone_string(&w.slug),
        goal: clone_string(&w.goal),
        intent_id: clone_string(&w.intent_id),
        path: clone_string(&w.path),
    }
}

/// An executable copy of an attached repository.
pub fn clone_attached(r: &AttachedRepository) -> (c: AttachedRepository)
    ensures
        c == *r,
        c.name_with_owner@ == r.name_with_owner@,
        c.branch@ == r.branch@,
        c.path@ == r.path@,
        c.default_branch@ == r.default_branch@,
        c.url@ == r.url@,
{
    AttachedRepository {
        name_with_owner: clone_string(&r.name_with_owner),
        branch: clone_string(&r.branch),
        path: clone_string(&r.path),
        default_branch: clone_string(&r.default_branch),
        url: clone_string(&r.url),
    }
}

/// An executable copy of a GitHub repository.
pub fn clone_available(r: &AvailableRepository) -> (c: AvailableRepository)
    ensures
        c == *r,
{
    AvailableRepository {
        name_with_owner: clone_string(&r.name_with_owner),
        default_branch: clone_string(&r.default_branch),
        url: clone_string(&r.url),
        ssh_url: clone_string(&r.ssh_url),
    }
}

/// An executable copy of a local repository candidate.
pub fn clone_candidate(r: &RepositoryCandidate) -> (c: RepositoryCandidate)
    ensures
        c == *r,
{
    RepositoryCandidate {
        name_with_owner: clone_string(&r.name_with_owner),
        branch: clone_string(&r.branch),
        path: clone_string(&r.path),
        url: clone_string(&r.url),
    }
}

/// An executable copy of a list of attached repositories.
pub fn clone_attached_list(v: &Vec<AttachedRepository>) -> (c: Vec<AttachedRepository>)
    ensures
        c@ == v@,
{
    let mut c: Vec<AttachedRepository> = Vec::new();
    let mut i: usize = 0;
    while i < v.len()
        invariant
            i <= v.len(),
            c@ == v@.subrange(0, i as int),
        decreases v.len() - i,
    {
        c.push(clone_attached(&v[i]));
        i = i + 1;
        assert(c@ =~= v@.subrange(0, i as int));
    }
    assert(c@ =~= v@);
    c
}

/// The names of attached repositories.
pub open spec fn attached_names(v: Seq<AttachedRepository>) -> Seq<Seq<char>> {
    v.map_values(|r: AttachedRepository| r.name_with_owner@)
}

/// Keeps the elements for which `p` holds, in order.
pub open spec fn keep<T>(s: Seq<T>, p: spec_fn(T) -> bool) -> Seq<T>
    decreases s.len(),
{
    if s.len() == 0 {
        Seq::empty()
    } else if p(s.last()) {
        keep(s.drop_last(), p).push(s.last())
    } else {
        keep(s.drop_last(), p)
    }
}

/// One more element, kept or not.
pub proof fn lemma_keep_step<T>(s: Seq<T>, i: int, p: spec_fn(T) -> bool)
    requires
        0 <= i < s.len(),
    ensures
        keep(s.take(i + 1), p) == if p(s[i]) {
            keep(s.take(i), p).push(s[i])
        } else {
            keep(s.take(i), p)
        },
{
    assert(s.take(i + 1).drop_last() =~= s.take(i));
}

/// `keep` never grows a sequence.
pub proof fn lemma_keep_len<T>(s: Seq<T>, p: spec_fn(T) -> bool)
    ensures
        keep(s, p).len() <= s.len(),
    decreases s.len(),
{
    if s.len() > 0 {
        lemma_keep_len(s.drop_last(), p);
    }
}

} // verus!
