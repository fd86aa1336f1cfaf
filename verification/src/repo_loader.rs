use vstd::prelude::*;

use crate::domain::{
    AvailableRepository, RepositoryCandidatePath, RepositoryWorkspace, WorkRepositoryList,
};
use crate::error::WorkonError;
use crate::repo_load::{RepoAttachedData, RepoLoadMessage};

verus! {

/// What the repository context loader learned from one piece of outside
/// work.
#[derive(Debug)]
pub enum LoaderInput {
    /// The configured repository workspaces.
    Workspaces(Result<Vec<RepositoryWorkspace>, WorkonError>),
    /// The local paths that may hold repositories.
    CandidatePaths(Result<Vec<RepositoryCandidatePath>, WorkonError>),
    /// The repositories attached to the Work.
    Attached(Result<WorkRepositoryList, WorkonError>),
    /// The GitHub catalog.
    Catalog(Result<Vec<AvailableRepository>, WorkonError>),
    /// The inspections of the candidate paths all ended.
    InspectionsJoined,
}

/// The next piece of outside work of the loader.
#[derive(Debug, Clone, Copy, PartialEq, Eq, Structural)]
pub enum LoaderWork {
    LoadCandidatePaths,
    LoadAttached,
    LoadCatalog,
    JoinInspections,
    Stop,
}

/// What the loader does after an input: the messages to send to the view
/// (the loader stops when `must_deliver` and the view is gone), the
/// candidate paths to inspect in the background, and the next work.
#[derive(Debug)]
pub struct LoaderOutput {
    pub messages: Vec<RepoLoadMessage>,
    pub must_deliver: bool,
    pub inspect: Option<Vec<RepositoryCandidatePath>>,
    pub next: LoaderWork,
}

/// The loader of a repository context: it loads the workspaces first, then
/// the candidate paths (only when a workspace exists), the attached
/// repositories, the GitHub catalog, and ends once the inspections ended.
#[derive(Debug, Clone, PartialEq, Eq)]
pub struct RepoLoader {
    pub has_workspaces: bool,
}

/// How the loader takes an input: `a` before, `b` after.
pub open spec fn loader_stepped(a: RepoLoader, b: RepoLoader, input: LoaderInput, out: LoaderOutput) -> bool {
    match input {
        LoaderInput::Workspaces(Ok(ws)) => {
            &&& b.has_workspaces == (ws@.len() > 0)
            &&& out.messages@ == seq![RepoLoadMessage::Workspaces(Ok(ws))]
            &&& out.must_deliver
            &&& out.inspect is None
            &&& out.next == if ws@.len() > 0 {
                LoaderWork::LoadCandidatePaths
            } else {
                LoaderWork::LoadAttached
            }
        },
        LoaderInput::Workspaces(Err(e)) => {
            &&& !b.has_workspaces
            &&& out.messages@ == seq![RepoLoadMessage::Workspaces(Err(e))]
            &&& !out.must_deliver
            &&& out.inspect is None
            &&& out.next == LoaderWork::LoadAttached
        },
        LoaderInput::CandidatePaths(Ok(ps)) => {
            &&& b == a
            &&& out.messages@.len() == 1
            &&& out.messages@[0] matches RepoLoadMessage::CandidatePaths(Ok(sent)) && sent@ == ps@
            &&& out.must_deliver
            &&& out.inspect == Some(ps)
            &&& out.next == LoaderWork::LoadAttached
        },
        LoaderInput::CandidatePaths(Err(e)) => {
            &&& b == a
            &&& out.messages@ == seq![RepoLoadMessage::CandidatePaths(Err(e))]
            &&& !out.must_deliver
            &&& out.inspect is None
            &&& out.next == LoaderWork::LoadAttached
        },
        LoaderInput::Attached(Ok(list)) => {
            &&& b == a
            &&& out.messages@ == seq![
                RepoLoadMessage::Attached(Ok(RepoAttachedData { work: list.work, attached: list.repositories })),
            ]
            &&& out.must_deliver
            &&& out.inspect is None
            &&& out.next == LoaderWork::LoadCatalog
        },
        LoaderInput::Attached(Err(e)) => {
            &&& b == a
            &&& out.messages@ == seq![RepoLoadMessage::Attached(Err(e)), RepoLoadMessage::Finished]
            &&& !out.must_deliver
            &&& out.inspect is None
            &&& out.next == LoaderWork::Stop
        },
        LoaderInput::Catalog(result) => {
            &&& b == a
            &&& out.messages@ == seq![RepoLoadMessage::Catalog(result)]
            &&& !out.must_deliver
            &&& out.inspect is None
            &&& out.next == LoaderWork::JoinInspections
        },
        LoaderInput::InspectionsJoined => {
            &&& b == a
            &&& out.messages@ == if a.has_workspaces {
                seq![RepoLoadMessage::CandidateInspectionsFinished, RepoLoadMessage::Finished]
            } else {
                seq![RepoLoadMessage::Finished]
            }
            &&& !out.must_deliver
            &&& out.inspect is None
            &&& out.next == LoaderWork::Stop
        },
    }
}

/// A copy of a candidate path list.
fn clone_paths(v: &Vec<RepositoryCandidatePath>) -> (r: Vec<RepositoryCandidatePath>)
    ensures
        r@ == v@,
{
    let mut r: Vec<RepositoryCandidatePath> = Vec::new();
    let mut i: usize = 0;
    while i < v.len()
        invariant
            i <= v@.len(),
            r@ == v@.take(i as int),
        decreases v@.len() - i,
    {
        let p = &v[i];
        let cached = match &p.cached {
            Some(c) => Some(crate::domain::clone_candidate(c)),
            None => None,
        };
        r.push(RepositoryCandidatePath { path: crate::text::clone_string(&p.path), cached });
        proof {
            assert(r@.last() == v@[i as int]);
        }
        i = i + 1;
        assert(r@ =~= v@.take(i as int));
    }
    assert(v@.take(v@.len() as int) =~= v@);
    r
}

fn one(m: RepoLoadMessage) -> (r: Vec<RepoLoadMessage>)
    ensures
        r@ == seq![m],
{
    let mut r = Vec::new();
    r.push(m);
    assert(r@ =~= seq![m]);
    r
}

fn two(m: RepoLoadMessage, n: RepoLoadMessage) -> (r: Vec<RepoLoadMessage>)
    ensures
        r@ == seq![m, n],
{
    let mut r = Vec::new();
    r.push(m);
    r.push(n);
    assert(r@ =~= seq![m, n]);
    r
}

impl RepoLoader {
    /// A loader that has not loaded anything yet; its first work is to
    /// load the workspaces.
    pub fn new() -> (r: RepoLoader)
        ensures
            !r.has_workspaces,
    {
        RepoLoader { has_workspaces: false }
    }

    /// Takes one input and says what to send and what to do next.
    pub fn step(&mut self, input: LoaderInput) -> (out: LoaderOutput)
        ensures
            loader_stepped(*old(self), *final(self), input, out),
    {
        match input {
            LoaderInput::Workspaces(Ok(workspaces)) => {
                let any = workspaces.len() > 0;
                self.has_workspaces = any;
                LoaderOutput {
                    messages: one(RepoLoadMessage::Workspaces(Ok(workspaces))),
                    must_deliver: true,
                    inspect: None,
                    next: if any {
                        LoaderWork::LoadCandidatePaths
                    } else {
                        LoaderWork::LoadAttached
                    },
                }
            },
            LoaderInput::Workspaces(Err(error)) => {
                self.has_workspaces = false;
                LoaderOutput {
                    messages: one(RepoLoadMessage::Workspaces(Err(error))),
                    must_deliver: false,
                    inspect: None,
                    next: LoaderWork::LoadAttached,
                }
            },
            LoaderInput::CandidatePaths(Ok(paths)) => {
                let sent = clone_paths(&paths);
                LoaderOutput {
                    messages: one(RepoLoadMessage::CandidatePaths(Ok(sent))),
                    must_deliver: true,
                    inspect: Some(paths),
                    next: LoaderWork::LoadAttached,
                }
            },
            LoaderInput::CandidatePaths(Err(error)) => LoaderOutput {
                messages: one(RepoLoadMessage::CandidatePaths(Err(error))),
                must_deliver: false,
                inspect: None,
                next: LoaderWork::LoadAttached,
            },
            LoaderInput::Attached(Ok(list)) => LoaderOutput {
                messages: one(
                    RepoLoadMessage::Attached(
                        Ok(RepoAttachedData { work: list.work, attached: list.repositories }),
                    ),
                ),
                must_deliver: true,
                inspect: None,
                next: LoaderWork::LoadCatalog,
            },
            LoaderInput::Attached(Err(error)) => LoaderOutput {
                messages: two(RepoLoadMessage::Attached(Err(error)), RepoLoadMessage::Finished),
                must_deliver: false,
                inspect: None,
                next: LoaderWork::Stop,
            },
            LoaderInput::Catalog(result) => LoaderOutput {
                messages: one(RepoLoadMessage::Catalog(result)),
                must_deliver: false,
                inspect: None,
                next: LoaderWork::JoinInspections,
            },
            LoaderInput::InspectionsJoined => {
                let messages = if self.has_workspaces {
                    two(RepoLoadMessage::CandidateInspectionsFinished, RepoLoadMessage::Finished)
                } else {
                    one(RepoLoadMessage::Finished)
                };
                LoaderOutput { messages, must_deliver: false, inspect: None, next: LoaderWork::Stop }
            },
        }
    }
}

} // verus!
