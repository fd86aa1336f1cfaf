use vstd::prelude::*;

use crate::domain::{RepositoryCandidate, RepositoryWorkspace};
use crate::error::{error_text, WorkonError};
use crate::events::{Toast, ToastKind, TraceKind};
use crate::repo_load::{logged_with, repo_loading_sources_message, sources_text};
use crate::repo_picker::{candidates_updated, loading_started, workspaces_updated, RepoPickerState, RepoStatus};
use crate::text::{concat2, concat3, decimal, decimal_string, join, join_strings, owned, texts};
use crate::tui_state::{traced_with, TuiState};

verus! {

/// A change of the configured repository workspaces, asked from the
/// repository context of a Work.
#[derive(Debug, Clone, PartialEq, Eq)]
pub enum RepoWorkspaceRequest {
    Add { work_slug: String, paths: Vec<String> },
    Remove { work_slug: String, path: String },
}

/// One result of a workspace change.
#[derive(Debug)]
pub enum RepoWorkspaceMessage {
    Workspaces(Result<Vec<RepositoryWorkspace>, WorkonError>),
    Candidates(Result<Vec<RepositoryCandidate>, WorkonError>),
    Finished,
}

impl RepoWorkspaceRequest {
    /// The Work whose context asked for the change.
    pub fn work_slug(&self) -> (r: &str)
        ensures
            r@ == match *self {
                RepoWorkspaceRequest::Add { work_slug, .. } => work_slug@,
                RepoWorkspaceRequest::Remove { work_slug, .. } => work_slug@,
            },
    {
        match self {
            RepoWorkspaceRequest::Add { work_slug, .. } => work_slug.as_str(),
            RepoWorkspaceRequest::Remove { work_slug, .. } => work_slug.as_str(),
        }
    }
}

/// `b` is `a` with one repository log line and one trace line recorded.
pub open spec fn recorded(a: TuiState, b: TuiState, log: Seq<char>, trace: Seq<char>) -> bool {
    &&& b == TuiState { repo: b.repo, trace: b.trace, ..a }
    &&& b.repo == RepoPickerState { logs: b.repo.logs, ..a.repo }
    &&& logged_with(a.repo.logs@, b.repo.logs@, TraceKind::Sync, log)
    &&& traced_with(a.trace@, b.trace@, TraceKind::Sync, trace)
}

/// Records that workspaces were added.
pub fn record_repo_workspace_added(state: &mut TuiState, paths: &Vec<String>, workspace_count: usize)
    ensures
        recorded(
            *old(state),
            *final(state),
            "repo workspace added "@ + join(texts(paths@), ", "@),
            "repo workspaces configured: "@ + decimal(workspace_count as nat),
        ),
{
    let configured = join_strings(paths.as_slice(), ", ");
    state.push_repo_log(TraceKind::Sync, concat2("repo workspace added ", configured.as_str()));
    let n = decimal_string(workspace_count);
    state.push_trace(TraceKind::Sync, concat2("repo workspaces configured: ", n.as_str()));
}

/// Records that a workspace was removed.
pub fn record_repo_workspace_removed(state: &mut TuiState, path: &str, workspace_count: usize)
    ensures
        recorded(
            *old(state),
            *final(state),
            "repo workspace removed "@ + path@,
            "repo workspaces configured: "@ + decimal(workspace_count as nat),
        ),
{
    state.push_repo_log(TraceKind::Sync, concat2("repo workspace removed ", path));
    let n = decimal_string(workspace_count);
    state.push_trace(TraceKind::Sync, concat2("repo workspaces configured: ", n.as_str()));
}

/// The repository log line for a workspace change that went through.
pub open spec fn workspace_change_log(request: RepoWorkspaceRequest) -> Seq<char> {
    match request {
        RepoWorkspaceRequest::Add { paths, .. } => "repo workspace added "@ + join(texts(paths@), ", "@),
        RepoWorkspaceRequest::Remove { path, .. } => "repo workspace removed "@ + path@,
    }
}

/// How the view takes one result of a workspace change: `a` before, `b`
/// after.
pub open spec fn workspace_applied(a: TuiState, b: TuiState, request: RepoWorkspaceRequest, m: RepoWorkspaceMessage) -> bool {
    match m {
        RepoWorkspaceMessage::Workspaces(Ok(ws)) => {
            let log = workspace_change_log(request);
            exists|m1: RepoPickerState, m2: TuiState|
                #[trigger] workspaces_updated(a.repo, m1, ws) && #[trigger] recorded(
                    TuiState { repo: m1, ..a },
                    m2,
                    log,
                    "repo workspaces configured: "@ + decimal(ws@.len()),
                ) && b == TuiState { repo: b.repo, ..m2 } && loading_started(
                    m2.repo,
                    b.repo,
                    sources_text(seq!["local"@]),
                )
        },
        RepoWorkspaceMessage::Workspaces(Err(e)) => {
            &&& b == TuiState { toast: b.toast, trace: b.trace, repo: b.repo, ..a }
            &&& b.toast matches Some(t) && t.kind == ToastKind::Error && t.title@
                == "Repo workspace failed"@ && t.message@ == error_text(e)
            &&& traced_with(a.trace@, b.trace@, TraceKind::Error, "repo workspace failed: "@ + error_text(e))
            &&& b.repo.status matches RepoStatus::Failed { message } && message@ == error_text(e)
        },
        RepoWorkspaceMessage::Candidates(Ok(cs)) => {
            &&& b == TuiState { repo: b.repo, ..a }
            &&& exists|m1: RepoPickerState| #[trigger] candidates_updated(a.repo, m1, cs)
                && b.repo == RepoPickerState { logs: b.repo.logs, ..m1 }
            &&& logged_with(a.repo.logs@, b.repo.logs@, TraceKind::Sync, "discovered "@ + decimal(cs@.len()) + " local repos"@)
        },
        RepoWorkspaceMessage::Candidates(Err(e)) => {
            &&& b == TuiState { repo: b.repo, trace: b.trace, ..a }
            &&& b.repo == RepoPickerState { logs: b.repo.logs, ..a.repo }
            &&& logged_with(a.repo.logs@, b.repo.logs@, TraceKind::Warn, "local repo discovery unavailable: "@ + error_text(e))
            &&& traced_with(a.trace@, b.trace@, TraceKind::Warn, "local repo discovery unavailable: "@ + error_text(e))
        },
        RepoWorkspaceMessage::Finished => b == a,
    }
}

fn apply_workspaces_result(state: &mut TuiState, request: &RepoWorkspaceRequest, result: Result<Vec<RepositoryWorkspace>, WorkonError>)
    requires
        old(state).wf(),
    ensures
        final(state).wf(),
        workspace_applied(*old(state), *final(state), *request, RepoWorkspaceMessage::Workspaces(result)),
{
    let ghost r0 = result;
    match result {
        Ok(workspaces) => {
            let count = workspaces.len();
            let ghost ws = workspaces;
            state.update_repo_workspaces_from_load(workspaces);
            let ghost m1 = state.repo;
            match request {
                RepoWorkspaceRequest::Add { paths, .. } => {
                    record_repo_workspace_added(state, paths, count);
                },
                RepoWorkspaceRequest::Remove { path, .. } => {
                    record_repo_workspace_removed(state, path.as_str(), count);
                },
            }
            let ghost m2 = *state;
            let mut names: Vec<String> = Vec::new();
            names.push(owned("local"));
            assert(texts(names@) =~= seq!["local"@]);
            let title = repo_loading_sources_message(&names);
            state.start_repo_loading(title);
            proof {
                let log = workspace_change_log(*request);
                assert(workspaces_updated(old(state).repo, m1, ws));
                assert(recorded(TuiState { repo: m1, ..*old(state) }, m2, log, "repo workspaces configured: "@ + decimal(ws@.len())));
            }
        },
        Err(error) => {
            let reason = error.message();
            state.toast = Some(Toast::error("Repo workspace failed", reason.as_str()));
            state.push_repo_log(TraceKind::Error, concat2("repo workspace failed: ", reason.as_str()));
            state.push_trace(TraceKind::Error, concat2("repo workspace failed: ", reason.as_str()));
            state.set_repo_failed(reason);
        },
    }
}

fn apply_candidates_result(state: &mut TuiState, result: Result<Vec<RepositoryCandidate>, WorkonError>)
    requires
        old(state).wf(),
    ensures
        final(state).wf(),
        forall|request: RepoWorkspaceRequest| workspace_applied(*old(state), *final(state), request, RepoWorkspaceMessage::Candidates(result)),
{
    match result {
        Ok(candidates) => {
            let count = candidates.len();
            let ghost cs = candidates;
            state.update_repo_candidates_from_load(candidates);
            let ghost m1 = state.repo;
            let n = decimal_string(count);
            state.push_repo_log(TraceKind::Sync, concat3("discovered ", n.as_str(), " local repos"));
            assert(candidates_updated(old(state).repo, m1, cs));
            assert(RepoPickerState { logs: state.repo.logs, ..m1 } == state.repo);
        },
        Err(error) => {
            let reason = error.message();
            state.push_repo_log(TraceKind::Warn, concat2("local repo discovery unavailable: ", reason.as_str()));
            state.push_trace(TraceKind::Warn, concat2("local repo discovery unavailable: ", reason.as_str()));
        },
    }
}

/// Takes one result of a workspace change.
pub fn apply_repo_workspace_message(state: &mut TuiState, request: &RepoWorkspaceRequest, message: RepoWorkspaceMessage)
    requires
        old(state).wf(),
    ensures
        final(state).wf(),
        workspace_applied(*old(state), *final(state), *request, message),
{
    match message {
        RepoWorkspaceMessage::Workspaces(result) => apply_workspaces_result(state, request, result),
        RepoWorkspaceMessage::Candidates(result) => apply_candidates_result(state, result),
        RepoWorkspaceMessage::Finished => {},
    }
}

/// The workspace change stopped without a result: the view shows a failure.
pub fn repo_workspace_stopped(state: &mut TuiState)
    ensures
        final(state).toast matches Some(t) && t.kind == ToastKind::Error && t.title@
            == "Repo workspace failed"@ && t.message@
            == "repository workspace job stopped before returning a result"@,
        traced_with(old(state).trace@, final(state).trace@, TraceKind::Error, "repo workspace job stopped before returning a result"@),
        final(state).repo.status matches RepoStatus::Failed { message } && message@
            == "repository workspace job stopped before returning a result"@,
{
    state.toast = Some(
        Toast::error("Repo workspace failed", "repository workspace job stopped before returning a result"),
    );
    state.push_trace(TraceKind::Error, owned("repo workspace job stopped before returning a result"));
    state.set_repo_failed(owned("repository workspace job stopped before returning a result"));
}

} // verus!
