use vstd::prelude::*;

use crate::domain::{
    AttachedRepository, AvailableRepository, RepositoryCandidateInspection,
    RepositoryCandidatePath, RepositoryWorkspace, WorkSummary,
};
use crate::error::{error_text, WorkonError};
use crate::events::{logged, Toast, ToastKind, TraceEvent, TraceKind};
use crate::repo_picker::{
    candidate_paths_updated, inspection_failed, inspection_updated, loading_finished,
    workspaces_updated, RepoPickerState, RepoStatus,
};
use crate::text::{concat2, concat3, decimal, decimal_string, join, owned, push_str};
use crate::tui_state::{index_set, traced_with, TuiMode, TuiState};

verus! {

/// The attached repositories of the Work whose context loads.
#[derive(Debug, Clone, PartialEq, Eq)]
pub struct RepoAttachedData {
    pub work: WorkSummary,
    pub attached: Vec<AttachedRepository>,
}

/// One result of the repository context loader.
#[derive(Debug)]
pub enum RepoLoadMessage {
    Attached(Result<RepoAttachedData, WorkonError>),
    Workspaces(Result<Vec<RepositoryWorkspace>, WorkonError>),
    CandidatePaths(Result<Vec<RepositoryCandidatePath>, WorkonError>),
    CandidateInspection { path: String, result: Result<RepositoryCandidateInspection, WorkonError> },
    CandidateInspectionsFinished,
    Catalog(Result<Vec<AvailableRepository>, WorkonError>),
    Finished,
}

/// The loading title for the sources still loading.
pub open spec fn sources_text(sources: Seq<Seq<char>>) -> Seq<char> {
    "Loading: "@ + join(sources, ", "@)
}

/// The loading title for the sources still loading.
pub fn repo_loading_sources_message(sources: &Vec<String>) -> (r: String)
    ensures
        r@ == sources_text(crate::text::texts(sources@)),
{
    let joined = crate::text::join_strings(sources.as_slice(), ", ");
    concat2("Loading: ", joined.as_str())
}

fn sources(a: &str, b: &str, c: &str, count: usize) -> (r: Vec<String>)
    requires
        1 <= count <= 3,
    ensures
        count == 1 ==> crate::text::texts(r@) == seq![a@],
        count == 2 ==> crate::text::texts(r@) == seq![a@, b@],
        count == 3 ==> crate::text::texts(r@) == seq![a@, b@, c@],
{
    let mut r: Vec<String> = Vec::new();
    r.push(owned(a));
    if count > 1 {
        r.push(owned(b));
    }
    if count > 2 {
        r.push(owned(c));
    }
    if count == 1 {
        assert(crate::text::texts(r@) =~= seq![a@]);
    } else if count == 2 {
        assert(crate::text::texts(r@) =~= seq![a@, b@]);
    } else {
        assert(crate::text::texts(r@) =~= seq![a@, b@, c@]);
    }
    r
}

/// The log of `b` is that of `a` with one event of the given kind and
/// text recorded.
pub open spec fn logged_with(a: Seq<TraceEvent>, b: Seq<TraceEvent>, kind: TraceKind, text: Seq<char>) -> bool {
    &&& b.len() > 0
    &&& b == logged(a, b.last())
    &&& b.last().kind == kind
    &&& b.last().message@ == text
}

/// The loading title of `b` is `text` when `a` was loading; otherwise the
/// status is kept.
pub open spec fn loading_title(a: RepoPickerState, b: RepoPickerState, text: Seq<char>) -> bool {
    if a.status is Loading {
        b.status is Loading && (b.status->Loading_message)@ == text
    } else {
        b.status == a.status
    }
}

/// How the view takes one loader result: `a` before, `b` after.
pub open spec fn load_applied(a: TuiState, b: TuiState, m: RepoLoadMessage) -> bool {
    match m {
        RepoLoadMessage::Attached(Ok(d)) => {
            &&& b == TuiState { attached_repositories: b.attached_repositories, repo: b.repo, ..a }
            &&& index_set(a.attached_repositories@, d.work.slug@, d.attached@, b.attached_repositories@)
            &&& b.repo == (RepoPickerState {
                work_slug: d.work.slug,
                work_title: d.work.title,
                attached: d.attached,
                pending_add: b.repo.pending_add,
                pending_link: b.repo.pending_link,
                pending_remove: b.repo.pending_remove,
                force_remove: false,
                status: b.repo.status,
                logs: b.repo.logs,
                ..a.repo
            }).clamped_state()
            &&& b.repo.nothing_pending()
            &&& loading_title(a.repo, b.repo, sources_text(seq!["workspaces"@, "local"@, "GitHub"@]))
            &&& logged_with(a.repo.logs@, b.repo.logs@, TraceKind::Sync, "loaded "@ + decimal(d.attached@.len()) + " attached repos"@)
        },
        RepoLoadMessage::Attached(Err(e)) => {
            &&& b == TuiState { toast: b.toast, trace: b.trace, repo: b.repo, ..a }
            &&& b.toast matches Some(t) && t.kind == ToastKind::Error && t.title@ == "Repos failed"@
                && t.message@ == error_text(e)
            &&& traced_with(a.trace@, b.trace@, TraceKind::Error, "repos failed: "@ + error_text(e))
            &&& b.repo == RepoPickerState { status: b.repo.status, logs: b.repo.logs, ..a.repo }
            &&& b.repo.status matches RepoStatus::Failed { message } && message@ == error_text(e)
            &&& logged_with(a.repo.logs@, b.repo.logs@, TraceKind::Error, error_text(e))
        },
        RepoLoadMessage::Workspaces(Ok(ws)) => {
            &&& b == TuiState { repo: b.repo, ..a }
            &&& exists|mid: RepoPickerState| #[trigger] workspaces_updated(a.repo, mid, ws)
                && b.repo == RepoPickerState { status: b.repo.status, logs: b.repo.logs, ..mid }
            &&& loading_title(a.repo, b.repo, sources_text(if ws@.len() == 0 {
                seq!["GitHub"@]
            } else {
                seq!["local"@, "GitHub"@]
            }))
            &&& logged_with(a.repo.logs@, b.repo.logs@, TraceKind::Sync, "loaded "@ + decimal(ws@.len()) + " repo workspaces"@)
        },
        RepoLoadMessage::Workspaces(Err(e)) => {
            &&& b == TuiState { repo: b.repo, trace: b.trace, ..a }
            &&& b.repo == RepoPickerState { status: b.repo.status, logs: b.repo.logs, ..a.repo }
            &&& loading_title(a.repo, b.repo, sources_text(seq!["GitHub"@]))
            &&& logged_with(a.repo.logs@, b.repo.logs@, TraceKind::Warn, "repo workspaces unavailable: "@ + error_text(e))
            &&& traced_with(a.trace@, b.trace@, TraceKind::Warn, "repo workspaces unavailable: "@ + error_text(e))
        },
        RepoLoadMessage::CandidatePaths(Ok(ps)) => {
            &&& b == TuiState { repo: b.repo, ..a }
            &&& exists|mid: RepoPickerState| #[trigger] candidate_paths_updated(a.repo, mid, ps)
                && b.repo == RepoPickerState { logs: b.repo.logs, ..mid }
            &&& logged_with(a.repo.logs@, b.repo.logs@, TraceKind::Sync, "queued "@ + decimal(ps@.len()) + " local repo paths"@)
        },
        RepoLoadMessage::CandidatePaths(Err(e)) => {
            &&& b == TuiState { repo: b.repo, trace: b.trace, ..a }
            &&& b.repo == RepoPickerState { logs: b.repo.logs, ..a.repo }
            &&& logged_with(a.repo.logs@, b.repo.logs@, TraceKind::Warn, "local repo path discovery unavailable: "@ + error_text(e))
            &&& traced_with(a.trace@, b.trace@, TraceKind::Warn, "local repo path discovery unavailable: "@ + error_text(e))
        },
        RepoLoadMessage::CandidateInspection { path, result } => match result {
            Ok(inspection) => b == TuiState { repo: b.repo, ..a } && inspection_updated(a.repo, b.repo, inspection),
            Err(e) => {
                &&& b == TuiState { repo: b.repo, ..a }
                &&& exists|mid: RepoPickerState| #[trigger] inspection_failed(a.repo, mid, path@)
                    && b.repo == RepoPickerState { logs: b.repo.logs, ..mid }
                &&& logged_with(a.repo.logs@, b.repo.logs@, TraceKind::Warn, "local repo inspection failed for "@ + path@ + ": "@ + error_text(e))
            },
        },
        RepoLoadMessage::CandidateInspectionsFinished => {
            &&& b == TuiState { repo: b.repo, ..a }
            &&& b.repo == RepoPickerState { status: b.repo.status, ..a.repo }
            &&& loading_title(a.repo, b.repo, sources_text(seq!["GitHub"@]))
        },
        RepoLoadMessage::Catalog(Ok(av)) => {
            &&& b == TuiState { repo: b.repo, ..a }
            &&& b.repo == (RepoPickerState { available: av, logs: b.repo.logs, ..a.repo }).clamped_state()
            &&& logged_with(a.repo.logs@, b.repo.logs@, TraceKind::Sync, "loaded "@ + decimal(av@.len()) + " GitHub repos"@)
        },
        RepoLoadMessage::Catalog(Err(e)) => {
            &&& b == TuiState { toast: b.toast, trace: b.trace, repo: b.repo, ..a }
            &&& b.toast matches Some(t) && t.kind == ToastKind::Error && t.title@
                == "GitHub catalog unavailable"@ && t.message@
                == "Attached repositories can still be removed."@
            &&& traced_with(a.trace@, b.trace@, TraceKind::Warn, "GitHub catalog unavailable: "@ + error_text(e))
            &&& b.repo == RepoPickerState { logs: b.repo.logs, ..a.repo }
            &&& logged_with(a.repo.logs@, b.repo.logs@, TraceKind::Warn, "GitHub catalog unavailable: "@ + error_text(e))
        },
        RepoLoadMessage::Finished => b == TuiState { repo: b.repo, ..a } && loading_finished(a.repo, b.repo),
    }
}

fn apply_attached(state: &mut TuiState, result: Result<RepoAttachedData, WorkonError>)
    requires
        old(state).wf(),
    ensures
        final(state).wf(),
        load_applied(*old(state), *final(state), RepoLoadMessage::Attached(result)),
{
    match result {
        Ok(attached) => {
            let count = attached.attached.len();
            state.repo.work_slug = attached.work.slug;
            state.repo.work_title = attached.work.title;
            state.update_repo_attached_from_load(attached.attached);
            let title = repo_loading_sources_message(&sources("workspaces", "local", "GitHub", 3));
            state.update_repo_loading_message(title);
            let n = decimal_string(count);
            state.push_repo_log(TraceKind::Sync, concat3("loaded ", n.as_str(), " attached repos"));
        },
        Err(error) => {
            let reason = error.message();
            state.toast = Some(Toast::error("Repos failed", reason.as_str()));
            state.push_trace(TraceKind::Error, concat2("repos failed: ", reason.as_str()));
            state.set_repo_failed(reason);
        },
    }
}

fn apply_workspaces(state: &mut TuiState, result: Result<Vec<RepositoryWorkspace>, WorkonError>)
    requires
        old(state).wf(),
    ensures
        final(state).wf(),
        load_applied(*old(state), *final(state), RepoLoadMessage::Workspaces(result)),
{
    match result {
        Ok(workspaces) => {
            let count = workspaces.len();
            let title = if count == 0 {
                repo_loading_sources_message(&sources("GitHub", "", "", 1))
            } else {
                repo_loading_sources_message(&sources("local", "GitHub", "", 2))
            };
            state.update_repo_workspaces_from_load(workspaces);
            let ghost mid = state.repo;
            state.update_repo_loading_message(title);
            let n = decimal_string(count);
            state.push_repo_log(TraceKind::Sync, concat3("loaded ", n.as_str(), " repo workspaces"));
            assert(RepoPickerState { status: state.repo.status, logs: state.repo.logs, ..mid } == state.repo);
        },
        Err(error) => {
            let reason = error.message();
            state.update_repo_loading_message(repo_loading_sources_message(&sources("GitHub", "", "", 1)));
            state.push_repo_log(TraceKind::Warn, concat2("repo workspaces unavailable: ", reason.as_str()));
            state.push_trace(TraceKind::Warn, concat2("repo workspaces unavailable: ", reason.as_str()));
        },
    }
}

fn apply_candidate_paths(state: &mut TuiState, result: Result<Vec<RepositoryCandidatePath>, WorkonError>)
    requires
        old(state).wf(),
    ensures
        final(state).wf(),
        load_applied(*old(state), *final(state), RepoLoadMessage::CandidatePaths(result)),
{
    match result {
        Ok(paths) => {
            let count = paths.len();
            state.update_repo_candidate_paths_from_load(paths);
            let ghost mid = state.repo;
            let n = decimal_string(count);
            state.push_repo_log(TraceKind::Sync, concat3("queued ", n.as_str(), " local repo paths"));
            assert(RepoPickerState { logs: state.repo.logs, ..mid } == state.repo);
        },
        Err(error) => {
            let reason = error.message();
            state.push_repo_log(TraceKind::Warn, concat2("local repo path discovery unavailable: ", reason.as_str()));
            state.push_trace(TraceKind::Warn, concat2("local repo path discovery unavailable: ", reason.as_str()));
        },
    }
}

fn apply_inspection(state: &mut TuiState, path: String, outcome: Result<RepositoryCandidateInspection, WorkonError>)
    requires
        old(state).wf(),
    ensures
        final(state).wf(),
        load_applied(*old(state), *final(state), RepoLoadMessage::CandidateInspection { path: path, result: outcome }),
{
    let ghost p0 = path;
    let ghost o0 = outcome;
    match outcome {
        Ok(inspection) => {
            state.update_repo_candidate_inspection_from_load(inspection);
            assert(load_applied(*old(state), *state, RepoLoadMessage::CandidateInspection { path: p0, result: o0 }));
        },
        Err(error) => {
            let reason = error.message();
            let mut line = concat3("local repo inspection failed for ", path.as_str(), ": ");
            push_str(&mut line, reason.as_str());
            state.mark_repo_candidate_inspection_failed(path);
            let ghost mid = state.repo;
            state.push_repo_log(TraceKind::Warn, line);
            assert(RepoPickerState { logs: state.repo.logs, ..mid } == state.repo);
            assert(*state == (TuiState { repo: state.repo, ..*old(state) }));
            assert(o0 == Err::<RepositoryCandidateInspection, WorkonError>(error));
            assert(exists|m: RepoPickerState| #[trigger] inspection_failed(old(state).repo, m, p0@) && state.repo == RepoPickerState { logs: state.repo.logs, ..m });
            assert(logged_with(old(state).repo.logs@, state.repo.logs@, TraceKind::Warn, "local repo inspection failed for "@ + p0@ + ": "@ + error_text(error)));
            assert(load_applied(*old(state), *state, RepoLoadMessage::CandidateInspection { path: p0, result: o0 }));
        },
    }
}

fn apply_catalog(state: &mut TuiState, result: Result<Vec<AvailableRepository>, WorkonError>)
    requires
        old(state).wf(),
    ensures
        final(state).wf(),
        load_applied(*old(state), *final(state), RepoLoadMessage::Catalog(result)),
{
    match result {
        Ok(available) => {
            let count = available.len();
            state.update_repo_available_from_load(available);
            let n = decimal_string(count);
            state.push_repo_log(TraceKind::Sync, concat3("loaded ", n.as_str(), " GitHub repos"));
        },
        Err(error) => {
            let reason = error.message();
            state.toast = Some(
                Toast::error("GitHub catalog unavailable", "Attached repositories can still be removed."),
            );
            state.push_trace(TraceKind::Warn, concat2("GitHub catalog unavailable: ", reason.as_str()));
            state.push_repo_log(TraceKind::Warn, concat2("GitHub catalog unavailable: ", reason.as_str()));
        },
    }
}

/// Takes one result of the repository context loader.
pub fn apply_repo_load_message(state: &mut TuiState, message: RepoLoadMessage)
    requires
        old(state).wf(),
    ensures
        final(state).wf(),
        load_applied(*old(state), *final(state), message),
{
    match message {
        RepoLoadMessage::Attached(result) => apply_attached(state, result),
        RepoLoadMessage::Workspaces(result) => apply_workspaces(state, result),
        RepoLoadMessage::CandidatePaths(result) => apply_candidate_paths(state, result),
        RepoLoadMessage::CandidateInspection { path, result } => apply_inspection(state, path, result),
        RepoLoadMessage::CandidateInspectionsFinished => {
            state.update_repo_loading_message(repo_loading_sources_message(&sources("GitHub", "", "", 1)));
        },
        RepoLoadMessage::Catalog(result) => apply_catalog(state, result),
        RepoLoadMessage::Finished => state.finish_repo_loading(),
    }
}

/// Whether a loader still serves the view: the repository context of its
/// Work is open.
pub fn repo_job_is_current(state: &TuiState, work_slug: &str) -> (r: bool)
    ensures
        r == (state.mode == TuiMode::Repos && state.repo.work_slug@ == work_slug@),
{
    state.mode == TuiMode::Repos && crate::text::str_eq(state.repo.work_slug.as_str(), work_slug)
}

/// The loader finished: loading ends and the trace says so.
pub fn finish_repo_load(state: &mut TuiState)
    ensures
        *final(state) == (TuiState { repo: final(state).repo, trace: final(state).trace, ..*old(state) }),
        loading_finished(old(state).repo, final(state).repo),
        traced_with(old(state).trace@, final(state).trace@, TraceKind::Run, "repo context loaded"@),
{
    state.finish_repo_loading();
    state.push_trace(TraceKind::Run, owned("repo context loaded"));
}

/// The loader stopped without a result: the view shows a failure.
pub fn repo_load_stopped(state: &mut TuiState)
    ensures
        *final(state) == (TuiState {
            toast: final(state).toast,
            trace: final(state).trace,
            repo: final(state).repo,
            ..*old(state)
        }),
        final(state).toast matches Some(t) && t.kind == ToastKind::Error && t.title@
            == "Repos failed"@ && t.message@ == "repository loader stopped before returning a result"@,
        traced_with(old(state).trace@, final(state).trace@, TraceKind::Error, "repository loader stopped before returning a result"@),
        final(state).repo.status matches RepoStatus::Failed { message } && message@
            == "repository loader stopped before returning a result"@,
{
    state.toast = Some(
        Toast::error("Repos failed", "repository loader stopped before returning a result"),
    );
    state.push_trace(TraceKind::Error, owned("repository loader stopped before returning a result"));
    state.set_repo_failed(owned("repository loader stopped before returning a result"));
}

} // verus!
