use vstd::prelude::*;

use crate::command::Command;
use crate::domain::{ArchivedWork, CreatedWork, WorkIntentSwitch};
use crate::error::{error_text, WorkonError};
use crate::events::{Toast, ToastKind, TraceKind};
use crate::repo_jobs::RepoChangeRequest;
use crate::repo_workspace::RepoWorkspaceRequest;
use crate::text::{concat2, concat3};
use crate::tui_state::{traced_with, TuiAction, TuiState};

verus! {

/// What the event loop does after a key, as decided from the view's
/// answer: the loop performs it and hands the result back.
#[derive(Debug, Clone, PartialEq, Eq)]
pub enum LoopStep {
    /// Nothing to do; read the next key.
    Continue,
    /// Leave the view without output.
    Exit,
    /// Run the command and leave the view with its output.
    RunAndExit(Command),
    /// Archive a Work, then call [`archive_finished`].
    Archive(Command),
    /// Create a Work, then call [`create_finished`].
    Create(Command),
    /// Switch a Work's intent, then call [`intent_switch_finished`].
    SwitchIntent(Command),
    /// Start loading the repository context of a Work.
    LoadRepositories(String),
    /// Stop the loaders and apply the repository changes as a batch.
    ApplyRepositoryChanges(RepoChangeRequest),
    /// Stop the loader and change the repository workspaces.
    ChangeWorkspaces(RepoWorkspaceRequest),
}

/// The loop step for an answer of the view.
pub open spec fn step_for(action: TuiAction) -> LoopStep {
    match action {
        TuiAction::Nothing => LoopStep::Continue,
        TuiAction::Quit => LoopStep::Exit,
        TuiAction::Switch(slug) => LoopStep::RunAndExit(Command::OpenWork { query: slug }),
        TuiAction::Archive(slug) => LoopStep::Archive(Command::ArchiveWork { query: slug }),
        TuiAction::SwitchIntent { work_slug, intent_id } => LoopStep::SwitchIntent(
            Command::SwitchWorkIntent { query: work_slug, intent_id },
        ),
        TuiAction::Create { goal, intent_id } => LoopStep::Create(Command::CreateWork { goal, intent_id }),
        TuiAction::OpenRepos(slug) => LoopStep::LoadRepositories(slug),
        TuiAction::ApplyRepoChanges { work_slug, add, link, remove, force_remove, workspace } =>
            LoopStep::ApplyRepositoryChanges(
            RepoChangeRequest { work_slug, add, link, remove, force_remove, workspace },
        ),
        TuiAction::AddRepoWorkspaces { work_slug, paths } => LoopStep::ChangeWorkspaces(
            RepoWorkspaceRequest::Add { work_slug, paths },
        ),
        TuiAction::RemoveRepoWorkspace { work_slug, path } => LoopStep::ChangeWorkspaces(
            RepoWorkspaceRequest::Remove { work_slug, path },
        ),
    }
}

/// The loop step for an answer of the view.
pub fn loop_step(action: TuiAction) -> (r: LoopStep)
    ensures
        r == step_for(action),
{
    match action {
        TuiAction::Nothing => LoopStep::Continue,
        TuiAction::Quit => LoopStep::Exit,
        TuiAction::Switch(slug) => LoopStep::RunAndExit(Command::OpenWork { query: slug }),
        TuiAction::Archive(slug) => LoopStep::Archive(Command::ArchiveWork { query: slug }),
        TuiAction::SwitchIntent { work_slug, intent_id } => LoopStep::SwitchIntent(
            Command::SwitchWorkIntent { query: work_slug, intent_id },
        ),
        TuiAction::Create { goal, intent_id } => LoopStep::Create(Command::CreateWork { goal, intent_id }),
        TuiAction::OpenRepos(slug) => LoopStep::LoadRepositories(slug),
        TuiAction::ApplyRepoChanges { work_slug, add, link, remove, force_remove, workspace } =>
            LoopStep::ApplyRepositoryChanges(
            RepoChangeRequest { work_slug, add, link, remove, force_remove, workspace },
        ),
        TuiAction::AddRepoWorkspaces { work_slug, paths } => LoopStep::ChangeWorkspaces(
            RepoWorkspaceRequest::Add { work_slug, paths },
        ),
        TuiAction::RemoveRepoWorkspace { work_slug, path } => LoopStep::ChangeWorkspaces(
            RepoWorkspaceRequest::Remove { work_slug, path },
        ),
    }
}

/// Whether the loop waits for a key only one frame at a time: something
/// animates, the title shows an activity, or a background job runs.
pub fn ticks(animating: bool, title_active: bool, jobs_running: bool) -> (r: bool)
    ensures
        r == (animating || title_active || jobs_running),
{
    animating || title_active || jobs_running
}

/// `b` is `a` with the toast shown, one trace line recorded and the panel
/// closed.
pub open spec fn reported(a: TuiState, b: TuiState, kind: ToastKind, title: Seq<char>, message: Seq<char>, trace_kind: TraceKind, trace: Seq<char>, close: bool) -> bool {
    &&& b == TuiState {
        toast: b.toast,
        trace: b.trace,
        mode: if close {
            a.queue_mode()
        } else {
            a.mode
        },
        ..a
    }
    &&& b.toast matches Some(t) && t.kind == kind && t.title@ == title && t.message@ == message
    &&& traced_with(a.trace@, b.trace@, trace_kind, trace)
}

/// Takes the result of archiving a Work, after the Work list was
/// reloaded: a toast and a trace line report it, and the panel closes.
pub fn archive_finished(state: &mut TuiState, result: Result<ArchivedWork, WorkonError>)
    ensures
        match result {
            Ok(w) => reported(*old(state), *final(state), ToastKind::Info, "Work archived"@, w.archive_path@, TraceKind::Sync, "archived "@ + w.slug@, true),
            Err(e) => reported(*old(state), *final(state), ToastKind::Error, "Archive failed"@, error_text(e), TraceKind::Error, "archive failed: "@ + error_text(e), true),
        },
{
    match result {
        Ok(work) => {
            state.toast = Some(Toast::info("Work archived", work.archive_path.as_str()));
            state.push_trace(TraceKind::Sync, concat2("archived ", work.slug.as_str()));
        },
        Err(error) => {
            let reason = error.message();
            state.toast = Some(Toast::error("Archive failed", reason.as_str()));
            state.push_trace(TraceKind::Error, concat2("archive failed: ", reason.as_str()));
        },
    }
    state.close_panel();
}

/// Takes the result of creating a Work, after the Work list was reloaded:
/// the filter clears, the new Work is selected, the create form resets and
/// the panel closes. A failure keeps the form open.
pub fn create_finished(state: &mut TuiState, result: Result<CreatedWork, WorkonError>)
    ensures
        match result {
            Ok(w) => {
                let cleared = TuiState { filter: final(state).filter, pre_filter_selected_slug: None, ..*old(state) };
                let selected = cleared.slug_selected(w.slug@);
                &&& final(state).filter@.len() == 0
                &&& final(state).create_goal@.len() == 0
                &&& reported(
                    TuiState { create_goal: final(state).create_goal, ..selected }.with_default_intent(),
                    *final(state),
                    ToastKind::Info,
                    "Work created"@,
                    w.path@,
                    TraceKind::Sync,
                    "created "@ + w.slug@,
                    true,
                )
            },
            Err(e) => reported(*old(state), *final(state), ToastKind::Error, "Create failed"@, error_text(e), TraceKind::Error, "create failed: "@ + error_text(e), false),
        },
{
    match result {
        Ok(work) => {
            state.clear_filter_context();
            state.select_slug(work.slug.as_str());
            state.reset_create_form();
            state.toast = Some(Toast::info("Work created", work.path.as_str()));
            state.push_trace(TraceKind::Sync, concat2("created ", work.slug.as_str()));
            state.close_panel();
        },
        Err(error) => {
            let reason = error.message();
            state.toast = Some(Toast::error("Create failed", reason.as_str()));
            state.push_trace(TraceKind::Error, concat2("create failed: ", reason.as_str()));
        },
    }
}

/// Takes the result of switching a Work's intent, after the Work list was
/// reloaded: a toast and a trace line report it, and the panel closes.
pub fn intent_switch_finished(state: &mut TuiState, result: Result<WorkIntentSwitch, WorkonError>)
    ensures
        match result {
            Ok(c) => reported(*old(state), *final(state), ToastKind::Info, "Intent switched"@, c.intent.id@, TraceKind::Sync, "switched "@ + c.work.slug@ + " to "@ + c.intent.id@, true),
            Err(e) => reported(*old(state), *final(state), ToastKind::Error, "Intent switch failed"@, error_text(e), TraceKind::Error, "intent switch failed: "@ + error_text(e), true),
        },
{
    match result {
        Ok(change) => {
            state.toast = Some(Toast::info("Intent switched", change.intent.id.as_str()));
            let mut line = concat3("switched ", change.work.slug.as_str(), " to ");
            crate::text::push_str(&mut line, change.intent.id.as_str());
            state.push_trace(TraceKind::Sync, line);
        },
        Err(error) => {
            let reason = error.message();
            state.toast = Some(Toast::error("Intent switch failed", reason.as_str()));
            state.push_trace(TraceKind::Error, concat2("intent switch failed: ", reason.as_str()));
        },
    }
    state.close_panel();
}

} // verus!
