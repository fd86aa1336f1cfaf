use workon::domain::{RepositoryCandidate, RepositoryWorkspace, WorkList, WorkSummary};
use workon::error::WorkonError;
use workon::repo_picker::RepoStatus;
use workon::repo_workspace::{
    apply_repo_workspace_message, record_repo_workspace_added, record_repo_workspace_removed,
    repo_workspace_stopped, RepoWorkspaceMessage, RepoWorkspaceRequest,
};
use workon::tui_state::TuiState;

#[test]
fn repo_workspace_job_applies_paths_before_candidate_refresh_finishes() {
    let mut state = TuiState::new(work_list());
    let work = work_list().works[0].clone();
    state.enter_repo_loading(work.slug.clone(), work.title.clone());
    let path = "/tmp/repos".to_string();
    let request = RepoWorkspaceRequest::Add {
        work_slug: work.slug,
        paths: vec![path.clone()],
    };

    apply_repo_workspace_message(
        &mut state,
        &request,
        RepoWorkspaceMessage::Workspaces(Ok(vec![RepositoryWorkspace { path: path.clone() }])),
    );

    assert_eq!(request.work_slug(), "billing-retry-audit");
    assert!(matches!(state.repo.status, RepoStatus::Loading { .. }));
    assert_eq!(state.repo.workspaces.len(), 1);
    assert_eq!(state.repo.workspaces[0].path, path);
    assert!(state
        .repo
        .logs
        .iter()
        .any(|event| event.message == "repo workspace added /tmp/repos"));
}

#[test]
fn repo_workspace_add_records_logs_without_toast() {
    let mut state = TuiState::new(work_list());

    record_repo_workspace_added(&mut state, &vec!["/tmp/repos".to_string()], 1);

    assert_eq!(state.toast, None);
    assert!(state
        .repo
        .logs
        .iter()
        .any(|event| event.message == "repo workspace added /tmp/repos"));
    assert!(state
        .trace
        .iter()
        .any(|event| event.message == "repo workspaces configured: 1"));
}

#[test]
fn repo_workspace_remove_records_logs_without_toast() {
    let mut state = TuiState::new(work_list());

    record_repo_workspace_removed(&mut state, "/tmp/repos", 0);

    assert_eq!(state.toast, None);
    assert!(state
        .repo
        .logs
        .iter()
        .any(|event| event.message == "repo workspace removed /tmp/repos"));
    assert!(state
        .trace
        .iter()
        .any(|event| event.message == "repo workspaces configured: 0"));
}

#[test]
fn repo_workspace_failure_shows_toast_and_fails_the_view() {
    let mut state = TuiState::new(work_list());
    let request = RepoWorkspaceRequest::Remove {
        work_slug: "billing-retry-audit".to_string(),
        path: "/tmp/repos".to_string(),
    };

    apply_repo_workspace_message(
        &mut state,
        &request,
        RepoWorkspaceMessage::Workspaces(Err(WorkonError::RepositoryContext {
            message: "not configured".to_string(),
        })),
    );

    let toast = state.toast.clone().expect("failure toast");
    assert_eq!(toast.title, "Repo workspace failed");
    assert_eq!(toast.message, "not configured");
    assert!(matches!(state.repo.status, RepoStatus::Failed { .. }));
}

#[test]
fn repo_workspace_candidates_refresh_the_local_rows() {
    let mut state = TuiState::new(work_list());
    let request = RepoWorkspaceRequest::Add {
        work_slug: "billing-retry-audit".to_string(),
        paths: vec!["/tmp/repos".to_string()],
    };

    apply_repo_workspace_message(
        &mut state,
        &request,
        RepoWorkspaceMessage::Candidates(Ok(vec![RepositoryCandidate {
            name_with_owner: "openai/tool".to_string(),
            branch: "main".to_string(),
            path: "/tmp/repos/tool".to_string(),
            url: "https://github.com/openai/tool".to_string(),
        }])),
    );

    assert_eq!(state.repo.candidates.len(), 1);
    assert!(state
        .repo
        .logs
        .iter()
        .any(|event| event.message == "discovered 1 local repos"));
}

#[test]
fn a_stopped_workspace_change_is_reported() {
    let mut state = TuiState::new(work_list());
    repo_workspace_stopped(&mut state);
    assert!(matches!(state.repo.status, RepoStatus::Failed { .. }));
    assert_eq!(state.toast.expect("toast").title, "Repo workspace failed");
}

fn work_list() -> WorkList {
    WorkList {
        works: vec![WorkSummary {
            title: "Billing retry audit".to_string(),
            slug: "billing-retry-audit".to_string(),
            goal: "Find why billing retry alerts spiked.".to_string(),
            intent_id: "investigate".to_string(),
            path: "/tmp/workon/.workon/work/billing-retry-audit".to_string(),
        }],
    }
}
