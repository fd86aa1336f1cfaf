use workon::domain::{
    AttachedRepository, RepositoryCandidate, RepositoryCandidateInspection,
    RepositoryCandidatePath, RepositoryWorkspace, WorkList, WorkSummary,
};
use workon::error::WorkonError;
use workon::repo_catalog::RepoCatalogRow;
use workon::repo_load::{
    apply_repo_load_message, finish_repo_load, repo_job_is_current, repo_load_stopped,
    repo_loading_sources_message, RepoAttachedData, RepoLoadMessage,
};
use workon::repo_picker::RepoStatus;
use workon::tui_state::{TuiMode, TuiState};

#[test]
fn repo_load_keeps_attached_repositories_when_github_catalog_fails() {
    let mut state = TuiState::new(work_list());
    let work = work_list().works[0].clone();
    state.enter_repo_loading(work.slug.clone(), work.title.clone());

    apply_repo_load_message(
        &mut state,
        RepoLoadMessage::Attached(Ok(RepoAttachedData {
            work,
            attached: attached_repositories(),
        })),
    );
    apply_repo_load_message(
        &mut state,
        RepoLoadMessage::Catalog(Err(WorkonError::RepositoryContext {
            message: "gh auth required".to_string(),
        })),
    );

    assert_eq!(state.mode, TuiMode::Repos);
    assert_eq!(state.repo.attached.len(), 1);
    assert_eq!(state.repo.attached[0].name_with_owner, "openai/workon");
    assert!(state
        .repo
        .catalog_rows()
        .iter()
        .any(|row| row.name() == "openai/workon"));
    let toast = state.toast.expect("catalog failure should show a toast");
    assert_eq!(toast.title, "GitHub catalog unavailable");
}

#[test]
fn repo_load_applies_partial_attached_result_before_finished() {
    let mut state = TuiState::new(work_list());
    let work = work_list().works[0].clone();
    state.enter_repo_loading(work.slug.clone(), work.title.clone());

    apply_repo_load_message(
        &mut state,
        RepoLoadMessage::Attached(Ok(RepoAttachedData {
            work: work.clone(),
            attached: attached_repositories(),
        })),
    );

    assert!(repo_job_is_current(&state, &work.slug));
    assert!(matches!(state.repo.status, RepoStatus::Loading { .. }));
    assert_eq!(state.repo.attached.len(), 1);
    assert_eq!(state.repo.attached[0].name_with_owner, "openai/workon");
}

#[test]
fn repo_load_title_removes_sources_as_they_finish() {
    let mut state = TuiState::new(work_list());
    let work = work_list().works[0].clone();
    state.enter_repo_loading(work.slug.clone(), work.title.clone());

    assert!(repo_loading_message(&state).contains("attached, workspaces, local, GitHub"));

    apply_repo_load_message(
        &mut state,
        RepoLoadMessage::Attached(Ok(RepoAttachedData {
            work,
            attached: attached_repositories(),
        })),
    );
    assert!(repo_loading_message(&state).contains("workspaces, local, GitHub"));
    assert!(!repo_loading_message(&state).contains("attached"));

    apply_repo_load_message(
        &mut state,
        RepoLoadMessage::Workspaces(Ok(vec![RepositoryWorkspace {
            path: "/tmp/repos".to_string(),
        }])),
    );
    assert!(repo_loading_message(&state).contains("local, GitHub"));
    assert!(state.is_title_activity_active());

    let candidate_path = "/tmp/repos/local-tool".to_string();
    apply_repo_load_message(
        &mut state,
        RepoLoadMessage::CandidatePaths(Ok(vec![RepositoryCandidatePath {
            path: candidate_path.clone(),
            cached: None,
        }])),
    );
    assert_eq!(state.repo.pending_candidate_paths.len(), 1);

    apply_repo_load_message(
        &mut state,
        RepoLoadMessage::CandidateInspection {
            path: candidate_path.clone(),
            result: Ok(RepositoryCandidateInspection {
                path: candidate_path,
                candidate: Some(RepositoryCandidate {
                    name_with_owner: "openai/local-tool".to_string(),
                    branch: "main".to_string(),
                    path: "/tmp/repos/local-tool".to_string(),
                    url: "https://github.com/openai/local-tool".to_string(),
                }),
                cached: false,
            }),
        },
    );
    assert_eq!(state.repo.candidates.len(), 1);
    apply_repo_load_message(&mut state, RepoLoadMessage::CandidateInspectionsFinished);
    assert_eq!(repo_loading_message(&state), "Loading: GitHub");
    assert!(state.is_title_activity_active());
}

#[test]
fn repo_load_keeps_failed_candidate_path_as_warning_row() {
    let mut state = TuiState::new(work_list());
    let work = work_list().works[0].clone();
    let path = "/tmp/repos/broken".to_string();
    state.enter_repo_loading(work.slug.clone(), work.title.clone());
    apply_repo_load_message(
        &mut state,
        RepoLoadMessage::CandidatePaths(Ok(vec![RepositoryCandidatePath {
            path: path.clone(),
            cached: None,
        }])),
    );

    apply_repo_load_message(
        &mut state,
        RepoLoadMessage::CandidateInspection {
            path: path.clone(),
            result: Err(WorkonError::RepositoryContext {
                message: "git failed".to_string(),
            }),
        },
    );

    assert!(state.repo.failed_candidate_paths.contains(&path));
    assert!(state.repo.catalog_rows().iter().any(|row| matches!(
        row,
        RepoCatalogRow::PendingLocal {
            path: row_path,
            failed: true
        } if row_path == &path
    )));
}

#[test]
fn repo_load_title_skips_local_when_no_workspaces_exist() {
    let mut state = TuiState::new(work_list());
    let work = work_list().works[0].clone();
    state.enter_repo_loading(work.slug.clone(), work.title.clone());

    apply_repo_load_message(
        &mut state,
        RepoLoadMessage::Attached(Ok(RepoAttachedData {
            work,
            attached: attached_repositories(),
        })),
    );
    apply_repo_load_message(&mut state, RepoLoadMessage::Workspaces(Ok(Vec::new())));

    assert_eq!(repo_loading_message(&state), "Loading: GitHub");
    assert!(state.is_title_activity_active());
}

#[test]
fn repo_load_keeps_ready_state_when_github_catalog_fails_late() {
    let mut state = TuiState::new(work_list());
    let work = work_list().works[0].clone();
    state.enter_repo_loading(work.slug.clone(), work.title.clone());

    apply_repo_load_message(
        &mut state,
        RepoLoadMessage::Attached(Ok(RepoAttachedData {
            work,
            attached: attached_repositories(),
        })),
    );
    apply_repo_load_message(&mut state, RepoLoadMessage::Workspaces(Ok(Vec::new())));
    apply_repo_load_message(
        &mut state,
        RepoLoadMessage::Catalog(Err(WorkonError::RepositoryContext {
            message: "gh timed out".to_string(),
        })),
    );
    assert!(state.is_title_activity_active());

    apply_repo_load_message(&mut state, RepoLoadMessage::Finished);

    assert!(matches!(state.repo.status, RepoStatus::Ready));
}

#[test]
fn loading_sources_message_joins_source_names() {
    let sources = vec!["attached".to_string(), "GitHub".to_string()];
    assert_eq!(repo_loading_sources_message(&sources), "Loading: attached, GitHub");
}

#[test]
fn finishing_a_load_leaves_the_view_ready() {
    let mut state = TuiState::new(work_list());
    let work = work_list().works[0].clone();
    state.enter_repo_loading(work.slug.clone(), work.title.clone());

    finish_repo_load(&mut state);

    assert!(matches!(state.repo.status, RepoStatus::Ready));
    assert!(!state.is_title_activity_active());
}

#[test]
fn a_stopped_load_is_reported_as_failure() {
    let mut state = TuiState::new(work_list());
    let work = work_list().works[0].clone();
    state.enter_repo_loading(work.slug.clone(), work.title.clone());

    repo_load_stopped(&mut state);

    assert!(matches!(state.repo.status, RepoStatus::Failed { .. }));
    assert!(state.toast.is_some());
}

#[test]
fn a_load_for_another_work_is_not_current() {
    let mut state = TuiState::new(work_list());
    let work = work_list().works[0].clone();
    state.enter_repo_loading(work.slug.clone(), work.title.clone());

    assert!(repo_job_is_current(&state, "billing-retry-audit"));
    assert!(!repo_job_is_current(&state, "another-work"));
}

#[test]
fn attached_load_keeps_the_loaded_workspaces() {
    let mut state = TuiState::new(work_list());
    let work = work_list().works[0].clone();
    state.enter_repo_loading(work.slug.clone(), work.title.clone());

    apply_repo_load_message(
        &mut state,
        RepoLoadMessage::Workspaces(Ok(vec![
            RepositoryWorkspace { path: "/src/one".to_string() },
            RepositoryWorkspace { path: "/src/two".to_string() },
        ])),
    );
    state.repo.selected_workspace = 1;
    apply_repo_load_message(
        &mut state,
        RepoLoadMessage::Attached(Ok(RepoAttachedData {
            work,
            attached: attached_repositories(),
        })),
    );

    assert_eq!(state.repo.workspaces.len(), 2);
    assert_eq!(state.repo.workspaces[1].path, "/src/two");
    assert_eq!(state.repo.selected_workspace, 1);
    assert_eq!(state.repo.attached.len(), 1);
    assert!(state.repo.pending_add.is_empty());
    assert!(!state.repo.force_remove);
}

#[test]
fn opening_a_context_clears_pending_changes_and_the_force_flag() {
    let mut state = TuiState::new(work_list());
    let work = work_list().works[0].clone();
    state.repo.pending_remove.push("openai/workon".to_string());
    state.repo.force_remove = true;
    state.repo.filter = "work".to_string();

    state.enter_repo_loading(work.slug.clone(), work.title.clone());

    assert_eq!(state.mode, TuiMode::Repos);
    assert!(state.repo.pending_remove.is_empty());
    assert!(!state.repo.force_remove);
    assert!(state.repo.filter.is_empty());
    assert!(state.repo.workspaces.is_empty());
    assert_eq!(state.repo.logs.len(), 1);
    assert_eq!(state.repo.logs[0].message, "repository context load started");
    assert_eq!(repo_loading_message(&state), "Loading: attached, workspaces, local, GitHub");
}

fn work_list() -> WorkList {
    WorkList {
        works: vec![WorkSummary {
            title: "Billing retry audit".to_string(),
            slug: "billing-retry-audit".to_string(),
            goal: "Find why billing retry alerts spiked.".to_string(),
            intent_id: "investigate".to_string(),
            path: "/tmp/workon/.workon/work/billing-retry-audit".to_string(),
        }],
    }
}

fn attached_repositories() -> Vec<AttachedRepository> {
    vec![AttachedRepository {
        name_with_owner: "openai/workon".to_string(),
        branch: "workon/billing-retry-audit".to_string(),
        path: "/tmp/workon/.workon/work/billing-retry-audit/repos/openai__workon".to_string(),
        default_branch: "main".to_string(),
        url: "https://github.com/openai/workon".to_string(),
    }]
}

fn repo_loading_message(state: &TuiState) -> &str {
    let RepoStatus::Loading { message } = &state.repo.status else {
        panic!("expected repo loading status");
    };
    message
}
