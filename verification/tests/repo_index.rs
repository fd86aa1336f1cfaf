use workon::domain::{AttachedRepository, WorkList, WorkSummary};
use workon::error::WorkonError;
use workon::repo_index::{apply_repository_index, start_repository_index};
use workon::tui_state::TuiState;

#[test]
fn stale_repository_index_job_does_not_overwrite_newer_attached_repositories() {
    let mut state = TuiState::new(work_list());
    let generation = state.start_repository_index_loading();
    state.repo.work_slug = "billing-retry-audit".to_string();
    state.update_attached_repositories(attached_repositories());

    let stale = vec![("billing-retry-audit".to_string(), Vec::new())];
    let current = apply_repository_index(&mut state, generation, Ok(stale));

    assert!(!current);
    assert_eq!(
        attached_for(&state, "billing-retry-audit")
            .expect("newer attached repos should remain")
            .len(),
        1
    );
}

#[test]
fn current_repository_index_replaces_the_index() {
    let mut state = TuiState::new(work_list());
    let generation = start_repository_index(&mut state);
    assert!(state.repository_index_loading);

    let index = vec![("billing-retry-audit".to_string(), attached_repositories())];
    let current = apply_repository_index(&mut state, generation, Ok(index));

    assert!(current);
    assert!(!state.repository_index_loading);
    assert_eq!(attached_for(&state, "billing-retry-audit").map(|v| v.len()), Some(1));
    assert_eq!(state.trace[0].message, "repository index loaded for 1 works");
}

#[test]
fn failed_repository_index_keeps_the_old_index() {
    let mut state = TuiState::new(work_list());
    let generation = start_repository_index(&mut state);

    let current = apply_repository_index(
        &mut state,
        generation,
        Err(WorkonError::RepositoryContext { message: "gh offline".to_string() }),
    );

    assert!(current);
    assert!(!state.repository_index_loading);
    assert_eq!(state.trace[0].message, "repository index unavailable: gh offline");
}

fn attached_for<'a>(state: &'a TuiState, slug: &str) -> Option<&'a Vec<AttachedRepository>> {
    state
        .attached_repositories
        .iter()
        .find(|(s, _)| s == slug)
        .map(|(_, v)| v)
}

fn work_list() -> WorkList {
    WorkList {
        works: vec![WorkSummary {
            title: "Billing retry audit".to_string(),
            slug: "billing-retry-audit".to_string(),
            goal: "Find why billing retry alerts spiked.".to_string(),
            intent_id: "investigate".to_string(),
            path: "/tmp/workon/.workon/work/billing-retry-audit".to_string(),
        }],
    }
}

fn attached_repositories() -> Vec<AttachedRepository> {
    vec![AttachedRepository {
        name_with_owner: "openai/workon".to_string(),
        branch: "workon/billing-retry-audit".to_string(),
        path: "/tmp/workon/.workon/work/billing-retry-audit/repos/openai__workon".to_string(),
        default_branch: "main".to_string(),
        url: "https://github.com/openai/workon".to_string(),
    }]
}
