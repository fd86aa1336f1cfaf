use workon::domain::{
    AttachedRepository, AvailableRepository, RepositoryCandidate, RepositoryCandidatePath,
    RepositoryWorkspace,
};
use workon::keys::{Key, KeyCode};
use workon::repo_catalog::RepoCatalogRow;
use workon::repo_picker::{
    operation_verb, RepoOperation, RepoPane, RepoPickerAction, RepoPickerState, RepoStatus,
};

fn picker() -> RepoPickerState {
    let mut picker = RepoPickerState::default();
    picker.enter_context(
        "billing-retry-audit".to_string(),
        "Billing retry audit".to_string(),
        available_repositories(),
        Vec::new(),
        attached_repositories(),
        vec![RepositoryWorkspace { path: "/tmp/repos".to_string() }],
    );
    picker
}

fn key(code: KeyCode) -> Key {
    Key::plain(code)
}

fn available_repositories() -> Vec<AvailableRepository> {
    vec![
        AvailableRepository {
            name_with_owner: "openai/api".to_string(),
            default_branch: "main".to_string(),
            url: "https://github.com/openai/api".to_string(),
            ssh_url: "git@github.com:openai/api.git".to_string(),
        },
        AvailableRepository {
            name_with_owner: "openai/workon".to_string(),
            default_branch: "main".to_string(),
            url: "https://github.com/openai/workon".to_string(),
            ssh_url: "git@github.com:openai/workon.git".to_string(),
        },
    ]
}

fn attached_repositories() -> Vec<AttachedRepository> {
    vec![AttachedRepository {
        name_with_owner: "openai/workon".to_string(),
        branch: "workon/billing-retry-audit".to_string(),
        path: "/tmp/workon/.workon/work/billing-retry-audit/repos/openai__workon".to_string(),
        default_branch: "main".to_string(),
        url: "https://github.com/openai/workon".to_string(),
    }]
}

fn applies_pending_adds_and_removes() {
    let mut picker = picker();
    picker.handle_key(key(KeyCode::Char(' ')));
    picker.handle_key(key(KeyCode::Down));
    picker.handle_key(key(KeyCode::Char(' ')));

    assert!(matches!(
        picker.handle_key(key(KeyCode::Enter)),
        RepoPickerAction::Apply {
            add,
            remove,
            force_remove: false,
            ..
        } if add == ["openai/api"] && remove == ["openai/workon"]
    ));
}

#[test]
fn repo_state_repo_picker_applies_pending_adds_and_removes() {
    applies_pending_adds_and_removes();
}

#[test]
fn tests_repo_picker_applies_pending_adds_and_removes() {
    applies_pending_adds_and_removes();
}

fn arms_force_only_for_pending_removals() {
    let mut picker = picker();
    picker.handle_key(key(KeyCode::Char(' ')));
    picker.handle_key(key(KeyCode::Char('!')));

    assert!(picker.force_remove);
    assert!(picker.pending_remove.iter().any(|name| name == "openai/workon"));
}

#[test]
fn repo_state_repo_picker_arms_force_only_for_pending_removals() {
    arms_force_only_for_pending_removals();
}

#[test]
fn tests_repo_picker_arms_force_only_for_pending_removals() {
    arms_force_only_for_pending_removals();
}

fn reports_missing_force_selection_as_notification() {
    let mut picker = picker();

    let action = picker.handle_key(key(KeyCode::Char('!')));

    assert!(matches!(action, RepoPickerAction::Notify(_)));
}

#[test]
fn repo_state_repo_picker_reports_missing_force_selection_as_notification() {
    reports_missing_force_selection_as_notification();
}

#[test]
fn tests_repo_picker_reports_missing_force_selection_as_notification() {
    reports_missing_force_selection_as_notification();
}

fn keeps_attached_repositories_in_catalog_when_sources_are_empty() {
    let mut picker = RepoPickerState::default();
    picker.enter_context(
        "billing-retry-audit".to_string(),
        "Billing retry audit".to_string(),
        Vec::new(),
        Vec::new(),
        attached_repositories(),
        vec![RepositoryWorkspace { path: "/tmp/repos".to_string() }],
    );

    let rows = picker.catalog_rows();

    assert_eq!(rows.len(), attached_repositories().len());
    assert!(rows.iter().any(|row| row.name() == "openai/workon"));
}

#[test]
fn repo_state_repo_picker_keeps_attached_repositories_in_catalog_when_sources_are_empty() {
    keeps_attached_repositories_in_catalog_when_sources_are_empty();
}

#[test]
fn tests_repo_picker_keeps_attached_repositories_in_catalog_when_sources_are_empty() {
    keeps_attached_repositories_in_catalog_when_sources_are_empty();
}

#[test]
fn repo_picker_sorts_attached_repositories_before_unattached_rows() {
    let picker = picker();

    let names = picker
        .catalog_rows()
        .into_iter()
        .map(|row| row.name().to_string())
        .collect::<Vec<_>>();

    assert_eq!(names, vec!["openai/workon".to_string(), "openai/api".to_string()]);
}

#[test]
fn repo_picker_sorts_attached_then_local_then_github_rows() {
    let mut picker = picker();
    picker.candidates = vec![RepositoryCandidate {
        name_with_owner: "openai/local-tool".to_string(),
        branch: "feature/workon".to_string(),
        path: "/tmp/repos/local-tool".to_string(),
        url: "https://github.com/openai/local-tool".to_string(),
    }];

    let names = picker
        .catalog_rows()
        .into_iter()
        .map(|row| match row {
            RepoCatalogRow::GitHub(repository) => format!("github:{}", repository.name_with_owner),
            RepoCatalogRow::Local(candidate) => format!("local:{}", candidate.name_with_owner),
            RepoCatalogRow::PendingLocal { path, .. } => format!("pending:{path}"),
            RepoCatalogRow::Attached(repository) => {
                format!("attached:{}", repository.name_with_owner)
            }
        })
        .collect::<Vec<_>>();

    assert_eq!(
        names,
        vec![
            "github:openai/workon".to_string(),
            "local:openai/local-tool".to_string(),
            "github:openai/api".to_string(),
        ]
    );
}

#[test]
fn repo_picker_includes_pending_local_candidate_rows() {
    let mut picker = picker();
    picker.pending_candidate_paths = vec![RepositoryCandidatePath {
        path: "/tmp/repos/pending-api".to_string(),
        cached: None,
    }];

    let rows = picker.catalog_rows();

    assert!(rows.iter().any(|row| matches!(
        row,
        RepoCatalogRow::PendingLocal { path, failed: false }
            if path.ends_with("pending-api")
    )));
}

fn focus_cycles_between_repository_workspace_panels() {
    let mut picker = picker();

    picker.handle_key(key(KeyCode::Right));
    assert_eq!(picker.focus, RepoPane::AddPath);

    picker.handle_key(key(KeyCode::Right));
    assert_eq!(picker.focus, RepoPane::ConfiguredPaths);

    picker.handle_key(key(KeyCode::Right));
    assert_eq!(picker.focus, RepoPane::Catalog);
}

#[test]
fn repo_state_repo_picker_focus_cycles_between_repository_workspace_panels() {
    focus_cycles_between_repository_workspace_panels();
}

#[test]
fn tests_repo_picker_focus_cycles_between_repository_workspace_panels() {
    focus_cycles_between_repository_workspace_panels();
}

#[test]
fn add_operation_reports_worktree_creation() {
    assert_eq!(operation_verb(RepoOperation::Add), "worktree");
}

#[test]
fn step_logs_progress_with_counts() {
    let mut picker = picker();
    picker.start_step(RepoOperation::Remove, 2, 3, "openai/workon");

    assert_eq!(picker.logs.last().map(|event| event.message.as_str()), Some("remove 2/3 openai/workon"));
    assert!(matches!(picker.status, RepoStatus::Applying { current: 2, total: 3, .. }));
    assert!(picker.is_activity_active());
}

#[test]
fn log_keeps_only_the_latest_entries() {
    let mut picker = picker();
    for index in 0..10 {
        picker.push_log(workon::events::TraceKind::Run, format!("event {index}"));
    }

    assert_eq!(picker.logs.len(), 7);
    assert_eq!(picker.logs[0].message, "event 3");
    assert_eq!(picker.logs[6].message, "event 9");
}

#[test]
fn typed_workspace_paths_are_split_and_trimmed() {
    let mut picker = picker();
    picker.handle_key(key(KeyCode::Right));
    for character in " /tmp/more , ,/tmp/client ".chars() {
        picker.handle_key(key(KeyCode::Char(character)));
    }

    let action = picker.handle_key(key(KeyCode::Enter));

    assert_eq!(
        action,
        RepoPickerAction::AddWorkspaces {
            work_slug: "billing-retry-audit".to_string(),
            paths: vec!["/tmp/more".to_string(), "/tmp/client".to_string()],
        }
    );
    assert_eq!(picker.workspace_input(), "");
    assert!(matches!(picker.status, RepoStatus::Loading { .. }));
}

#[test]
fn catalog_filter_narrows_rows() {
    let mut picker = picker();
    for character in "API".chars() {
        picker.handle_key(key(KeyCode::Char(character)));
    }

    let names = picker.catalog_rows().into_iter().map(|row| row.name()).collect::<Vec<_>>();
    assert_eq!(names, vec!["openai/api".to_string()]);
    picker.handle_key(key(KeyCode::Esc));
    assert_eq!(picker.filter, "");
}

#[test]
fn selecting_a_local_candidate_links_its_path() {
    let mut picker = picker();
    picker.candidates = vec![RepositoryCandidate {
        name_with_owner: "openai/local-tool".to_string(),
        branch: "main".to_string(),
        path: "/tmp/repos/local-tool".to_string(),
        url: "https://github.com/openai/local-tool".to_string(),
    }];
    picker.handle_key(key(KeyCode::Down));
    picker.handle_key(key(KeyCode::Char(' ')));

    assert!(picker.is_local_candidate_selected("/tmp/repos/local-tool"));
    assert!(matches!(
        picker.handle_key(key(KeyCode::Enter)),
        RepoPickerAction::Apply { link, workspace: None, .. } if link == ["/tmp/repos/local-tool"]
    ));
}

#[test]
fn removing_the_selected_workspace_starts_loading() {
    let mut picker = picker();
    picker.handle_key(key(KeyCode::Left));
    assert_eq!(picker.focus, RepoPane::ConfiguredPaths);

    let action = picker.handle_key(key(KeyCode::Enter));

    assert_eq!(
        action,
        RepoPickerAction::RemoveWorkspace {
            work_slug: "billing-retry-audit".to_string(),
            path: "/tmp/repos".to_string(),
        }
    );
}

#[test]
fn toggling_a_repository_twice_restores_pending_changes() {
    let mut picker = picker();
    let before = (picker.pending_add.clone(), picker.pending_link.clone(), picker.pending_remove.clone());

    picker.toggle_focused_repository();
    assert_ne!(
        (picker.pending_add.clone(), picker.pending_link.clone(), picker.pending_remove.clone()),
        before
    );
    picker.toggle_focused_repository();

    assert_eq!(
        (picker.pending_add.clone(), picker.pending_link.clone(), picker.pending_remove.clone()),
        before
    );
}
