use workon::command::Command;
use workon::domain::{
    ArchivedWork, CreatedWork, IntentProfile, RepositoryCandidatePath, RepositoryWorkspace,
    WorkIntentSwitch, WorkList, WorkRepositoryList, WorkSummary,
};
use workon::error::WorkonError;
use workon::events::{ToastKind, TraceKind};
use workon::footer::footer_keys;
use workon::intent_view::intent_catalog_view;
use workon::repo_load::RepoLoadMessage;
use workon::repo_loader::{LoaderInput, LoaderWork, RepoLoader};
use workon::repo_picker::RepoPane;
use workon::repo_workspace::RepoWorkspaceRequest;
use workon::tui_loop::{
    archive_finished, create_finished, intent_switch_finished, loop_step, ticks, LoopStep,
};
use workon::tui_state::{TuiAction, TuiMode, TuiState};

#[test]
fn loop_steps_follow_the_view_answer() {
    assert_eq!(loop_step(TuiAction::Nothing), LoopStep::Continue);
    assert_eq!(loop_step(TuiAction::Quit), LoopStep::Exit);
    assert_eq!(
        loop_step(TuiAction::Switch("billing".to_string())),
        LoopStep::RunAndExit(Command::OpenWork { query: "billing".to_string() })
    );
    assert_eq!(
        loop_step(TuiAction::Archive("billing".to_string())),
        LoopStep::Archive(Command::ArchiveWork { query: "billing".to_string() })
    );
    assert_eq!(
        loop_step(TuiAction::RemoveRepoWorkspace {
            work_slug: "billing".to_string(),
            path: "/tmp/repos".to_string()
        }),
        LoopStep::ChangeWorkspaces(RepoWorkspaceRequest::Remove {
            work_slug: "billing".to_string(),
            path: "/tmp/repos".to_string()
        })
    );
    assert!(ticks(false, false, true));
    assert!(!ticks(false, false, false));
}

#[test]
fn archive_result_is_reported_and_closes_the_panel() {
    let mut state = TuiState::new(work_list());
    state.mode = TuiMode::Archive;

    archive_finished(
        &mut state,
        Ok(ArchivedWork {
            title: "Billing retry audit".to_string(),
            slug: "billing-retry-audit".to_string(),
            path: "/tmp/workon/.workon/work/billing-retry-audit".to_string(),
            archive_path: "/tmp/workon/.workon/archive/billing-retry-audit".to_string(),
        }),
    );

    let toast = state.toast.clone().expect("toast");
    assert_eq!(toast.kind, ToastKind::Info);
    assert_eq!(toast.title, "Work archived");
    assert_eq!(toast.message, "/tmp/workon/.workon/archive/billing-retry-audit");
    assert_eq!(state.trace[0].message, "archived billing-retry-audit");
    assert_eq!(state.mode, TuiMode::List);
}

#[test]
fn failed_create_keeps_the_form_open() {
    let mut state = TuiState::new(work_list());
    state.mode = TuiMode::Create;
    state.create_goal = "Ship it".to_string();

    create_finished(
        &mut state,
        Err(WorkonError::RepositoryContext { message: "disk full".to_string() }),
    );

    assert_eq!(state.mode, TuiMode::Create);
    assert_eq!(state.create_goal, "Ship it");
    assert_eq!(state.toast.clone().expect("toast").title, "Create failed");
    assert_eq!(state.trace[0].kind, TraceKind::Error);
    assert_eq!(state.trace[0].message, "create failed: disk full");
}

#[test]
fn created_work_is_selected_and_the_form_resets() {
    let mut list = work_list();
    list.works.push(WorkSummary {
        title: "Zeta".to_string(),
        slug: "zeta".to_string(),
        goal: "Goal".to_string(),
        intent_id: "blank".to_string(),
        path: "/tmp/workon/.workon/work/zeta".to_string(),
    });
    let mut state = TuiState::new(list);
    state.mode = TuiMode::Create;
    state.create_goal = "Zeta".to_string();

    create_finished(
        &mut state,
        Ok(CreatedWork {
            title: "Zeta".to_string(),
            slug: "zeta".to_string(),
            goal: "Zeta".to_string(),
            intent_id: "blank".to_string(),
            path: "/tmp/workon/.workon/work/zeta".to_string(),
            instruction_files: Vec::new(),
        }),
    );

    assert_eq!(state.selected, 1);
    assert_eq!(state.create_goal, "");
    assert_eq!(state.mode, TuiMode::List);
    assert_eq!(state.trace[0].message, "created zeta");
}

#[test]
fn intent_switch_result_is_reported() {
    let mut state = TuiState::new(work_list());
    state.mode = TuiMode::Intents;

    intent_switch_finished(
        &mut state,
        Ok(WorkIntentSwitch {
            work: work_list().works[0].clone(),
            previous_intent_id: "investigate".to_string(),
            intent: IntentProfile {
                id: "review-pr".to_string(),
                name: "Review PR".to_string(),
                summary: "Review".to_string(),
                skill_weights: Vec::new(),
                mcp_weights: Vec::new(),
                instructions: Vec::new(),
            },
            instruction_files: Vec::new(),
        }),
    );

    assert_eq!(state.toast.clone().expect("toast").message, "review-pr");
    assert_eq!(state.trace[0].message, "switched billing-retry-audit to review-pr");
    assert_eq!(state.mode, TuiMode::List);
}

#[test]
fn footer_keys_depend_on_width_mode_and_panel() {
    let narrow = footer_keys(80, TuiMode::List, false, RepoPane::Catalog, false);
    assert_eq!(narrow.len(), 4);
    assert_eq!(narrow[2], ("/", "cmd "));

    let wide = footer_keys(140, TuiMode::List, true, RepoPane::Catalog, false);
    assert!(wide.contains(&("C-t", "hide trace ")));

    let add_path = footer_keys(140, TuiMode::Repos, false, RepoPane::AddPath, false);
    assert_eq!(add_path[1], ("type", "path "));

    let setup = footer_keys(140, TuiMode::Repos, false, RepoPane::Catalog, true);
    assert!(!setup.contains(&("space", "select ")));
    let ready = footer_keys(140, TuiMode::Repos, false, RepoPane::Catalog, false);
    assert!(ready.contains(&("!", "force ")));
    assert_eq!(footer_keys(140, TuiMode::Help, false, RepoPane::Catalog, false), vec![("esc/?/q", "close")]);
}

#[test]
fn intent_catalog_marks_current_and_selected_rows() {
    let mut state = TuiState::new(work_list()).with_intents(vec![
        ("investigate".to_string(), "Answer with evidence.".to_string()),
        ("review-pr".to_string(), "Review a pull request.".to_string()),
        ("brainstorm".to_string(), "Explore options.".to_string()),
    ]);
    state.enter_intent_context(
        "billing-retry-audit".to_string(),
        "Billing retry audit".to_string(),
        "investigate".to_string(),
    );
    state.selected_intent = 1;

    let view = intent_catalog_view(&state);

    assert_eq!(view.count, 3);
    assert_eq!(view.filter_label, None);
    assert_eq!(view.selected, 1);
    assert_eq!(view.rows[0].anchor, "@");
    assert!(view.rows[0].current);
    assert_eq!(view.rows[1].anchor, ">>");
    assert_eq!(view.rows[2].anchor, "  ");

    state.intent_filter = "review".to_string();
    let filtered = intent_catalog_view(&state);
    assert_eq!(filtered.count, 1);
    assert_eq!(filtered.filter_label.as_deref(), Some("find review"));
    assert_eq!(filtered.selected, 0);
    assert_eq!(filtered.rows[0].id, "review-pr");
}

#[test]
fn loader_sends_workspaces_first_and_skips_local_sources_without_them() {
    let mut loader = RepoLoader::new();

    let out = loader.step(LoaderInput::Workspaces(Ok(Vec::new())));
    assert!(matches!(out.messages[0], RepoLoadMessage::Workspaces(Ok(_))));
    assert_eq!(out.next, LoaderWork::LoadAttached);

    let out = loader.step(LoaderInput::Attached(Ok(WorkRepositoryList {
        work: work_list().works[0].clone(),
        repositories: Vec::new(),
    })));
    assert!(out.must_deliver);
    assert_eq!(out.next, LoaderWork::LoadCatalog);

    let out = loader.step(LoaderInput::Catalog(Ok(Vec::new())));
    assert_eq!(out.next, LoaderWork::JoinInspections);

    let out = loader.step(LoaderInput::InspectionsJoined);
    assert_eq!(out.messages.len(), 1);
    assert!(matches!(out.messages[0], RepoLoadMessage::Finished));
    assert_eq!(out.next, LoaderWork::Stop);
}

#[test]
fn loader_sends_candidate_paths_before_attached_repositories() {
    let mut loader = RepoLoader::new();

    let out = loader.step(LoaderInput::Workspaces(Ok(vec![RepositoryWorkspace {
        path: "/tmp/repos".to_string(),
    }])));
    assert_eq!(out.next, LoaderWork::LoadCandidatePaths);

    let paths = vec![RepositoryCandidatePath { path: "/tmp/repos/tool".to_string(), cached: None }];
    let out = loader.step(LoaderInput::CandidatePaths(Ok(paths.clone())));
    assert!(matches!(&out.messages[0], RepoLoadMessage::CandidatePaths(Ok(p)) if *p == paths));
    assert_eq!(out.inspect, Some(paths));
    assert_eq!(out.next, LoaderWork::LoadAttached);

    let out = loader.step(LoaderInput::Attached(Err(WorkonError::RepositoryContext {
        message: "no work".to_string(),
    })));
    assert_eq!(out.messages.len(), 2);
    assert_eq!(out.next, LoaderWork::Stop);

    let out = loader.step(LoaderInput::InspectionsJoined);
    assert!(matches!(out.messages[0], RepoLoadMessage::CandidateInspectionsFinished));
}

fn work_list() -> WorkList {
    WorkList {
        works: vec![WorkSummary {
            title: "Billing retry audit".to_string(),
            slug: "billing-retry-audit".to_string(),
            goal: "Find why billing retry alerts spiked.".to_string(),
            intent_id: "investigate".to_string(),
            path: "/tmp/workon/.workon/work/billing-retry-audit".to_string(),
        }],
    }
}
