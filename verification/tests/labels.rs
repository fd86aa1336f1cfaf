use workon::cli_args::CliRequest;
use workon::domain::{RepositoryWorkspace, WorkList, WorkSummary};
use workon::events::{ToastKind, TraceKind};
use workon::help::{help_text, GENERAL_HELP, INTENT_HELP, REPOS_HELP};
use workon::labels::{
    archive_path_for, attached_repository_count_label, intent_catalog_label, match_count_label, mode_label,
    repo_catalog_context_line, row_anchor, scroll_start, selected_intent_label,
    toast_badge_label, trace_badge_label, work_folder_label, work_queue_title,
    workspace_input_label,
};
use workon::repo_picker::{RepoPickerState, RepoStatus};
use workon::tui_state::{TuiMode, TuiState};

#[test]
fn counts_use_singular_for_one() {
    assert_eq!(match_count_label(1), "1 match");
    assert_eq!(match_count_label(0), "0 matches");
    assert_eq!(match_count_label(12), "12 matches");
    assert_eq!(attached_repository_count_label(1), "1 attached");
    assert_eq!(attached_repository_count_label(3), "3 attached");
}

#[test]
fn modes_badges_and_anchors_have_fixed_names() {
    assert_eq!(mode_label(TuiMode::Search), "FILTER");
    assert_eq!(mode_label(TuiMode::Leader), "COMMAND");
    assert_eq!(trace_badge_label(TraceKind::Error), "ERR");
    assert_eq!(trace_badge_label(TraceKind::Signal), "SIGNAL");
    assert_eq!(toast_badge_label(ToastKind::Info), "OK");
    assert_eq!(row_anchor(true, true), "@");
    assert_eq!(row_anchor(false, true), ">>");
    assert_eq!(row_anchor(false, false), "  ");
}

#[test]
fn work_folder_shows_the_folder_name() {
    assert_eq!(work_folder_label("/tmp/workon/.workon/work/billing"), "work/billing");
    assert_eq!(work_folder_label("/tmp/workon/.workon/work/billing/"), "work/billing");
    assert_eq!(work_folder_label("billing"), "work/billing");
    assert_eq!(work_folder_label("/"), "/");
    assert_eq!(work_folder_label("/tmp/.."), "/tmp/..");
}

#[test]
fn scroll_keeps_the_selection_visible() {
    assert_eq!(scroll_start(3, 10, 5), 0);
    assert_eq!(scroll_start(7, 10, 5), 3);
    assert_eq!(scroll_start(7, 0, 5), 0);
    assert_eq!(scroll_start(7, 10, 0), 0);
}

#[test]
fn intent_labels_list_the_offered_intents() {
    let state = TuiState::new(WorkList { works: Vec::new() }).with_intents(vec![
        ("investigate".to_string(), "Answer.".to_string()),
        ("review-pr".to_string(), "Review.".to_string()),
    ]);
    assert_eq!(intent_catalog_label(&state.intents), "investigate | review-pr");
    assert_eq!(intent_catalog_label(&Vec::new()), "investigate");
    assert_eq!(selected_intent_label(&state, "investigate"), "1/2 investigate");
}

#[test]
fn queue_title_shows_filter_and_matches() {
    let mut state = TuiState::new(WorkList {
        works: vec![WorkSummary {
            title: "Billing".to_string(),
            slug: "billing".to_string(),
            goal: "g".to_string(),
            intent_id: "investigate".to_string(),
            path: "/w/billing".to_string(),
        }],
    });
    assert_eq!(work_queue_title(&state), (1, None));
    state.filter = "bill".to_string();
    assert_eq!(
        work_queue_title(&state),
        (1, Some(("bill".to_string(), "1 match".to_string())))
    );
}

#[test]
fn catalog_notice_follows_priority() {
    let mut repo = RepoPickerState::new();
    assert_eq!(workspace_input_label(&repo), "<type folder path>");
    assert_eq!(
        repo_catalog_context_line(&repo, false, None),
        (
            Some("REQUIRED"),
            "Add a repo workspace path before creating remote repo worktrees.".to_string()
        )
    );
    repo.workspaces = vec![RepositoryWorkspace { path: "/home/me/repos".to_string() }];
    assert_eq!(
        repo_catalog_context_line(&repo, false, Some("/home/me")).1,
        "Remote repo worktrees in ~/repos; local links in place."
    );
    repo.filter = "api".to_string();
    assert_eq!(
        repo_catalog_context_line(&repo, true, None).1,
        "No repositories match `api`."
    );
    repo.status = RepoStatus::Loading { message: "Loading".to_string() };
    assert_eq!(repo_catalog_context_line(&repo, true, None).1, "Repository sources are loading.");
}

#[test]
fn help_requests_get_their_usage_text() {
    assert_eq!(help_text(&CliRequest::Help), Some(GENERAL_HELP));
    assert_eq!(help_text(&CliRequest::IntentHelp), Some(INTENT_HELP));
    assert_eq!(help_text(&CliRequest::ReposHelp), Some(REPOS_HELP));
    assert_eq!(help_text(&CliRequest::Version), None);
    assert!(GENERAL_HELP.starts_with("wo - start, open, and archive work folders"));
}

#[test]
fn work_folder_label_takes_the_last_component_by_path_rules() {
    assert_eq!(work_folder_label("/tmp/workon/.workon/work/billing/."), "work/billing");
    assert_eq!(work_folder_label("/tmp/workon//billing"), "work/billing");
}

#[test]
fn repository_summary_says_loading_none_or_count() {
    assert_eq!(workon::labels::repository_summary_label(0, true), "loading");
    assert_eq!(workon::labels::repository_summary_label(0, false), "none");
    assert_eq!(workon::labels::repository_summary_label(2, true), "2 attached");
}

#[test]
fn create_form_names_the_chosen_intent() {
    let state = TuiState::new(WorkList { works: Vec::new() });
    assert_eq!(
        workon::labels::create_intent_lines(&state),
        ("1/1 investigate".to_string(), "investigate".to_string(), None)
    );
    let state = state.with_intents(vec![
        ("blank".to_string(), "No weighting.".to_string()),
        ("investigate".to_string(), "Answer.".to_string()),
    ]);
    let (selected, available, summary) = workon::labels::create_intent_lines(&state);
    assert_eq!(available, "blank | investigate");
    assert_eq!(selected, "1/2 blank");
    assert_eq!(summary.as_deref(), Some("No weighting."));
}

#[test]
fn a_work_is_archived_beside_its_work_folder() {
    let work = WorkSummary {
        title: "Billing".to_string(),
        slug: "billing".to_string(),
        goal: "Investigate billing".to_string(),
        intent_id: "investigate".to_string(),
        path: "/tmp/workon/.workon/work/billing".to_string(),
    };
    assert_eq!(archive_path_for(&work), "/tmp/workon/.workon/archive/billing");

    let shallow = WorkSummary { path: "/work/billing".to_string(), ..work.clone() };
    assert_eq!(archive_path_for(&shallow), "/archive/billing");

    let bare = WorkSummary { path: "billing".to_string(), ..work.clone() };
    assert_eq!(archive_path_for(&bare), ".workon/archive/billing");

    let rooted = WorkSummary { path: "/".to_string(), ..work };
    assert_eq!(archive_path_for(&rooted), ".workon/archive/billing");
}
