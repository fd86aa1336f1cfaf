use workon::domain::{WorkList, WorkSummary};
use workon::events::{Toast, TraceKind};
use workon::repo_batch::{first_error_line, show_repo_batch_outcome};
use workon::repo_jobs::RepoBatchOutcome;
use workon::tui_state::TuiState;

#[test]
fn repo_batch_failure_toast_shows_first_failure_reason() {
    let mut state = TuiState::new(work_list());
    show_repo_batch_outcome(
        &mut state,
        RepoBatchOutcome {
            successes: 0,
            failures: vec![
                "example/private-repo: failed to remove repository link\nrepository context command failed".to_string(),
            ],
            cancelled: false,
            skipped: 0,
        },
    );

    let toast = state.toast.expect("failure toast should be shown");
    assert_eq!(toast.title, "Repository context failed");
    assert_eq!(
        toast.message,
        "example/private-repo: failed to remove repository link"
    );
    assert_eq!(state.trace[0].kind, TraceKind::Error);
}

#[test]
fn successful_repo_batch_records_trace_without_toast() {
    let mut state = TuiState::new(work_list());
    state.toast = Some(Toast::info("Previous event", "Keep repositories compact."));

    show_repo_batch_outcome(
        &mut state,
        RepoBatchOutcome {
            successes: 2,
            failures: Vec::new(),
            cancelled: false,
            skipped: 0,
        },
    );

    assert_eq!(state.toast, None);
    assert_eq!(state.trace[0].kind, TraceKind::Sync);
    assert_eq!(state.trace[0].message, "repo context: 2 applied");
}

#[test]
fn repo_batch_cancel_toast_reports_skipped_repositories() {
    let mut state = TuiState::new(work_list());
    show_repo_batch_outcome(
        &mut state,
        RepoBatchOutcome {
            successes: 1,
            failures: Vec::new(),
            cancelled: true,
            skipped: 2,
        },
    );

    let toast = state.toast.expect("cancel toast should be shown");
    assert_eq!(toast.title, "Repository context cancelled");
    assert_eq!(toast.message, "1 applied, 0 failed, 2 skipped.");
    assert_eq!(state.trace[0].kind, TraceKind::Warn);
}

#[test]
fn first_error_line_stops_at_the_first_newline() {
    assert_eq!(first_error_line("a: b\nc"), "a: b");
    assert_eq!(first_error_line("single"), "single");
    assert_eq!(first_error_line(""), "");
}

fn work_list() -> WorkList {
    WorkList {
        works: vec![WorkSummary {
            title: "Billing retry audit".to_string(),
            slug: "billing-retry-audit".to_string(),
            goal: "Find why billing retry alerts spiked.".to_string(),
            intent_id: "investigate".to_string(),
            path: "/tmp/workon/.workon/work/billing-retry-audit".to_string(),
        }],
    }
}

#[test]
fn refresh_shows_progress_then_takes_the_attached_repositories() {
    let mut state = TuiState::new(work_list());
    workon::repo_batch::start_refresh(&mut state, "billing-retry-audit");
    assert!(matches!(
        state.repo.status,
        workon::repo_picker::RepoStatus::Applying { current: 1, total: 1, .. }
    ));

    workon::repo_batch::finish_refresh(
        &mut state,
        Ok(workon::domain::WorkRepositoryList {
            work: work_list().works[0].clone(),
            repositories: Vec::new(),
        }),
    );
    assert!(matches!(state.repo.status, workon::repo_picker::RepoStatus::Ready));
    assert_eq!(
        state.repo.logs.last().map(|e| e.message.as_str()),
        Some("refreshed 0 attached repos")
    );

    workon::repo_batch::finish_refresh(
        &mut state,
        Err(workon::error::WorkonError::RepositoryContext { message: "gh down".to_string() }),
    );
    assert_eq!(state.toast.clone().expect("toast").title, "Refresh failed");
}

#[test]
fn cancel_request_is_logged_and_announced() {
    let mut state = TuiState::new(work_list());
    workon::repo_batch::note_cancel_requested(&mut state);
    assert_eq!(
        state.repo.logs.last().map(|e| (e.kind, e.message.as_str())),
        Some((TraceKind::Warn, "cancel requested; finishing current repository operation"))
    );
    assert_eq!(state.toast.expect("toast").title, "Repository cancel requested");
}
