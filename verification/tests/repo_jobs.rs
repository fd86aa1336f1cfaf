use workon::command::Command;
use workon::domain::{AttachedRepository, RepositoryContextChange, WorkSummary};
use workon::error::WorkonError;
use workon::events::TraceKind;
use workon::output::CommandOutput;
use workon::repo_jobs::{
    run_repo_batch, RepoBatch, RepoBatchDelegate, RepoChangeRequest, RepoCommandResult, RepoStep,
    RepoStepReport,
};
use workon::repo_picker::RepoOperation;

#[test]
fn repo_jobs_batch_orders_adds_before_removes_with_progress_counts() {
    let mut batch = RepoBatch::new(request());

    let first = batch.next_step().expect("first step");
    let second = batch.next_step().expect("second step");
    let third = batch.next_step().expect("third step");

    assert_eq!(first.current, 1);
    assert_eq!(first.total, 3);
    assert_eq!(first.repository, "openai/api");
    assert_eq!(second.repository, "openai/docs");
    assert_eq!(third.repository, "openai/workon");
}

#[test]
fn repo_jobs_batch_records_failure_and_cancelled_skip_count_without_terminal() {
    let mut batch = RepoBatch::new(request());
    let first = batch.next_step().expect("first step");
    let second = batch.next_step().expect("second step");

    batch.record_result(
        &first,
        Ok(CommandOutput::WorkRepositoriesAdded(repository_change())),
        false,
    );
    batch.record_result(
        &second,
        Err(WorkonError::RepositoryContext {
            message: "failed".to_string(),
        }),
        true,
    );
    let outcome = batch.finish();

    assert_eq!(outcome.successes, 1);
    assert_eq!(outcome.failures, ["openai/docs: failed"]);
    assert!(outcome.cancelled);
    assert_eq!(outcome.skipped, 1);
}

#[test]
fn repo_jobs_batch_runner_executes_steps_through_delegate() {
    let mut delegate = FakeDelegate {
        cancel_on_second: true,
        ran: Vec::new(),
        reports: Vec::new(),
    };

    let outcome = run_repo_batch(request(), &mut delegate).expect("batch should run");

    assert_eq!(delegate.ran, ["openai/api", "openai/docs"]);
    assert_eq!(delegate.reports.len(), 2);
    assert!(outcome.cancelled);
    assert_eq!(outcome.skipped, 1);
}

#[test]
fn batch_reports_duplicate_add_as_already_attached_noop() {
    let mut batch = RepoBatch::new(RepoChangeRequest {
        work_slug: "billing".to_string(),
        add: vec!["openai/api".to_string()],
        link: Vec::new(),
        remove: Vec::new(),
        force_remove: false,
        workspace: None,
    });
    let step = batch.next_step().expect("add step");

    let report = batch.record_result(
        &step,
        Ok(CommandOutput::WorkRepositoriesAdded(RepositoryContextChange {
            work: work_summary(),
            repositories: Vec::new(),
        })),
        false,
    );
    let outcome = batch.finish();

    assert_eq!(report.message, "already attached openai/api");
    assert_eq!(outcome.successes, 0);
    assert!(outcome.failures.is_empty());
}

#[test]
fn batch_links_local_paths_between_adds_and_removes() {
    let mut batch = RepoBatch::new(RepoChangeRequest {
        work_slug: "billing".to_string(),
        add: vec!["openai/api".to_string()],
        link: vec!["/tmp/repos/local-tool".to_string()],
        remove: vec!["openai/workon".to_string()],
        force_remove: false,
        workspace: None,
    });

    let add = batch.next_step().expect("add step");
    let link = batch.next_step().expect("link step");
    let remove = batch.next_step().expect("remove step");

    assert_eq!(add.repository, "openai/api");
    assert_eq!(link.operation, RepoOperation::Link);
    assert_eq!(link.repository, "/tmp/repos/local-tool");
    assert!(matches!(link.command, Command::LinkWorkRepositories { .. }));
    assert_eq!(remove.repository, "openai/workon");
    assert!(batch.next_step().is_none());
}

#[test]
fn batch_reports_forced_removal_and_failures_as_errors() {
    let mut batch = RepoBatch::new(request());
    let _ = batch.next_step();
    let _ = batch.next_step();
    let remove = batch.next_step().expect("remove step");
    assert!(remove.force_remove);

    let report = batch.record_result(
        &remove,
        Err(WorkonError::RepositoryContext { message: "dirty".to_string() }),
        false,
    );

    assert_eq!(report.kind, TraceKind::Error);
    assert_eq!(report.message, "openai/workon: dirty");
    assert!(!batch.is_cancelled());
}

fn request() -> RepoChangeRequest {
    RepoChangeRequest {
        work_slug: "billing".to_string(),
        add: vec!["openai/api".to_string(), "openai/docs".to_string()],
        link: Vec::new(),
        remove: vec!["openai/workon".to_string()],
        force_remove: true,
        workspace: None,
    }
}

fn work_summary() -> WorkSummary {
    WorkSummary {
        title: "Billing".to_string(),
        slug: "billing".to_string(),
        goal: "Investigate billing".to_string(),
        intent_id: "investigate".to_string(),
        path: "/tmp/workon/billing".to_string(),
    }
}

fn repository_change() -> RepositoryContextChange {
    RepositoryContextChange {
        work: work_summary(),
        repositories: vec![AttachedRepository {
            name_with_owner: "openai/api".to_string(),
            branch: "main".to_string(),
            path: "/tmp/workon/billing/api".to_string(),
            default_branch: "main".to_string(),
            url: "https://github.com/openai/api".to_string(),
        }],
    }
}

struct FakeDelegate {
    cancel_on_second: bool,
    ran: Vec<String>,
    reports: Vec<String>,
}

impl RepoBatchDelegate for FakeDelegate {
    fn run_step(&mut self, step: &RepoStep) -> Result<RepoCommandResult, WorkonError> {
        self.ran.push(step.repository.clone());
        Ok(RepoCommandResult {
            result: Ok(CommandOutput::WorkRepositoriesAdded(repository_change())),
            cancel_requested: self.cancel_on_second && self.ran.len() == 2,
        })
    }

    fn record_report(&mut self, report: RepoStepReport) -> Result<(), WorkonError> {
        self.reports.push(report.message);
        Ok(())
    }
}

#[test]
fn empty_batch_succeeds_without_calling_the_delegate() {
    let mut delegate = FakeDelegate { cancel_on_second: false, ran: Vec::new(), reports: Vec::new() };
    let request = RepoChangeRequest {
        work_slug: "billing".to_string(),
        add: Vec::new(),
        link: Vec::new(),
        remove: Vec::new(),
        force_remove: false,
        workspace: None,
    };

    let outcome = run_repo_batch(request, &mut delegate).expect("empty batch should run");

    assert!(delegate.ran.is_empty());
    assert_eq!(outcome.successes, 0);
    assert!(outcome.failures.is_empty());
    assert!(!outcome.cancelled);
    assert_eq!(outcome.skipped, 0);
}

#[test]
fn cancelled_batch_stops_and_counts_the_rest_as_skipped() {
    let mut delegate = FakeDelegate { cancel_on_second: true, ran: Vec::new(), reports: Vec::new() };

    let outcome = run_repo_batch(request(), &mut delegate).expect("batch should run");

    assert_eq!(delegate.ran, vec!["openai/api".to_string(), "openai/docs".to_string()]);
    assert_eq!(
        delegate.reports,
        vec!["attached openai/api".to_string(), "attached openai/docs".to_string()]
    );
    assert_eq!(outcome.successes, 2);
    assert!(outcome.failures.is_empty());
    assert!(outcome.cancelled);
    assert_eq!(outcome.skipped, 1);
}

#[test]
fn batch_hands_out_each_planned_step_once_then_nothing() {
    let mut batch = RepoBatch::new(request());
    let mut seen = Vec::new();
    while let Some(step) = batch.next_step() {
        seen.push((step.operation, step.current, step.total, step.repository));
    }

    assert_eq!(
        seen,
        vec![
            (RepoOperation::Add, 1, 3, "openai/api".to_string()),
            (RepoOperation::Add, 2, 3, "openai/docs".to_string()),
            (RepoOperation::Remove, 3, 3, "openai/workon".to_string()),
        ]
    );
    assert!(batch.next_step().is_none());
}

#[test]
fn batch_orders_adds_before_removes_with_progress_counts() {
    let mut batch = RepoBatch::new(request());

    let first = batch.next_step().expect("first step");
    let second = batch.next_step().expect("second step");
    let third = batch.next_step().expect("third step");

    assert_eq!(first.current, 1);
    assert_eq!(first.total, 3);
    assert_eq!(first.repository, "openai/api");
    assert_eq!(second.repository, "openai/docs");
    assert_eq!(third.repository, "openai/workon");
}

#[test]
fn batch_records_failure_and_cancelled_skip_count_without_terminal() {
    let mut batch = RepoBatch::new(request());
    let first = batch.next_step().expect("first step");
    let second = batch.next_step().expect("second step");

    batch.record_result(
        &first,
        Ok(CommandOutput::WorkRepositoriesAdded(repository_change())),
        false,
    );
    batch.record_result(
        &second,
        Err(WorkonError::RepositoryContext {
            message: "failed".to_string(),
        }),
        true,
    );
    let outcome = batch.finish();

    assert_eq!(outcome.successes, 1);
    assert_eq!(outcome.failures, ["openai/docs: failed"]);
    assert!(outcome.cancelled);
    assert_eq!(outcome.skipped, 1);
}

#[test]
fn batch_runner_executes_steps_through_delegate() {
    let mut delegate = FakeDelegate {
        cancel_on_second: true,
        ran: Vec::new(),
        reports: Vec::new(),
    };

    let outcome = run_repo_batch(request(), &mut delegate).expect("batch should run");

    assert_eq!(delegate.ran, ["openai/api", "openai/docs"]);
    assert_eq!(delegate.reports.len(), 2);
    assert!(outcome.cancelled);
    assert_eq!(outcome.skipped, 1);
}

struct FailingDelegate {
    ran: Vec<String>,
    reports: Vec<String>,
}

impl RepoBatchDelegate for FailingDelegate {
    fn run_step(&mut self, step: &RepoStep) -> Result<RepoCommandResult, WorkonError> {
        self.ran.push(step.repository.clone());
        if self.ran.len() == 2 {
            return Err(WorkonError::RepositoryContext { message: "terminal closed".to_string() });
        }
        Ok(RepoCommandResult {
            result: Ok(CommandOutput::WorkRepositoriesAdded(repository_change())),
            cancel_requested: false,
        })
    }

    fn record_report(&mut self, report: RepoStepReport) -> Result<(), WorkonError> {
        self.reports.push(report.message);
        Ok(())
    }
}

#[test]
fn a_delegate_failure_ends_the_batch_with_that_error() {
    let mut delegate = FailingDelegate { ran: Vec::new(), reports: Vec::new() };

    let result = run_repo_batch(request(), &mut delegate);

    assert!(matches!(
        result,
        Err(WorkonError::RepositoryContext { ref message }) if message == "terminal closed"
    ));
    assert_eq!(delegate.ran, vec!["openai/api".to_string(), "openai/docs".to_string()]);
    assert_eq!(delegate.reports, vec!["attached openai/api".to_string()]);
}
