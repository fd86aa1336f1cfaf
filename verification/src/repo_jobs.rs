use vstd::prelude::*;

use crate::command::{clone_opt, opt_text, Command, SpecCommand};
use crate::error::{error_text, WorkonError};
use crate::events::TraceKind;
use crate::output::CommandOutput;
use crate::repo_picker::RepoOperation;
use crate::text::{clone_string, concat2, concat3, texts};

verus! {

/// The repository changes to apply to a Work.
#[derive(Debug, Clone, PartialEq, Eq)]
pub struct RepoChangeRequest {
    pub work_slug: String,
    pub add: Vec<String>,
    pub link: Vec<String>,
    pub remove: Vec<String>,
    pub force_remove: bool,
    pub workspace: Option<String>,
}

/// One repository operation of a batch, with its progress.
#[derive(Debug, Clone, PartialEq, Eq)]
pub struct RepoStep {
    pub operation: RepoOperation,
    pub current: usize,
    pub total: usize,
    pub repository: String,
    pub command: Command,
    pub force_remove: bool,
}

/// What a batch did.
#[derive(Debug, Default, Clone, PartialEq, Eq)]
pub struct RepoBatchOutcome {
    pub successes: usize,
    pub failures: Vec<String>,
    pub cancelled: bool,
    pub skipped: usize,
}

/// The log line of one finished step.
#[derive(Debug, Clone, PartialEq, Eq)]
pub struct RepoStepReport {
    pub kind: TraceKind,
    pub message: String,
}

/// The result of running one step's command, and whether the user asked
/// to cancel meanwhile.
#[derive(Debug)]
pub struct RepoCommandResult {
    pub result: Result<CommandOutput, WorkonError>,
    pub cancel_requested: bool,
}

/// A call a batch made of its delegate, with what the delegate returned.
pub enum DelegateCall {
    RunStep { step: RepoStep, result: Result<RepoCommandResult, WorkonError> },
    RecordReport { report: RepoStepReport, result: Result<(), WorkonError> },
}

/// Runs the steps of a batch and records their reports; the interactive
/// view implements it, and so can a test. An implementation may keep the
/// history of the calls made of it, each with its result: it then says so
/// by `keeps_history`, and each call appends itself to `calls`. By default
/// an implementation keeps none, and its calls promise nothing.
pub trait RepoBatchDelegate {
    /// Whether this delegate keeps the history of its calls.
    open spec fn keeps_history(&self) -> bool {
        false
    }

    /// The calls made of this delegate so far, in order, with their results.
    open spec fn calls(&self) -> Seq<DelegateCall> {
        Seq::empty()
    }

    /// Runs the command of a step.
    fn run_step(&mut self, step: &RepoStep) -> (r: Result<RepoCommandResult, WorkonError>)
        ensures
            old(self).keeps_history() ==> final(self).keeps_history() && final(self).calls()
                == old(self).calls().push(DelegateCall::RunStep { step: *step, result: r }),
    ;

    /// Records the report of a finished step.
    fn record_report(&mut self, report: RepoStepReport) -> (r: Result<(), WorkonError>)
        ensures
            old(self).keeps_history() ==> final(self).keeps_history() && final(self).calls()
                == old(self).calls().push(DelegateCall::RecordReport { report, result: r }),
    ;
}

/// The steps of a batch and how far it got.
#[derive(Debug, Clone, PartialEq, Eq)]
pub struct RepoBatch {
    pub steps: Vec<RepoStep>,
    pub next: usize,
    pub outcome: RepoBatchOutcome,
}

/// The view of a step: its fields, with texts in place of strings.
pub open spec fn step_view(s: RepoStep) -> (RepoOperation, usize, usize, Seq<char>, SpecCommand, bool) {
    (s.operation, s.current, s.total, s.repository@, s.command@, s.force_remove)
}

/// The step at position `k` of the batch for a request: adds first, then
/// links, then removals, numbered from one.
pub open spec fn planned_step(r: RepoChangeRequest, k: int) -> (RepoOperation, usize, usize, Seq<char>, SpecCommand, bool) {
    let total = (r.add@.len() + r.link@.len() + r.remove@.len()) as usize;
    let slug = r.work_slug@;
    if k < r.add@.len() {
        (
            RepoOperation::Add,
            (k + 1) as usize,
            total,
            r.add@[k]@,
            SpecCommand::AddWorkRepositories {
                query: slug,
                repositories: seq![r.add@[k]@],
                workspace: opt_text(r.workspace),
            },
            false,
        )
    } else if k < r.add@.len() + r.link@.len() {
        let j = k - r.add@.len();
        (
            RepoOperation::Link,
            (k + 1) as usize,
            total,
            r.link@[j]@,
            SpecCommand::LinkWorkRepositories { query: slug, paths: seq![r.link@[j]@] },
            false,
        )
    } else {
        let j = k - r.add@.len() - r.link@.len();
        (
            RepoOperation::Remove,
            (k + 1) as usize,
            total,
            r.remove@[j]@,
            SpecCommand::RemoveWorkRepositories {
                query: slug,
                repositories: seq![r.remove@[j]@],
                force: r.force_remove,
            },
            r.force_remove,
        )
    }
}

/// The batch holds the planned steps of the request.
pub open spec fn planned(b: RepoBatch, r: RepoChangeRequest) -> bool {
    &&& b.steps@.len() == r.add@.len() + r.link@.len() + r.remove@.len()
    &&& forall|k: int| 0 <= k < b.steps@.len() ==> step_view(#[trigger] b.steps@[k]) == planned_step(r, k)
}

/// How many repositories an output says changed: the listed ones for an
/// add or remove, one otherwise.
pub open spec fn changed_count(o: CommandOutput) -> int {
    match o {
        CommandOutput::WorkRepositoriesAdded(c) => c.repositories@.len() as int,
        CommandOutput::WorkRepositoriesRemoved(c) => c.repositories@.len() as int,
        _ => 1,
    }
}

/// The log line of a step that succeeded.
pub open spec fn success_text(s: RepoStep, o: CommandOutput) -> Seq<char> {
    if (s.operation == RepoOperation::Add || s.operation == RepoOperation::Link) && changed_count(o)
        == 0 {
        "already attached "@ + s.repository@
    } else {
        match s.operation {
            RepoOperation::Add => "attached "@ + s.repository@,
            RepoOperation::Link => "linked "@ + s.repository@,
            RepoOperation::Remove => if s.force_remove {
                "force removed "@ + s.repository@
            } else {
                "removed "@ + s.repository@
            },
            RepoOperation::Refresh => "refreshed "@ + s.repository@,
        }
    }
}

/// The text of a failed step.
pub open spec fn failure_text(s: RepoStep, e: WorkonError) -> Seq<char> {
    s.repository@ + ": "@ + error_text(e)
}

/// The view of an outcome: successes, failure texts, whether cancelled, and
/// how many steps were skipped.
pub open spec fn outcome_view(o: RepoBatchOutcome) -> (int, Seq<Seq<char>>, bool, int) {
    (o.successes as int, texts(o.failures@), o.cancelled, o.skipped as int)
}

/// The outcome `v` after the planned step at position `k` of the batch for
/// `r` ended with the command result `c`: a success counts when the output
/// says a repository changed, a failure is kept with its text, and a cancel
/// counts the steps after it as skipped.
pub open spec fn step_recorded(
    v: (int, Seq<Seq<char>>, bool, int),
    r: RepoChangeRequest,
    k: int,
    c: RepoCommandResult,
) -> (int, Seq<Seq<char>>, bool, int) {
    let total = r.add@.len() + r.link@.len() + r.remove@.len();
    let (successes, failures) = match c.result {
        Ok(o) => (if changed_count(o) > 0 { v.0 + 1 } else { v.0 }, v.1),
        Err(e) => (v.0, v.1.push(planned_step(r, k).3 + ": "@ + error_text(e))),
    };
    if c.cancel_requested {
        (successes, failures, true, total - (k + 1))
    } else {
        (successes, failures, v.2, v.3)
    }
}

/// The outcome of the batch for `r` once its first steps ended with the
/// command results `cs`, one per step, in order.
pub open spec fn steps_recorded(r: RepoChangeRequest, cs: Seq<RepoCommandResult>) -> (int, Seq<Seq<char>>, bool, int)
    decreases cs.len(),
{
    if cs.len() == 0 {
        (0, Seq::empty(), false, 0)
    } else {
        step_recorded(steps_recorded(r, cs.drop_last()), r, cs.len() - 1, cs.last())
    }
}

/// The view of the step a batch hands out next, if any.
pub open spec fn upcoming(b: RepoBatch) -> Option<(RepoOperation, usize, usize, Seq<char>, SpecCommand, bool)> {
    if b.next < b.steps@.len() {
        Some(step_view(b.steps@[b.next as int]))
    } else {
        None
    }
}

/// The batch once it handed out its next step, if any.
pub open spec fn stepped(b: RepoBatch) -> RepoBatch {
    if b.next < b.steps@.len() {
        RepoBatch { next: (b.next + 1) as usize, ..b }
    } else {
        b
    }
}

/// The batch once it was asked for its next step `k` times.
pub open spec fn stepped_times(b: RepoBatch, k: nat) -> RepoBatch
    decreases k,
{
    if k == 0 {
        b
    } else {
        stepped(stepped_times(b, (k - 1) as nat))
    }
}

/// A fresh batch hands out its planned steps one after another, in order,
/// and then nothing: after `k` requests for the next step, the next one is
/// the planned step at position `k` while there is one, and none after the
/// last.
pub proof fn law_successive_steps_follow_the_plan(b: RepoBatch, r: RepoChangeRequest, k: nat)
    requires
        planned(b, r),
        b.next == 0,
    ensures
        stepped_times(b, k).steps == b.steps,
        k < b.steps@.len() ==> upcoming(stepped_times(b, k)) == Some(planned_step(r, k as int)),
        k >= b.steps@.len() ==> upcoming(stepped_times(b, k)) is None,
{
    lemma_stepped_times_next(b, k);
}

/// After `k` requests a fresh batch has handed out `k` steps, or all.
proof fn lemma_stepped_times_next(b: RepoBatch, k: nat)
    requires
        b.next == 0,
    ensures
        stepped_times(b, k).steps == b.steps,
        stepped_times(b, k).next == if k < b.steps@.len() { k as int } else { b.steps@.len() as int },
    decreases k,
{
    if k > 0 {
        lemma_stepped_times_next(b, (k - 1) as nat);
        assert(b.steps@.len() == b.steps.len());
    }
}

/// `report` is the report that recording a step that ended with `result`
/// makes: the success text, or the failure text as an error.
pub open spec fn report_for(s: RepoStep, result: Result<CommandOutput, WorkonError>, report: RepoStepReport) -> bool {
    match result {
        Ok(o) => report.kind == TraceKind::Sync && report.message@ == success_text(s, o),
        Err(e) => report.kind == TraceKind::Error && report.message@ == failure_text(s, e),
    }
}

/// In the history `h` of a batch for `r`, the planned step at position `j`
/// was run, at call `2j`, returning a command result, and the report made
/// for it was recorded, at call `2j + 1`.
pub open spec fn step_done(r: RepoChangeRequest, h: Seq<DelegateCall>, j: int) -> bool {
    &&& h[2 * j] matches DelegateCall::RunStep { step, result: Ok(c) }
    &&& step_view(step) == planned_step(r, j)
    &&& h[2 * j + 1] matches DelegateCall::RecordReport { report, result: Ok(()) }
    &&& report_for(step, c.result, report)
}

/// The command results that the first `k` runs of a history returned.
pub open spec fn run_results(h: Seq<DelegateCall>, k: int) -> Seq<RepoCommandResult> {
    Seq::new(k as nat, |j: int| h[2 * j]->RunStep_result->Ok_0)
}

/// The batch for `r` made the calls `h` of its delegate and answered
/// `out`: each planned step in order was run and then its report recorded,
/// until all ran, a step asked to cancel, or the delegate failed; the
/// outcome is what the returned command results record, and a failure of
/// the delegate is the answer, with no call after it.
pub open spec fn batch_ran(r: RepoChangeRequest, h: Seq<DelegateCall>, out: Result<RepoBatchOutcome, WorkonError>) -> bool {
    let n = r.add@.len() + r.link@.len() + r.remove@.len();
    match out {
        Ok(o) => {
            let k: int = (h.len() / 2) as int;
            &&& h.len() == 2 * k
            &&& k <= n
            &&& forall|j: int| 0 <= j < k ==> #[trigger] step_done(r, h, j)
            &&& forall|j: int| 0 <= j < k - 1 ==> !(#[trigger] run_results(h, k)[j]).cancel_requested
            &&& k == n || run_results(h, k).last().cancel_requested
            &&& outcome_view(o) == steps_recorded(r, run_results(h, k))
        },
        Err(e) => {
            let k: int = if h.len() % 2 == 1 {
                (h.len() / 2) as int
            } else {
                h.len() / 2 - 1
            };
            &&& h.len() > 0
            &&& 0 <= k < n
            &&& forall|j: int| 0 <= j < k ==> #[trigger] step_done(r, h, j)
            &&& forall|j: int| 0 <= j < k ==> !(#[trigger] run_results(h, k)[j]).cancel_requested
            &&& if h.len() % 2 == 1 {
                &&& h.last() matches DelegateCall::RunStep { step, result: Err(failure) }
                &&& failure == e
                &&& step_view(step) == planned_step(r, k)
            } else {
                &&& h[h.len() - 2] matches DelegateCall::RunStep { step, result: Ok(c) }
                &&& step_view(step) == planned_step(r, k)
                &&& h.last() matches DelegateCall::RecordReport { report, result: Err(failure) }
                &&& failure == e
                &&& report_for(step, c.result, report)
            }
        },
    }
}

/// One more call keeps what the earlier calls of a history say.
proof fn lemma_history_extended(r: RepoChangeRequest, h: Seq<DelegateCall>, x: DelegateCall, k: int)
    requires
        0 <= k,
        2 * k <= h.len(),
        forall|j: int| 0 <= j < k ==> #[trigger] step_done(r, h, j),
    ensures
        forall|j: int| 0 <= j < k ==> #[trigger] step_done(r, h.push(x), j),
        run_results(h.push(x), k) == run_results(h, k),
{
    assert forall|j: int| 0 <= j < k implies #[trigger] step_done(r, h.push(x), j) by {
        assert(step_done(r, h, j));
        assert(h.push(x)[2 * j] == h[2 * j]);
        assert(h.push(x)[2 * j + 1] == h[2 * j + 1]);
    }
    assert(run_results(h.push(x), k) =~= run_results(h, k));
}

impl RepoStep {
    /// How many repositories the output says changed.
    pub fn changed_repositories(&self, output: &CommandOutput) -> (r: usize)
        ensures
            r as int == changed_count(*output),
    {
        match output {
            CommandOutput::WorkRepositoriesAdded(c) => c.repositories.len(),
            CommandOutput::WorkRepositoriesRemoved(c) => c.repositories.len(),
            _ => 1,
        }
    }

    /// The log line when the step succeeded.
    pub fn success_message(&self, output: &CommandOutput) -> (r: String)
        ensures
            r@ == success_text(*self, *output),
    {
        let joining = match self.operation {
            RepoOperation::Add | RepoOperation::Link => true,
            _ => false,
        };
        if joining && self.changed_repositories(output) == 0 {
            return concat2("already attached ", self.repository.as_str());
        }
        match self.operation {
            RepoOperation::Add => concat2("attached ", self.repository.as_str()),
            RepoOperation::Link => concat2("linked ", self.repository.as_str()),
            RepoOperation::Remove => {
                if self.force_remove {
                    concat2("force removed ", self.repository.as_str())
                } else {
                    concat2("removed ", self.repository.as_str())
                }
            },
            RepoOperation::Refresh => concat2("refreshed ", self.repository.as_str()),
        }
    }
}

/// An executable copy of a step.
pub fn clone_step(s: &RepoStep) -> (c: RepoStep)
    ensures
        step_view(c) == step_view(*s),
{
    let command = match &s.command {
        Command::AddWorkRepositories { query, repositories, workspace } => {
            Command::AddWorkRepositories {
                query: clone_string(query),
                repositories: crate::text::clone_strings(repositories),
                workspace: clone_opt(workspace),
            }
        },
        Command::LinkWorkRepositories { query, paths } => Command::LinkWorkRepositories {
            query: clone_string(query),
            paths: crate::text::clone_strings(paths),
        },
        Command::RemoveWorkRepositories { query, repositories, force } => {
            Command::RemoveWorkRepositories {
                query: clone_string(query),
                repositories: crate::text::clone_strings(repositories),
                force: *force,
            }
        },
        Command::ListWorkRepositories { query } => Command::ListWorkRepositories {
            query: clone_string(query),
        },
        _ => clone_other_command(&s.command),
    };
    RepoStep {
        operation: s.operation,
        current: s.current,
        total: s.total,
        repository: clone_string(&s.repository),
        command,
        force_remove: s.force_remove,
    }
}

/// An executable copy of a command.
fn clone_other_command(c: &Command) -> (r: Command)
    ensures
        r@ == c@,
{
    match c {
        Command::ListWorks => Command::ListWorks,
        Command::InstallShell => Command::InstallShell,
        Command::InstallDevShell { manifest_path } => Command::InstallDevShell {
            manifest_path: clone_string(manifest_path),
        },
        Command::OpenOrCreate { input, intent_id } => Command::OpenOrCreate {
            input: clone_string(input),
            intent_id: clone_opt(intent_id),
        },
        Command::CreateWork { goal, intent_id } => Command::CreateWork {
            goal: clone_string(goal),
            intent_id: clone_string(intent_id),
        },
        Command::OpenWork { query } => Command::OpenWork { query: clone_string(query) },
        Command::ArchiveWork { query } => Command::ArchiveWork { query: clone_string(query) },
        Command::ListIntents => Command::ListIntents,
        Command::ShowIntent { intent_id } => Command::ShowIntent {
            intent_id: clone_string(intent_id),
        },
        Command::SwitchWorkIntent { query, intent_id } => Command::SwitchWorkIntent {
            query: clone_string(query),
            intent_id: clone_string(intent_id),
        },
        Command::ListWorkRepositories { query } => Command::ListWorkRepositories {
            query: clone_string(query),
        },
        Command::ListRepositoryCandidates { query } => Command::ListRepositoryCandidates {
            query: clone_string(query),
        },
        Command::ListRepositoryCandidatePaths { query } => Command::ListRepositoryCandidatePaths {
            query: clone_string(query),
        },
        Command::InspectRepositoryCandidate { path, refresh } =>
            Command::InspectRepositoryCandidate { path: clone_string(path), refresh: *refresh },
        Command::LinkWorkRepositories { query, paths } => Command::LinkWorkRepositories {
            query: clone_string(query),
            paths: crate::text::clone_strings(paths),
        },
        Command::AddWorkRepositories { query, repositories, workspace } =>
            Command::AddWorkRepositories {
            query: clone_string(query),
            repositories: crate::text::clone_strings(repositories),
            workspace: clone_opt(workspace),
        },
        Command::RemoveWorkRepositories { query, repositories, force } =>
            Command::RemoveWorkRepositories {
            query: clone_string(query),
            repositories: crate::text::clone_strings(repositories),
            force: *force,
        },
        Command::ListRepositoryWorkspaces => Command::ListRepositoryWorkspaces,
        Command::AddRepositoryWorkspaces { paths } => Command::AddRepositoryWorkspaces {
            paths: crate::text::clone_strings(paths),
        },
        Command::RemoveRepositoryWorkspace { path } => Command::RemoveRepositoryWorkspace {
            path: clone_string(path),
        },
        Command::ListGitHubRepositories => Command::ListGitHubRepositories,
    }
}

impl RepoBatch {
    /// The batch for a request: one step per repository, adds first, then
    /// links, then removals.
    pub fn new(request: RepoChangeRequest) -> (b: RepoBatch)
        requires
            request.add@.len() + request.link@.len() + request.remove@.len() <= usize::MAX,
        ensures
            planned(b, request),
            b.next == 0,
            b.outcome.successes == 0,
            b.outcome.failures@.len() == 0,
            !b.outcome.cancelled,
            b.outcome.skipped == 0,
    {
        let total = request.add.len() + request.link.len() + request.remove.len();
        let mut steps: Vec<RepoStep> = Vec::new();
        let mut i: usize = 0;
        while i < request.add.len()
            invariant
                i <= request.add@.len(),
                total == request.add@.len() + request.link@.len() + request.remove@.len(),
                steps@.len() == i,
                forall|k: int| 0 <= k < i ==> step_view(#[trigger] steps@[k]) == planned_step(request, k),
            decreases request.add@.len() - i,
        {
            let repository = clone_string(&request.add[i]);
            let mut one: Vec<String> = Vec::new();
            one.push(clone_string(&request.add[i]));
            assert(texts(one@) =~= seq![request.add@[i as int]@]);
            steps.push(RepoStep {
                operation: RepoOperation::Add,
                current: i + 1,
                total,
                repository,
                command: Command::AddWorkRepositories {
                    query: clone_string(&request.work_slug),
                    repositories: one,
                    workspace: clone_opt(&request.workspace),
                },
                force_remove: false,
            });
            i = i + 1;
        }
        let mut j: usize = 0;
        while j < request.link.len()
            invariant
                j <= request.link@.len(),
                total == request.add@.len() + request.link@.len() + request.remove@.len(),
                steps@.len() == request.add@.len() + j,
                forall|k: int| 0 <= k < steps@.len() ==> step_view(#[trigger] steps@[k]) == planned_step(request, k),
            decreases request.link@.len() - j,
        {
            let k = request.add.len() + j;
            let repository = clone_string(&request.link[j]);
            let mut one: Vec<String> = Vec::new();
            one.push(clone_string(&request.link[j]));
            assert(texts(one@) =~= seq![request.link@[j as int]@]);
            steps.push(RepoStep {
                operation: RepoOperation::Link,
                current: k + 1,
                total,
                repository,
                command: Command::LinkWorkRepositories {
                    query: clone_string(&request.work_slug),
                    paths: one,
                },
                force_remove: false,
            });
            j = j + 1;
        }
        let mut j: usize = 0;
        while j < request.remove.len()
            invariant
                j <= request.remove@.len(),
                total == request.add@.len() + request.link@.len() + request.remove@.len(),
                steps@.len() == request.add@.len() + request.link@.len() + j,
                forall|k: int| 0 <= k < steps@.len() ==> step_view(#[trigger] steps@[k]) == planned_step(request, k),
            decreases request.remove@.len() - j,
        {
            let k = request.add.len() + request.link.len() + j;
            let repository = clone_string(&request.remove[j]);
            let mut one: Vec<String> = Vec::new();
            one.push(clone_string(&request.remove[j]));
            assert(texts(one@) =~= seq![request.remove@[j as int]@]);
            steps.push(RepoStep {
                operation: RepoOperation::Remove,
                current: k + 1,
                total,
                repository,
                command: Command::RemoveWorkRepositories {
                    query: clone_string(&request.work_slug),
                    repositories: one,
                    force: request.force_remove,
                },
                force_remove: request.force_remove,
            });
            j = j + 1;
        }
        RepoBatch {
            steps,
            next: 0,
            outcome: RepoBatchOutcome {
                successes: 0,
                failures: Vec::new(),
                cancelled: false,
                skipped: 0,
            },
        }
    }

    /// The next step to run, if any.
    pub fn next_step(&mut self) -> (r: Option<RepoStep>)
        ensures
            *final(self) == stepped(*old(self)),
            match r {
                Some(s) => upcoming(*old(self)) == Some(step_view(s)),
                None => upcoming(*old(self)) is None,
            },
            old(self).next < old(self).steps@.len() ==> (r matches Some(s) && step_view(s)
                == step_view(old(self).steps@[old(self).next as int])) && *final(self) == (
            RepoBatch { next: (old(self).next + 1) as usize, ..*old(self) }),
            old(self).next >= old(self).steps@.len() ==> r is None && *final(self) == *old(self),
    {
        if self.next < self.steps.len() {
            let step = clone_step(&self.steps[self.next]);
            self.next = self.next + 1;
            Some(step)
        } else {
            None
        }
    }

    /// Records how a step ended: a success counts when the output says a
    /// repository changed; a failure is kept with its reason. A cancel
    /// request counts the steps not yet run as skipped.
    pub fn record_result(&mut self, step: &RepoStep, result: Result<CommandOutput, WorkonError>, cancel_requested: bool) -> (report: RepoStepReport)
        requires
            old(self).outcome.successes < usize::MAX,
        ensures
            final(self).steps == old(self).steps,
            final(self).next == old(self).next,
            match result {
                Ok(o) => {
                    &&& report.kind == TraceKind::Sync
                    &&& report.message@ == success_text(*step, o)
                    &&& final(self).outcome.successes == if changed_count(o) > 0 {
                        old(self).outcome.successes + 1
                    } else {
                        old(self).outcome.successes as int
                    }
                    &&& final(self).outcome.failures@ == old(self).outcome.failures@
                },
                Err(e) => {
                    &&& report.kind == TraceKind::Error
                    &&& report.message@ == failure_text(*step, e)
                    &&& final(self).outcome.successes == old(self).outcome.successes
                    &&& final(self).outcome.failures@.len() == old(self).outcome.failures@.len() + 1
                    &&& final(self).outcome.failures@.drop_last() == old(self).outcome.failures@
                    &&& final(self).outcome.failures@.last()@ == failure_text(*step, e)
                },
            },
            cancel_requested ==> final(self).outcome.cancelled && final(self).outcome.skipped == (
            if old(self).steps@.len() >= old(self).next {
                old(self).steps@.len() - old(self).next
            } else {
                0
            }),
            !cancel_requested ==> final(self).outcome.cancelled == old(self).outcome.cancelled
                && final(self).outcome.skipped == old(self).outcome.skipped,
    {
        let report = match result {
            Ok(output) => {
                let message = step.success_message(&output);
                if step.changed_repositories(&output) > 0 {
                    self.outcome.successes = self.outcome.successes + 1;
                }
                RepoStepReport { kind: TraceKind::Sync, message }
            },
            Err(error) => {
                let reason = error.message();
                let failure = concat3(step.repository.as_str(), ": ", reason.as_str());
                let logged = clone_string(&failure);
                self.outcome.failures.push(failure);
                proof {
                    assert(self.outcome.failures@.drop_last() =~= old(self).outcome.failures@);
                }
                RepoStepReport { kind: TraceKind::Error, message: logged }
            },
        };
        if cancel_requested {
            self.outcome.cancelled = true;
            self.outcome.skipped = if self.steps.len() >= self.next {
                self.steps.len() - self.next
            } else {
                0
            };
        }
        report
    }

    /// Whether the batch was cancelled.
    pub fn is_cancelled(&self) -> (r: bool)
        ensures
            r == self.outcome.cancelled,
    {
        self.outcome.cancelled
    }

    /// What the batch did.
    pub fn finish(self) -> (r: RepoBatchOutcome)
        ensures
            r == self.outcome,
    {
        self.outcome
    }
}

/// Runs a batch through a delegate, one step after another, until all ran
/// or the user cancelled; stops at the first error of the delegate itself.
/// A request without repositories asks nothing of the delegate and succeeds
/// with an empty outcome. For a delegate that keeps the history of its
/// calls, the calls this run adds are exactly those `batch_ran` describes.
pub fn run_repo_batch<D: RepoBatchDelegate>(request: RepoChangeRequest, delegate: &mut D) -> (r: Result<RepoBatchOutcome, WorkonError>)
    requires
        request.add@.len() + request.link@.len() + request.remove@.len() <= usize::MAX,
    ensures
        request.add@.len() + request.link@.len() + request.remove@.len() == 0 ==> (r matches Ok(o)
            && o.successes == 0 && o.failures@.len() == 0 && !o.cancelled && o.skipped == 0),
        r matches Ok(o) ==> o.successes + o.failures@.len() <= request.add@.len()
            + request.link@.len() + request.remove@.len(),
        r matches Ok(o) ==> (!o.cancelled ==> o.skipped == 0),
        r matches Ok(o) ==> o.skipped + o.successes + o.failures@.len() <= request.add@.len()
            + request.link@.len() + request.remove@.len(),
        old(delegate).keeps_history() ==> {
            &&& final(delegate).keeps_history()
            &&& final(delegate).calls().len() >= old(delegate).calls().len()
            &&& final(delegate).calls().take(old(delegate).calls().len() as int) == old(delegate).calls()
            &&& batch_ran(request, final(delegate).calls().skip(old(delegate).calls().len() as int), r)
        },
{
    let ghost req = request;
    let ghost h0 = delegate.calls();
    let ghost kept = delegate.keeps_history();
    let mut batch = RepoBatch::new(request);
    let ghost mut cs: Seq<RepoCommandResult> = Seq::empty();
    assert(outcome_view(batch.outcome) == steps_recorded(req, cs)) by {
        assert(texts(batch.outcome.failures@) =~= Seq::<Seq<char>>::empty());
    }
    assert(delegate.calls().take(h0.len() as int) =~= h0);
    assert(run_results(delegate.calls().skip(h0.len() as int), 0) =~= cs);
    loop
        invariant
            req == request,
            h0 == old(delegate).calls(),
            kept == old(delegate).keeps_history(),
            kept ==> delegate.keeps_history(),
            kept ==> delegate.calls().len() == h0.len() + 2 * batch.next,
            kept ==> delegate.calls().take(h0.len() as int) == h0,
            kept ==> forall|j: int| 0 <= j < batch.next ==> #[trigger] step_done(req, delegate.calls().skip(h0.len() as int), j),
            kept ==> cs == run_results(delegate.calls().skip(h0.len() as int), batch.next as int),
            planned(batch, req),
            cs.len() == batch.next,
            outcome_view(batch.outcome) == steps_recorded(req, cs),
            forall|i: int| 0 <= i < cs.len() ==> !(#[trigger] cs[i]).cancel_requested,
            batch.next <= batch.steps@.len(),
            batch.outcome.successes + batch.outcome.failures@.len() <= batch.next,
            !batch.outcome.cancelled,
            batch.outcome.skipped == 0,
            batch.steps@.len() == request.add@.len() + request.link@.len() + request.remove@.len(),
            request.add@.len() + request.link@.len() + request.remove@.len() <= usize::MAX,
        decreases batch.steps@.len() - batch.next,
    {
        let ghost before = batch;
        let ghost h = delegate.calls().skip(h0.len() as int);
        let ghost k = before.next as int;
        let step = match batch.next_step() {
            Some(s) => s,
            None => {
                let outcome = batch.finish();
                assert(outcome_view(outcome) == steps_recorded(req, cs));
                assert(kept ==> h.len() / 2 == k);
                return Ok(outcome);
            },
        };
        assert(before.next < before.steps@.len());
        assert(step_view(step) == planned_step(req, k));
        let ghost calls_before_run = delegate.calls();
        let run = delegate.run_step(&step);
        let ghost run_entry = DelegateCall::RunStep { step: step, result: run };
        proof {
            if kept {
                assert(delegate.calls().take(h0.len() as int) =~= h0);
                assert(delegate.calls().skip(h0.len() as int) =~= h.push(run_entry));
                lemma_history_extended(req, h, run_entry, k);
            }
        }
        let command_result = match run {
            Ok(c) => c,
            Err(e) => {
                proof {
                    if kept {
                        let h1 = h.push(run_entry);
                        assert(h1.len() % 2 == 1 && h1.len() / 2 == k);
                        assert(h1.last() == run_entry);
                    }
                }
                return Err(e);
            },
        };
        assert(batch.outcome == before.outcome);
        let ghost c = command_result;
        let report = batch.record_result(&step, command_result.result, command_result.cancel_requested);
        proof {
            let prev = cs;
            cs = cs.push(c);
            assert(cs.drop_last() =~= prev);
            match c.result {
                Ok(_) => {},
                Err(e) => {
                    assert(texts(batch.outcome.failures@) =~= texts(before.outcome.failures@).push(
                        planned_step(req, k).3 + ": "@ + error_text(e),
                    ));
                },
            }
            assert(outcome_view(batch.outcome) == steps_recorded(req, cs));
            assert(report_for(step, c.result, report));
        }
        let ghost h1 = h.push(run_entry);
        let ghost report_copy = report;
        let recorded = delegate.record_report(report);
        let ghost record_entry = DelegateCall::RecordReport { report: report_copy, result: recorded };
        proof {
            if kept {
                let h2 = h1.push(record_entry);
                assert(delegate.calls().take(h0.len() as int) =~= h0);
                assert(delegate.calls().skip(h0.len() as int) =~= h2);
                lemma_history_extended(req, h1, record_entry, k);
                assert(h2[2 * k] == run_entry);
                assert(h2[2 * k + 1] == record_entry);
            }
        }
        match recorded {
            Ok(()) => {},
            Err(e) => {
                proof {
                    if kept {
                        let h2 = h1.push(record_entry);
                        assert(h2.len() % 2 == 0 && h2.len() / 2 - 1 == k);
                        assert(h2[h2.len() - 2] == run_entry);
                        assert(h2.last() == record_entry);
                    }
                }
                return Err(e);
            },
        }
        proof {
            if kept {
                let h2 = h1.push(record_entry);
                assert(step_done(req, h2, k));
                assert(run_results(h2, k + 1) =~= cs);
            }
        }
        if batch.is_cancelled() {
            let outcome = batch.finish();
            assert(cs.last().cancel_requested);
            assert(outcome_view(outcome) == steps_recorded(req, cs));
            return Ok(outcome);
        }
    }
}

} // verus!
