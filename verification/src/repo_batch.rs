use vstd::prelude::*;

use crate::domain::WorkRepositoryList;
use crate::error::{error_text, WorkonError};
use crate::events::{traced, Toast, ToastKind, TraceEvent, TraceKind};
use crate::repo_jobs::RepoBatchOutcome;
use crate::repo_picker::{RepoOperation, RepoPickerState, RepoStatus};
use crate::storage::{lines, split_lines};
use crate::text::{clone_string, concat2, concat3, decimal, decimal_string, is_blank, owned, push_str, string_from_chars, trim};
use crate::tui_state::{traced_with, TuiState};

verus! {

/// The first of the lines that is not blank, if any.
pub open spec fn first_nonblank(ls: Seq<Seq<char>>) -> Option<Seq<char>>
    decreases ls.len(),
{
    if ls.len() == 0 {
        None
    } else if trim(ls[0]).len() > 0 {
        Some(ls[0])
    } else {
        first_nonblank(ls.drop_first())
    }
}

/// The first line of a message that is not blank, or the whole message.
pub open spec fn first_line_text(message: Seq<char>) -> Seq<char> {
    match first_nonblank(lines(message)) {
        Some(l) => l,
        None => message,
    }
}

/// The first line of a message that is not blank, or the whole message.
pub fn first_error_line(message: &str) -> (r: String)
    ensures
        r@ == first_line_text(message@),
{
    let rows = split_lines(message);
    let ghost ls = lines(message@);
    let mut i: usize = 0;
    assert(ls.skip(0) =~= ls);
    assert(crate::storage::char_rows(rows@) == ls);
    assert forall|k: int| 0 <= k < rows@.len() implies #[trigger] rows@[k]@ == ls[k] by {
        assert(crate::storage::char_rows(rows@)[k] == rows@[k]@);
    }
    while i < rows.len()
        invariant
            i <= rows@.len(),
            ls == lines(message@),
            rows@.len() == ls.len(),
            forall|k: int| 0 <= k < rows@.len() ==> #[trigger] rows@[k]@ == ls[k],
            first_nonblank(ls) == first_nonblank(ls.skip(i as int)),
        decreases rows@.len() - i,
    {
        let line = string_from_chars(&rows[i]);
        proof {
            assert(ls.skip(i as int)[0] == ls[i as int]);
            assert(ls.skip(i as int).drop_first() =~= ls.skip(i + 1));
        }
        if !is_blank(line.as_str()) {
            assert(first_nonblank(ls.skip(i as int)) == Some(ls[i as int]));
            assert(line@ == ls[i as int]);
            assert(first_line_text(message@) == ls[i as int]);
            return line;
        }
        i = i + 1;
    }
    proof {
        assert(crate::storage::char_rows(rows@) == ls);
        assert(ls.skip(i as int) =~= Seq::<Seq<char>>::empty());
    }
    owned(message)
}

/// The trace after recording each message, in order, as `kind`.
pub open spec fn traced_all(trace: Seq<TraceEvent>, kind: TraceKind, messages: Seq<String>) -> Seq<TraceEvent>
    decreases messages.len(),
{
    if messages.len() == 0 {
        trace
    } else {
        traced(traced_all(trace, kind, messages.drop_last()), TraceEvent { kind, message: messages.last() })
    }
}

/// Records each message in the trace, in order, as `kind`.
fn trace_each(state: &mut TuiState, kind: TraceKind, messages: &Vec<String>)
    ensures
        *final(state) == (TuiState { trace: final(state).trace, ..*old(state) }),
        final(state).trace@ == traced_all(old(state).trace@, kind, messages@),
{
    let mut i: usize = 0;
    assert(messages@.take(0) =~= Seq::<String>::empty());
    while i < messages.len()
        invariant
            i <= messages@.len(),
            *state == (TuiState { trace: state.trace, ..*old(state) }),
            state.trace@ == traced_all(old(state).trace@, kind, messages@.take(i as int)),
        decreases messages@.len() - i,
    {
        proof {
            assert(messages@.take(i + 1).drop_last() =~= messages@.take(i as int));
        }
        state.push_trace(kind, clone_string(&messages[i]));
        i = i + 1;
    }
    assert(messages@.take(messages@.len() as int) =~= messages@);
}

/// The summary of a cancelled batch.
pub open spec fn cancelled_text(o: RepoBatchOutcome) -> Seq<char> {
    decimal(o.successes as nat) + " applied, "@ + decimal(o.failures@.len()) + " failed, "@ + decimal(
        o.skipped as nat,
    ) + " skipped."@
}

/// How the view shows the outcome of a batch: `a` before, `b` after.
pub open spec fn outcome_shown(a: TuiState, b: TuiState, o: RepoBatchOutcome) -> bool {
    &&& b == TuiState { toast: b.toast, trace: b.trace, ..a }
    &&& if o.cancelled {
        &&& b.toast matches Some(t) && t.kind == ToastKind::Info && t.title@
            == "Repository context cancelled"@ && t.message@ == cancelled_text(o)
        &&& exists|mid: Seq<TraceEvent>|
            traced_with(a.trace@, mid, TraceKind::Warn, "repo context cancelled: "@ + decimal(o.skipped as nat) + " skipped"@)
                && b.trace@ == traced_all(mid, TraceKind::Error, o.failures@)
    } else if o.failures@.len() == 0 {
        &&& b.toast is None
        &&& traced_with(a.trace@, b.trace@, TraceKind::Sync, "repo context: "@ + decimal(o.successes as nat) + " applied"@)
    } else {
        &&& b.toast matches Some(t) && t.kind == ToastKind::Error && t.title@ == (if o.successes
            == 0 {
            "Repository context failed"@
        } else {
            "Repository context partially updated"@
        }) && t.message@ == first_line_text(o.failures@[0]@)
        &&& b.trace@ == traced_all(a.trace@, TraceKind::Error, o.failures@)
    }
}

/// Shows the outcome of a batch: a notice when it was cancelled or failed,
/// and trace lines.
pub fn show_repo_batch_outcome(state: &mut TuiState, outcome: RepoBatchOutcome)
    ensures
        outcome_shown(*old(state), *final(state), outcome),
{
    if outcome.cancelled {
        let mut message = decimal_string(outcome.successes);
        push_str(&mut message, " applied, ");
        let f = decimal_string(outcome.failures.len());
        push_str(&mut message, f.as_str());
        push_str(&mut message, " failed, ");
        let k = decimal_string(outcome.skipped);
        push_str(&mut message, k.as_str());
        push_str(&mut message, " skipped.");
        state.toast = Some(Toast::info("Repository context cancelled", message.as_str()));
        let skipped = decimal_string(outcome.skipped);
        let line = concat3("repo context cancelled: ", skipped.as_str(), " skipped");
        state.push_trace(TraceKind::Warn, line);
        let ghost mid = state.trace@;
        trace_each(state, TraceKind::Error, &outcome.failures);
        assert(traced_with(old(state).trace@, mid, TraceKind::Warn, "repo context cancelled: "@ + decimal(outcome.skipped as nat) + " skipped"@));
    } else if outcome.failures.len() == 0 {
        state.toast = None;
        let n = decimal_string(outcome.successes);
        let line = concat3("repo context: ", n.as_str(), " applied");
        state.push_trace(TraceKind::Sync, line);
    } else {
        let message = first_error_line(outcome.failures[0].as_str());
        let title = if outcome.successes == 0 {
            "Repository context failed"
        } else {
            "Repository context partially updated"
        };
        state.toast = Some(Toast::error(title, message.as_str()));
        trace_each(state, TraceKind::Error, &outcome.failures);
    }
}

/// Shows that the attached repositories are being refreshed.
pub fn start_refresh(state: &mut TuiState, work_slug: &str)
    ensures
        *final(state) == (TuiState { repo: final(state).repo, ..*old(state) }),
        final(state).repo.status matches RepoStatus::Applying { action, current, total, repository }
            && action == RepoOperation::Refresh && current == 1 && total == 1 && repository@
            == work_slug@,
{
    state.start_repo_step(RepoOperation::Refresh, 1, 1, work_slug);
}

/// Takes the attached repositories listed after a batch, or shows why they
/// could not be listed.
pub fn finish_refresh(state: &mut TuiState, result: Result<WorkRepositoryList, WorkonError>)
    requires
        old(state).wf(),
    ensures
        final(state).wf(),
        match result {
            Ok(list) => {
                &&& final(state).repo.attached == list.repositories
                &&& final(state).repo.nothing_pending()
                &&& final(state).repo.status == RepoStatus::Ready
                &&& final(state).repo.logs@.len() > 0
                &&& final(state).repo.logs@.last().kind == TraceKind::Sync
                &&& final(state).repo.logs@.last().message@ == "refreshed "@ + decimal(
                    list.repositories@.len(),
                ) + " attached repos"@
            },
            Err(e) => {
                &&& final(state).toast matches Some(t) && t.kind == ToastKind::Error && t.title@
                    == "Refresh failed"@ && t.message@ == error_text(e)
                &&& traced_with(old(state).trace@, final(state).trace@, TraceKind::Error, "repo refresh failed: "@ + error_text(e))
                &&& final(state).repo.status matches RepoStatus::Failed { message } && message@
                    == "refresh failed: "@ + error_text(e)
            },
        },
{
    match result {
        Ok(list) => {
            let count = list.repositories.len();
            state.update_attached_repositories(list.repositories);
            let n = decimal_string(count);
            let line = concat3("refreshed ", n.as_str(), " attached repos");
            state.push_repo_log(TraceKind::Sync, line);
        },
        Err(error) => {
            let reason = error.message();
            state.toast = Some(Toast::error("Refresh failed", reason.as_str()));
            state.push_trace(TraceKind::Error, concat2("repo refresh failed: ", reason.as_str()));
            state.set_repo_failed(concat2("refresh failed: ", reason.as_str()));
        },
    }
}


/// The user asked to cancel a running batch: the log and a toast say that
/// the current repository operation finishes first.
pub fn note_cancel_requested(state: &mut TuiState)
    ensures
        *final(state) == (TuiState { repo: final(state).repo, toast: final(state).toast, ..*old(state) }),
        final(state).repo == (RepoPickerState { logs: final(state).repo.logs, ..old(state).repo }),
        crate::repo_load::logged_with(
            old(state).repo.logs@,
            final(state).repo.logs@,
            TraceKind::Warn,
            "cancel requested; finishing current repository operation"@,
        ),
        final(state).toast matches Some(t) && t.kind == ToastKind::Info && t.title@
            == "Repository cancel requested"@ && t.message@
            == "Current repository operation will finish first."@,
{
    state.push_repo_log(TraceKind::Warn, owned("cancel requested; finishing current repository operation"));
    state.toast = Some(Toast::info("Repository cancel requested", "Current repository operation will finish first."));
}

} // verus!
