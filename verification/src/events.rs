use vstd::prelude::*;

use crate::text::owned;

verus! {

/// The kind of an operational event shown in a trace or log.
#[derive(Debug, Clone, Copy, PartialEq, Eq, Structural)]
pub enum TraceKind {
    Run,
    Sync,
    Signal,
    Warn,
    Error,
}

/// One operational event.
#[derive(Debug, Clone, PartialEq, Eq)]
pub struct TraceEvent {
    pub kind: TraceKind,
    pub message: String,
}

/// Whether a toast reports information or an error.
#[derive(Debug, Clone, Copy, PartialEq, Eq, Structural)]
pub enum ToastKind {
    Info,
    Error,
}

/// A short notice shown until the next meaningful key press.
#[derive(Debug, Clone, PartialEq, Eq)]
pub struct Toast {
    pub title: String,
    pub message: String,
    pub kind: ToastKind,
}

/// The number of events the execution trace keeps.
pub const TRACE_CAPACITY: usize = 6;

/// The number of events a repository log keeps.
pub const LOG_CAPACITY: usize = 7;

impl Toast {
    /// An informational toast.
    pub fn info(title: &str, message: &str) -> (t: Toast)
        ensures
            t.title@ == title@,
            t.message@ == message@,
            t.kind == ToastKind::Info,
    {
        Toast { title: owned(title), message: owned(message), kind: ToastKind::Info }
    }

    /// An error toast.
    pub fn error(title: &str, message: &str) -> (t: Toast)
        ensures
            t.title@ == title@,
            t.message@ == message@,
            t.kind == ToastKind::Error,
    {
        Toast { title: owned(title), message: owned(message), kind: ToastKind::Error }
    }
}

/// The trace after recording `e`: newest first, at most
/// [`TRACE_CAPACITY`] events.
pub open spec fn traced(trace: Seq<TraceEvent>, e: TraceEvent) -> Seq<TraceEvent> {
    let all = seq![e] + trace;
    if all.len() > TRACE_CAPACITY {
        all.take(TRACE_CAPACITY as int)
    } else {
        all
    }
}

/// The log after recording `e`: oldest first, at most [`LOG_CAPACITY`]
/// events.
pub open spec fn logged(log: Seq<TraceEvent>, e: TraceEvent) -> Seq<TraceEvent> {
    let all = log.push(e);
    if all.len() > LOG_CAPACITY {
        all.drop_first()
    } else {
        all
    }
}

/// Records an event at the front of a trace, dropping the oldest beyond
/// the capacity.
pub fn record_trace(trace: &mut Vec<TraceEvent>, kind: TraceKind, message: String)
    ensures
        final(trace)@ == traced(old(trace)@, TraceEvent { kind, message }),
{
    trace.insert(0, TraceEvent { kind, message });
    if trace.len() > TRACE_CAPACITY {
        trace.truncate(TRACE_CAPACITY);
    }
    assert(final(trace)@ =~= traced(old(trace)@, TraceEvent { kind, message }));
}

/// Records an event at the end of a log, dropping the oldest beyond the
/// capacity.
pub fn record_log(log: &mut Vec<TraceEvent>, kind: TraceKind, message: String)
    ensures
        final(log)@ == logged(old(log)@, TraceEvent { kind, message }),
{
    log.push(TraceEvent { kind, message });
    if log.len() > LOG_CAPACITY {
        log.remove(0);
    }
    assert(final(log)@ =~= logged(old(log)@, TraceEvent { kind, message }));
}

/// Recording keeps the trace within its capacity, newest first.
pub proof fn law_trace_is_bounded_and_newest_first(trace: Seq<TraceEvent>, e: TraceEvent)
    requires
        trace.len() <= TRACE_CAPACITY,
    ensures
        traced(trace, e).len() <= TRACE_CAPACITY,
        traced(trace, e)[0] == e,
        forall|i: int|
            0 <= i < traced(trace, e).len() - 1 ==> #[trigger] traced(trace, e)[i + 1] == trace[i],
{
}

/// Recording keeps the log within its capacity, newest last.
pub proof fn law_log_is_bounded_and_newest_last(log: Seq<TraceEvent>, e: TraceEvent)
    requires
        log.len() <= LOG_CAPACITY,
    ensures
        logged(log, e).len() <= LOG_CAPACITY,
        logged(log, e).last() == e,
{
}

} // verus!
