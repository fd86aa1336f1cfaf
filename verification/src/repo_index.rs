use vstd::prelude::*;

use crate::domain::AttachedRepository;
use crate::error::{error_text, WorkonError};
use crate::events::TraceKind;
use crate::text::{concat2, concat3, decimal, decimal_string, owned};
use crate::tui_state::{traced_with, TuiState};

verus! {

/// The generation of an index load started after one of generation `g`.
pub open spec fn next_generation(g: u64) -> u64 {
    if g == u64::MAX {
        0
    } else {
        (g + 1) as u64
    }
}

/// Starts loading the repository index of all Works; returns the
/// generation that the finished load must match.
pub fn start_repository_index(state: &mut TuiState) -> (generation: u64)
    ensures
        generation == final(state).repository_index_generation,
        final(state).repository_index_loading,
        final(state).repository_index_generation == next_generation(
            old(state).repository_index_generation,
        ),
        *final(state) == (TuiState {
            repository_index_generation: final(state).repository_index_generation,
            repository_index_loading: true,
            trace: final(state).trace,
            ..*old(state)
        }),
        traced_with(old(state).trace@, final(state).trace@, TraceKind::Run, "repository index loading"@),
{
    let generation = state.start_repository_index_loading();
    state.push_trace(TraceKind::Run, owned("repository index loading"));
    generation
}

/// Takes a finished repository index load. A load of an older generation
/// changes nothing: the index was replaced since. Returns whether the load
/// was current.
pub fn apply_repository_index(
    state: &mut TuiState,
    generation: u64,
    result: Result<Vec<(String, Vec<AttachedRepository>)>, WorkonError>,
) -> (current: bool)
    ensures
        current == (generation == old(state).repository_index_generation),
        !current ==> *final(state) == *old(state),
        current ==> match result {
            Ok(index) => {
                &&& *final(state) == (TuiState {
                    attached_repositories: index,
                    repository_index_loading: false,
                    trace: final(state).trace,
                    ..*old(state)
                })
                &&& traced_with(old(state).trace@, final(state).trace@, TraceKind::Sync, "repository index loaded for "@ + decimal(index@.len()) + " works"@)
            },
            Err(e) => {
                &&& *final(state) == (TuiState {
                    repository_index_loading: false,
                    trace: final(state).trace,
                    ..*old(state)
                })
                &&& traced_with(old(state).trace@, final(state).trace@, TraceKind::Warn, "repository index unavailable: "@ + error_text(e))
            },
        },
{
    if generation != state.repository_index_generation {
        return false;
    }
    match result {
        Ok(index) => {
            let count = index.len();
            state.set_attached_repositories(index);
            let n = decimal_string(count);
            state.push_trace(TraceKind::Sync, concat3("repository index loaded for ", n.as_str(), " works"));
        },
        Err(error) => {
            state.finish_repository_index_loading();
            let reason = error.message();
            state.push_trace(TraceKind::Warn, concat2("repository index unavailable: ", reason.as_str()));
        },
    }
    true
}


/// A load started before the latest start is stale: its generation is not
/// the current one, so `apply_repository_index` ignores it and a newer
/// index is never overwritten by an older one.
pub proof fn law_restarted_index_makes_earlier_loads_stale(g: u64)
    ensures
        next_generation(g) != g,
{
}

} // verus!
