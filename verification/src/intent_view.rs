use vstd::prelude::*;

use crate::text::{clone_string, concat2, str_eq};
use crate::tui_state::{lemma_intents_from, TuiState};

verus! {

/// One row of the intent list: its anchor (`@` for the Work's current
/// intent, `>>` for the selected row), whether it is the current intent,
/// and the intent's id and summary.
#[derive(Debug, Clone, PartialEq, Eq)]
pub struct IntentCatalogRow {
    pub anchor: &'static str,
    pub current: bool,
    pub id: String,
    pub summary: String,
}

/// What the intent list shows: how many intents match, the filter when one
/// is typed, the selected row and the rows.
#[derive(Debug, Clone, PartialEq, Eq)]
pub struct IntentCatalogView {
    pub count: usize,
    pub filter_label: Option<String>,
    pub selected: usize,
    pub rows: Vec<IntentCatalogRow>,
}

/// The selected row of the list, kept within it.
pub open spec fn shown_selection(selected: usize, count: nat) -> usize {
    let last: int = if count > 0 { count - 1 } else { 0 };
    if selected < last { selected } else { last as usize }
}

/// Row `k` of the intent list of a state.
pub open spec fn intent_row_holds(s: TuiState, k: int, row: IntentCatalogRow, selected: usize) -> bool {
    let (id, summary) = s.intents@[s.intent_indices()[k] as int];
    let current = id@ == s.intent_current_id@;
    &&& row.id@ == id@
    &&& row.summary@ == summary@
    &&& row.current == current
    &&& row.anchor == if current {
        "@"
    } else if k == selected {
        ">>"
    } else {
        "  "
    }
}

/// What the intent list of a state shows.
pub fn intent_catalog_view(state: &TuiState) -> (r: IntentCatalogView)
    ensures
        r.count == state.intent_indices().len(),
        r.filter_label matches Some(l) ==> state.intent_filter@.len() > 0 && l@ == "find "@
            + state.intent_filter@,
        r.filter_label is None ==> state.intent_filter@.len() == 0,
        r.selected == shown_selection(state.selected_intent, state.intent_indices().len()),
        r.rows@.len() == state.intent_indices().len(),
        forall|k: int| 0 <= k < r.rows@.len() ==> #[trigger] intent_row_holds(*state, k, r.rows@[k], r.selected),
{
    let indices = state.filtered_intent_indices();
    proof {
        lemma_intents_from(state.intents@, crate::text::lower(crate::text::trim(state.intent_filter@)));
    }
    let filter_label = if crate::text::chars_of(state.intent_filter.as_str()).len() == 0 {
        None
    } else {
        Some(concat2("find ", state.intent_filter.as_str()))
    };
    let last: usize = if indices.len() > 0 { indices.len() - 1 } else { 0 };
    let selected = if state.selected_intent < last { state.selected_intent } else { last };
    let mut rows: Vec<IntentCatalogRow> = Vec::new();
    let mut k: usize = 0;
    while k < indices.len()
        invariant
            k <= indices@.len(),
            indices@ == state.intent_indices(),
            forall|j: int| 0 <= j < indices@.len() ==> #[trigger] indices@[j] < state.intents@.len(),
            rows@.len() == k,
            forall|j: int| 0 <= j < k ==> #[trigger] intent_row_holds(*state, j, rows@[j], selected),
        decreases indices@.len() - k,
    {
        let index = indices[k];
        let id = clone_string(&state.intents[index].0);
        let summary = clone_string(&state.intents[index].1);
        let current = str_eq(id.as_str(), state.intent_current_id.as_str());
        let anchor = if current {
            "@"
        } else if k == selected {
            ">>"
        } else {
            "  "
        };
        rows.push(IntentCatalogRow { anchor, current, id, summary });
        k = k + 1;
    }
    IntentCatalogView { count: indices.len(), filter_label, selected, rows }
}

} // verus!
