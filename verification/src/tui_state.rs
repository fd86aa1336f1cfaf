use vstd::prelude::*;

use crate::paths::{path_has_prefix, path_starts_with};
use crate::arith::{clamp_index, clamped, wrap_index, wrapped};
use crate::domain::{
    clone_attached_list, clone_available, clone_work, AttachedRepository, AvailableRepository,
    RepositoryCandidate, RepositoryCandidateInspection, RepositoryCandidatePath,
    RepositoryWorkspace, WorkList, WorkSummary,
};
use crate::events::{record_trace, traced, Toast, TraceEvent, TraceKind};
use crate::order::{compare_text, text_lt, Order3};
use crate::repo_catalog::{matches_name, name_matches, query_text};
use crate::repo_picker::{RepoOperation, RepoPickerState};
use crate::sorting::{first_after, insert_sorted, isort, lemma_first_after};
use crate::text::{
    chars_of, clone_string, concat2, contains, contains_text, lower, occurs_at, owned, pop_char,
    push_char, str_eq, to_lower, trim, trim_exec,
};

verus! {

/// What the interactive view shows and which keys it takes.
#[derive(Debug, Clone, Copy, PartialEq, Eq, Structural)]
pub enum TuiMode {
    List,
    Search,
    Leader,
    Create,
    Archive,
    Intents,
    Repos,
    Help,
}

/// What the application should do after a key.
#[derive(Debug, Clone, PartialEq, Eq)]
pub enum TuiAction {
    Nothing,
    Quit,
    Switch(String),
    Archive(String),
    SwitchIntent { work_slug: String, intent_id: String },
    Create { goal: String, intent_id: String },
    OpenRepos(String),
    ApplyRepoChanges {
        work_slug: String,
        add: Vec<String>,
        link: Vec<String>,
        remove: Vec<String>,
        force_remove: bool,
        workspace: Option<String>,
    },
    AddRepoWorkspaces { work_slug: String, paths: Vec<String> },
    RemoveRepoWorkspace { work_slug: String, path: String },
}

/// The id of the intent that new Work starts with when it is offered.
pub const BLANK_INTENT_ID: &'static str = "blank";

/// The intent of new Work when no intent is offered.
pub const DEFAULT_INTENT_ID: &'static str = "investigate";

/// The state of the interactive Work view.
#[derive(Debug, Clone, PartialEq, Eq)]
pub struct TuiState {
    pub works: Vec<WorkSummary>,
    pub selected: usize,
    pub mode: TuiMode,
    pub filter: String,
    pub pre_filter_selected_slug: Option<String>,
    pub create_goal: String,
    pub create_intent: usize,
    /// The offered intents: id and summary.
    pub intents: Vec<(String, String)>,
    pub intent_work_slug: String,
    pub intent_work_title: String,
    pub intent_current_id: String,
    pub intent_filter: String,
    pub selected_intent: usize,
    pub repo: RepoPickerState,
    pub root: String,
    pub current_work_path: Option<String>,
    /// The attached repositories of each Work, by slug; each slug once.
    pub attached_repositories: Vec<(String, Vec<AttachedRepository>)>,
    pub repository_index_loading: bool,
    pub repository_index_generation: u64,
    pub trace: Vec<TraceEvent>,
    pub trace_visible: bool,
    pub toast: Option<Toast>,
}

/// A Work matches a query by title, slug, intent or goal, lower-cased.
pub open spec fn work_matches(w: WorkSummary, q: Seq<char>) -> bool {
    contains_text(lower(w.title@), q) || contains_text(lower(w.slug@), q) || contains_text(
        lower(w.intent_id@),
        q,
    ) || contains_text(lower(w.goal@), q)
}

/// The positions of the Works that match a query (all for an empty one).
pub open spec fn filtered_from(ws: Seq<WorkSummary>, q: Seq<char>) -> Seq<usize>
    decreases ws.len(),
{
    if ws.len() == 0 {
        Seq::empty()
    } else if q.len() == 0 || work_matches(ws.last(), q) {
        filtered_from(ws.drop_last(), q).push((ws.len() - 1) as usize)
    } else {
        filtered_from(ws.drop_last(), q)
    }
}

/// Filtered positions are in range and increasing.
pub proof fn lemma_filtered_from(ws: Seq<WorkSummary>, q: Seq<char>)
    ensures
        filtered_from(ws, q).len() <= ws.len(),
        forall|k: int| 0 <= k < filtered_from(ws, q).len() ==> #[trigger] filtered_from(ws, q)[k] < ws.len(),
        q.len() == 0 ==> filtered_from(ws, q).len() == ws.len(),
    decreases ws.len(),
{
    if ws.len() > 0 {
        lemma_filtered_from(ws.drop_last(), q);
    }
}

/// The first position from `i` of a Work whose folder holds `p`, or the end.
pub open spec fn first_within(ws: Seq<WorkSummary>, p: Seq<char>, i: int) -> int
    decreases ws.len() - i,
{
    if i >= ws.len() {
        ws.len() as int
    } else if path_starts_with(p, ws[i].path@) {
        i
    } else {
        first_within(ws, p, i + 1)
    }
}

/// The first position from `i` of a Work with the slug, or the end.
pub open spec fn first_slug(ws: Seq<WorkSummary>, slug: Seq<char>, i: int) -> int
    decreases ws.len() - i,
{
    if i >= ws.len() {
        ws.len() as int
    } else if ws[i].slug@ == slug {
        i
    } else {
        first_slug(ws, slug, i + 1)
    }
}

/// The first position from `i` of an intent with the id, or the end.
pub open spec fn first_intent(intents: Seq<(String, String)>, idx: Seq<usize>, id: Seq<char>, i: int) -> int
    decreases idx.len() - i,
{
    if i >= idx.len() {
        idx.len() as int
    } else if idx[i] < intents.len() && intents[idx[i] as int].0@ == id {
        i
    } else {
        first_intent(intents, idx, id, i + 1)
    }
}

/// An intent matches a query by id or summary, lower-cased.
pub open spec fn intent_matches(intent: (String, String), q: Seq<char>) -> bool {
    q.len() == 0 || contains_text(lower(intent.0@), q) || contains_text(lower(intent.1@), q)
}

/// The positions of the intents that match a query.
pub open spec fn intents_from(intents: Seq<(String, String)>, q: Seq<char>) -> Seq<usize>
    decreases intents.len(),
{
    if intents.len() == 0 {
        Seq::empty()
    } else if intent_matches(intents.last(), q) {
        intents_from(intents.drop_last(), q).push((intents.len() - 1) as usize)
    } else {
        intents_from(intents.drop_last(), q)
    }
}

pub proof fn lemma_intents_from(intents: Seq<(String, String)>, q: Seq<char>)
    ensures
        intents_from(intents, q).len() <= intents.len(),
        forall|k: int| 0 <= k < intents_from(intents, q).len() ==> #[trigger] intents_from(intents, q)[k] < intents.len(),
    decreases intents.len(),
{
    if intents.len() > 0 {
        lemma_intents_from(intents.drop_last(), q);
    }
}

/// The first position of an intent with the id.
pub open spec fn intent_position(intents: Seq<(String, String)>, id: Seq<char>, i: int) -> int
    decreases intents.len() - i,
{
    if i >= intents.len() {
        intents.len() as int
    } else if intents[i].0@ == id {
        i
    } else {
        intent_position(intents, id, i + 1)
    }
}

/// The text of the trace line for a filter.
pub open spec fn filter_trace_text(filter: Seq<char>) -> Seq<char> {
    if filter.len() == 0 {
        "filter cleared"@
    } else {
        "filter "@ + filter
    }
}

/// `after` is `before` with one event recorded, of the given kind and text.
pub open spec fn traced_with(before: Seq<TraceEvent>, after: Seq<TraceEvent>, kind: TraceKind, text: Seq<char>) -> bool {
    &&& after.len() > 0
    &&& after == traced(before, after[0])
    &&& after[0].kind == kind
    &&& after[0].message@ == text
}

/// The attached repositories listed for a slug.
pub open spec fn attached_for(map: Seq<(String, Vec<AttachedRepository>)>, slug: Seq<char>) -> Seq<AttachedRepository>
    decreases map.len(),
{
    if map.len() == 0 {
        Seq::empty()
    } else if map.last().0@ == slug {
        map.last().1@
    } else {
        attached_for(map.drop_last(), slug)
    }
}

/// GitHub repositories ordered by name.
pub open spec fn by_name() -> spec_fn(AvailableRepository, AvailableRepository) -> bool {
    |a: AvailableRepository, b: AvailableRepository| text_lt(a.name_with_owner@, b.name_with_owner@)
}

/// The GitHub repositories whose name matches the query.
pub open spec fn matching_available(av: Seq<AvailableRepository>, q: Seq<char>) -> Seq<AvailableRepository>
    decreases av.len(),
{
    if av.len() == 0 {
        Seq::empty()
    } else if name_matches(av.last().name_with_owner@, q) {
        matching_available(av.drop_last(), q).push(av.last())
    } else {
        matching_available(av.drop_last(), q)
    }
}

impl TuiState {
    /// The state is well formed: its repository context is.
    pub open spec fn wf(self) -> bool {
        self.repo.wf()
    }

    /// The lower-cased, trimmed Work filter.
    pub open spec fn query(self) -> Seq<char> {
        lower(trim(self.filter@))
    }

    /// The positions of the Works the filter shows.
    pub open spec fn indices(self) -> Seq<usize> {
        filtered_from(self.works@, self.query())
    }

    /// The position of the selected Work, if the selection shows one.
    pub open spec fn selected_index(self) -> Option<usize> {
        if self.selected < self.indices().len() {
            Some(self.indices()[self.selected as int])
        } else {
            None
        }
    }

    /// The slug of the selected Work.
    pub open spec fn selected_slug(self) -> Option<String> {
        match self.selected_index() {
            Some(i) => Some(self.works@[i as int].slug),
            None => None,
        }
    }

    /// This state with the selection moved by `delta` shown Works, wrapping.
    pub open spec fn moved(self, delta: int) -> TuiState {
        let n = self.indices().len() as int;
        TuiState {
            selected: if n == 0 {
                0
            } else {
                wrapped(self.selected as int, delta, n) as usize
            },
            ..self
        }
    }

    /// This state with the selection kept among the shown Works.
    pub open spec fn clamped_state(self) -> TuiState {
        TuiState {
            selected: clamped(self.selected as int, self.indices().len() as int) as usize,
            ..self
        }
    }

    /// The list or filter mode, by whether a filter is typed.
    pub open spec fn queue_mode(self) -> TuiMode {
        if self.filter@.len() == 0 {
            TuiMode::List
        } else {
            TuiMode::Search
        }
    }

    /// The Works the filter shows, in order.
    pub open spec fn shown_works(self) -> Seq<WorkSummary> {
        self.indices().map_values(|i: usize| self.works@[i as int])
    }

    /// This state with the selection on the shown Work with the slug, or
    /// kept in range when none has it.
    pub open spec fn slug_selected(self, slug: Seq<char>) -> TuiState {
        let shown = self.shown_works();
        let p = first_slug(shown, slug, 0);
        if p < shown.len() {
            TuiState { selected: p as usize, ..self }
        } else {
            self.clamped_state()
        }
    }

    /// The positions of the intents the intent filter shows.
    pub open spec fn intent_indices(self) -> Seq<usize> {
        intents_from(self.intents@, lower(trim(self.intent_filter@)))
    }

    /// The id of the selected intent in the intent list, if any.
    pub open spec fn selected_intent_spec(self) -> Option<String> {
        if self.selected_intent < self.intent_indices().len() {
            Some(self.intents@[self.intent_indices()[self.selected_intent as int] as int].0)
        } else {
            None
        }
    }

    /// The position of the intent new Work starts with.
    pub open spec fn default_create_intent(self) -> usize {
        let p = intent_position(self.intents@, BLANK_INTENT_ID@, 0);
        if p < self.intents@.len() {
            p as usize
        } else {
            0
        }
    }

    /// The id of the intent chosen for new Work.
    pub open spec fn create_intent_text(self) -> Seq<char> {
        if self.create_intent < self.intents@.len() {
            self.intents@[self.create_intent as int].0@
        } else {
            DEFAULT_INTENT_ID@
        }
    }
}

pub proof fn lemma_first_slug(ws: Seq<WorkSummary>, slug: Seq<char>, i: int)
    requires
        0 <= i <= ws.len(),
    ensures
        i <= first_slug(ws, slug, i) <= ws.len(),
        first_slug(ws, slug, i) < ws.len() ==> ws[first_slug(ws, slug, i)].slug@ == slug,
    decreases ws.len() - i,
{
    if i < ws.len() && ws[i].slug@ != slug {
        lemma_first_slug(ws, slug, i + 1);
    }
}

proof fn lemma_first_within(ws: Seq<WorkSummary>, p: Seq<char>, i: int)
    requires
        0 <= i <= ws.len(),
    ensures
        i <= first_within(ws, p, i) <= ws.len(),
    decreases ws.len() - i,
{
    if i < ws.len() && !path_starts_with(p, ws[i].path@) {
        lemma_first_within(ws, p, i + 1);
    }
}

proof fn lemma_intent_position(intents: Seq<(String, String)>, id: Seq<char>, i: int)
    requires
        0 <= i <= intents.len(),
    ensures
        i <= intent_position(intents, id, i) <= intents.len(),
    decreases intents.len() - i,
{
    if i < intents.len() && intents[i].0@ != id {
        lemma_intent_position(intents, id, i + 1);
    }
}

proof fn lemma_first_intent(intents: Seq<(String, String)>, idx: Seq<usize>, id: Seq<char>, i: int)
    requires
        0 <= i <= idx.len(),
    ensures
        i <= first_intent(intents, idx, id, i) <= idx.len(),
    decreases idx.len() - i,
{
    if i < idx.len() && !(idx[i] < intents.len() && intents[idx[i] as int].0@ == id) {
        lemma_first_intent(intents, idx, id, i + 1);
    }
}

/// The first position in `idx` of an intent with the id, or the end.
fn intent_position_in(intents: &Vec<(String, String)>, idx: &Vec<usize>, id: &str) -> (r: usize)
    ensures
        r as int == first_intent(intents@, idx@, id@, 0),
{
    let mut i: usize = 0;
    proof {
        lemma_first_intent(intents@, idx@, id@, 0);
    }
    while i < idx.len()
        invariant
            i <= idx@.len(),
            first_intent(intents@, idx@, id@, 0) == first_intent(intents@, idx@, id@, i as int),
        decreases idx@.len() - i,
    {
        if idx[i] < intents.len() && str_eq(intents[idx[i]].0.as_str(), id) {
            return i;
        }
        i = i + 1;
    }
    i
}

/// Whether a Work matches a lower-cased query.
pub fn matches_work(w: &WorkSummary, q: &str) -> (r: bool)
    ensures
        r == work_matches(*w, q@),
{
    let t = to_lower(w.title.as_str());
    if contains(t.as_str(), q) {
        return true;
    }
    let s = to_lower(w.slug.as_str());
    if contains(s.as_str(), q) {
        return true;
    }
    let i = to_lower(w.intent_id.as_str());
    if contains(i.as_str(), q) {
        return true;
    }
    let g = to_lower(w.goal.as_str());
    contains(g.as_str(), q)
}

/// The positions of the Works that match a query hold every Work that does.
proof fn lemma_matching_work_is_kept(ws: Seq<WorkSummary>, q: Seq<char>, k: int)
    requires
        0 <= k < ws.len(),
        q.len() == 0 || work_matches(ws[k], q),
    ensures
        filtered_from(ws, q).contains(k as usize),
    decreases ws.len(),
{
    if k == ws.len() - 1 {
        assert(ws.last() == ws[k]);
        let f = filtered_from(ws, q);
        assert(f[f.len() - 1] == k as usize);
    } else {
        assert(ws.drop_last()[k] == ws[k]);
        lemma_matching_work_is_kept(ws.drop_last(), q, k);
        let f0 = filtered_from(ws.drop_last(), q);
        let j = choose|j: int| 0 <= j < f0.len() && f0[j] == k as usize;
        let f = filtered_from(ws, q);
        assert(f[j] == k as usize);
    }
}

/// The positions of the intents that match a query hold every intent that
/// does.
proof fn lemma_matching_intent_is_kept(intents: Seq<(String, String)>, q: Seq<char>, k: int)
    requires
        0 <= k < intents.len(),
        intent_matches(intents[k], q),
    ensures
        intents_from(intents, q).contains(k as usize),
    decreases intents.len(),
{
    if k == intents.len() - 1 {
        assert(intents.last() == intents[k]);
        let f = intents_from(intents, q);
        assert(f[f.len() - 1] == k as usize);
    } else {
        assert(intents.drop_last()[k] == intents[k]);
        lemma_matching_intent_is_kept(intents.drop_last(), q, k);
        let f0 = intents_from(intents.drop_last(), q);
        let j = choose|j: int| 0 <= j < f0.len() && f0[j] == k as usize;
        let f = intents_from(intents, q);
        assert(f[j] == k as usize);
    }
}

/// The Work queue filter shows every Work that holds the filter: when the
/// trimmed, lower-cased filter appears anywhere in the lower-cased title,
/// slug, intent id or goal of a Work, that Work is among the shown Works,
/// whatever its other fields hold.
pub proof fn law_filter_shows_every_work_holding_it(s: TuiState, k: int, at: int)
    requires
        0 <= k < s.works@.len(),
        ({
            let w = s.works@[k];
            let q = lower(trim(s.filter@));
            ||| occurs_at(lower(w.title@), q, at)
            ||| occurs_at(lower(w.slug@), q, at)
            ||| occurs_at(lower(w.intent_id@), q, at)
            ||| occurs_at(lower(w.goal@), q, at)
        }),
    ensures
        s.indices().contains(k as usize),
        s.shown_works().contains(s.works@[k]),
{
    let q = lower(trim(s.filter@));
    let w = s.works@[k];
    assert(work_matches(w, q));
    lemma_matching_work_is_kept(s.works@, q, k);
    let idx = s.indices();
    assert(s.works@.len() == s.works.len());
    let j = choose|j: int| 0 <= j < idx.len() && idx[j] == k as usize;
    assert(idx[j] as int == k);
    assert(s.shown_works()[j] == w);
}

/// The intent filter keeps every intent that holds it: when the trimmed,
/// lower-cased filter appears anywhere in the lower-cased id or summary of
/// an intent, that intent is among the listed ones, whatever the other.
pub proof fn law_intent_filter_keeps_every_intent_holding_it(s: TuiState, k: int, at: int)
    requires
        0 <= k < s.intents@.len(),
        ({
            let q = lower(trim(s.intent_filter@));
            ||| occurs_at(lower(s.intents@[k].0@), q, at)
            ||| occurs_at(lower(s.intents@[k].1@), q, at)
        }),
    ensures
        s.intent_indices().contains(k as usize),
{
    let q = lower(trim(s.intent_filter@));
    assert(intent_matches(s.intents@[k], q));
    lemma_matching_intent_is_kept(s.intents@, q, k);
}

/// Every position the Work filter keeps is of a Work that matches.
proof fn lemma_kept_work_matches(ws: Seq<WorkSummary>, q: Seq<char>, j: int)
    requires
        0 <= j < filtered_from(ws, q).len(),
        ws.len() <= usize::MAX,
    ensures
        filtered_from(ws, q)[j] < ws.len(),
        q.len() == 0 || work_matches(ws[filtered_from(ws, q)[j] as int], q),
    decreases ws.len(),
{
    lemma_filtered_from(ws.drop_last(), q);
    let f0 = filtered_from(ws.drop_last(), q);
    if j < f0.len() {
        lemma_kept_work_matches(ws.drop_last(), q, j);
        assert(filtered_from(ws, q)[j] == f0[j]);
        assert(ws.drop_last()[f0[j] as int] == ws[f0[j] as int]);
    } else {
        assert(ws.last() == ws[ws.len() - 1]);
    }
}

/// Every position the intent filter keeps is of an intent that matches.
proof fn lemma_kept_intent_matches(intents: Seq<(String, String)>, q: Seq<char>, j: int)
    requires
        0 <= j < intents_from(intents, q).len(),
        intents.len() <= usize::MAX,
    ensures
        intents_from(intents, q)[j] < intents.len(),
        intent_matches(intents[intents_from(intents, q)[j] as int], q),
    decreases intents.len(),
{
    let f0 = intents_from(intents.drop_last(), q);
    if intents.len() > 0 && j < f0.len() {
        lemma_kept_intent_matches(intents.drop_last(), q, j);
        assert(intents_from(intents, q)[j] == f0[j]);
        assert(intents.drop_last()[f0[j] as int] == intents[f0[j] as int]);
    } else {
        assert(intents.last() == intents[intents.len() - 1]);
    }
}

/// The Work queue filter shows only Works that hold it: each shown Work
/// holds the trimmed, lower-cased filter somewhere in its lower-cased
/// title, slug, intent id or goal, unless the filter is blank.
pub proof fn law_filter_shows_only_works_holding_it(s: TuiState, j: int)
    requires
        0 <= j < s.indices().len(),
    ensures
        s.indices()[j] < s.works@.len(),
        ({
            let w = s.works@[s.indices()[j] as int];
            let q = lower(trim(s.filter@));
            q.len() == 0 || exists|at: int| {
                ||| occurs_at(lower(w.title@), q, at)
                ||| occurs_at(lower(w.slug@), q, at)
                ||| occurs_at(lower(w.intent_id@), q, at)
                ||| occurs_at(lower(w.goal@), q, at)
            }
        }),
{
    assert(s.works@.len() == s.works.len());
    lemma_kept_work_matches(s.works@, s.query(), j);
}

/// The intent filter keeps only intents that hold it: each kept intent
/// holds the trimmed, lower-cased filter somewhere in its lower-cased id or
/// summary, unless the filter is blank.
pub proof fn law_intent_filter_keeps_only_intents_holding_it(s: TuiState, j: int)
    requires
        0 <= j < s.intent_indices().len(),
    ensures
        s.intent_indices()[j] < s.intents@.len(),
        ({
            let it = s.intents@[s.intent_indices()[j] as int];
            let q = lower(trim(s.intent_filter@));
            q.len() == 0 || exists|at: int| {
                ||| occurs_at(lower(it.0@), q, at)
                ||| occurs_at(lower(it.1@), q, at)
            }
        }),
{
    assert(s.intents@.len() == s.intents.len());
    lemma_kept_intent_matches(s.intents@, lower(trim(s.intent_filter@)), j);
}

/// The text of the trace line for a filter.
pub fn filter_trace_message(filter: &str) -> (r: String)
    ensures
        r@ == filter_trace_text(filter@),
{
    if chars_of(filter).len() == 0 {
        owned("filter cleared")
    } else {
        concat2("filter ", filter)
    }
}

impl TuiState {
    /// The view of a Work list, in list mode with nothing selected but the
    /// first Work.
    pub fn new(work_list: WorkList) -> (s: TuiState)
        ensures
            s.wf(),
            s.works == work_list.works,
            s.selected == 0,
            s.mode == TuiMode::List,
            s.filter@.len() == 0,
            s.pre_filter_selected_slug is None,
            s.create_goal@.len() == 0,
            s.create_intent == 0,
            s.intents@.len() == 0,
            s.intent_filter@.len() == 0,
            s.selected_intent == 0,
            s.repo.is_fresh(),
            s.root@.len() == 0,
            s.current_work_path is None,
            s.attached_repositories@.len() == 0,
            !s.repository_index_loading,
            s.repository_index_generation == 0,
            s.trace@.len() == 0,
            !s.trace_visible,
            s.toast is None,
    {
        TuiState {
            works: work_list.works,
            selected: 0,
            mode: TuiMode::List,
            filter: String::new(),
            pre_filter_selected_slug: None,
            create_goal: String::new(),
            create_intent: 0,
            intents: Vec::new(),
            intent_work_slug: String::new(),
            intent_work_title: String::new(),
            intent_current_id: String::new(),
            intent_filter: String::new(),
            selected_intent: 0,
            repo: RepoPickerState::new(),
            root: String::new(),
            current_work_path: None,
            attached_repositories: Vec::new(),
            repository_index_loading: false,
            repository_index_generation: 0,
            trace: Vec::new(),
            trace_visible: false,
            toast: None,
        }
    }
}


impl TuiState {
    /// The positions of the Works the filter shows.
    pub fn filtered_indices(&self) -> (r: Vec<usize>)
        ensures
            r@ == self.indices(),
    {
        let t = trim_exec(self.filter.as_str());
        let q = to_lower(t.as_str());
        let empty = chars_of(q.as_str()).len() == 0;
        let mut out: Vec<usize> = Vec::new();
        let mut i: usize = 0;
        assert(self.works@.take(0) =~= Seq::<WorkSummary>::empty());
        while i < self.works.len()
            invariant
                i <= self.works@.len(),
                q@ == self.query(),
                empty == (q@.len() == 0),
                out@ == filtered_from(self.works@.take(i as int), q@),
            decreases self.works@.len() - i,
        {
            proof {
                assert(self.works@.take(i + 1).drop_last() =~= self.works@.take(i as int));
            }
            if empty || matches_work(&self.works[i], q.as_str()) {
                out.push(i);
            }
            i = i + 1;
        }
        assert(self.works@.take(self.works@.len() as int) =~= self.works@);
        out
    }

    /// The Works the filter shows, in order.
    pub fn filtered_works(&self) -> (r: Vec<WorkSummary>)
        ensures
            r@ == self.shown_works(),
    {
        let idx = self.filtered_indices();
        proof {
            lemma_filtered_from(self.works@, self.query());
        }
        let mut out: Vec<WorkSummary> = Vec::new();
        let mut i: usize = 0;
        while i < idx.len()
            invariant
                i <= idx@.len(),
                idx@ == self.indices(),
                forall|k: int| 0 <= k < idx@.len() ==> #[trigger] idx@[k] < self.works@.len(),
                out@ == self.indices().take(i as int).map_values(|j: usize| self.works@[j as int]),
            decreases idx@.len() - i,
        {
            out.push(clone_work(&self.works[idx[i]]));
            i = i + 1;
            assert(out@ =~= self.indices().take(i as int).map_values(|j: usize| self.works@[j as int]));
        }
        assert(self.indices().take(idx@.len() as int) =~= self.indices());
        assert(out@ =~= self.shown_works());
        out
    }

    /// The selected Work, if the selection shows one.
    pub fn selected_work(&self) -> (r: Option<&WorkSummary>)
        ensures
            match self.selected_index() {
                Some(i) => r == Some(&self.works@[i as int]),
                None => r is None,
            },
    {
        let idx = self.filtered_indices();
        proof {
            lemma_filtered_from(self.works@, self.query());
        }
        if self.selected < idx.len() {
            Some(&self.works[idx[self.selected]])
        } else {
            None
        }
    }

    /// The slug of the selected Work, if the selection shows one.
    pub fn selected_work_slug(&self) -> (r: Option<String>)
        ensures
            r == self.selected_slug(),
    {
        match self.selected_work() {
            Some(w) => Some(clone_string(&w.slug)),
            None => None,
        }
    }

    /// Whether a Work is the one the shell is in.
    pub fn is_current_work(&self, work: &WorkSummary) -> (r: bool)
        ensures
            r == (self.current_work_path matches Some(p) && p@ == work.path@),
    {
        match &self.current_work_path {
            Some(p) => str_eq(p.as_str(), work.path.as_str()),
            None => false,
        }
    }

    /// The attached repositories known for a Work.
    pub fn attached_repositories_for(&self, work: &WorkSummary) -> (r: Vec<AttachedRepository>)
        ensures
            r@ == attached_for(self.attached_repositories@, work.slug@),
    {
        lookup_attached(&self.attached_repositories, work.slug.as_str())
    }

    /// How many Works the filter shows.
    pub fn filtered_count(&self) -> (r: usize)
        ensures
            r == self.indices().len(),
    {
        self.filtered_indices().len()
    }

    /// How many Works there are.
    pub fn total_count(&self) -> (r: usize)
        ensures
            r == self.works@.len(),
    {
        self.works.len()
    }

    /// Records an event at the front of the execution trace.
    pub fn push_trace(&mut self, kind: TraceKind, message: String)
        ensures
            *final(self) == (TuiState { trace: final(self).trace, ..*old(self) }),
            final(self).trace@ == traced(old(self).trace@, TraceEvent { kind, message }),
    {
        record_trace(&mut self.trace, kind, message);
    }

    /// Shows or hides the execution trace.
    pub fn toggle_trace(&mut self)
        ensures
            *final(self) == (TuiState { trace_visible: !old(self).trace_visible, ..*old(self) }),
    {
        self.trace_visible = !self.trace_visible;
    }

    /// Keeps the selection among the shown Works.
    pub fn clamp_selection(&mut self)
        ensures
            *final(self) == old(self).clamped_state(),
    {
        let count = self.filtered_count();
        self.selected = clamp_index(self.selected, count);
    }

    /// Moves the selection by `delta` shown Works, wrapping.
    pub fn move_selection(&mut self, delta: isize)
        ensures
            *final(self) == old(self).moved(delta as int),
    {
        let count = self.filtered_count();
        if count == 0 {
            self.selected = 0;
            return;
        }
        self.selected = wrap_index(self.selected, delta, count);
    }

    /// Types a character into the filter; the selection returns to the top.
    pub fn push_filter_char(&mut self, c: char)
        ensures
            *final(self) == (TuiState { filter: final(self).filter, selected: 0, ..*old(self) }),
            final(self).filter@ == old(self).filter@.push(c),
    {
        push_char(&mut self.filter, c);
        self.selected = 0;
    }

    /// Selects the shown Work with the slug, or keeps the selection in range.
    pub fn select_slug(&mut self, slug: &str)
        ensures
            *final(self) == old(self).slug_selected(slug@),
    {
        let shown = self.filtered_works();
        let ghost sh = self.shown_works();
        let mut i: usize = 0;
        while i < shown.len()
            invariant
                i <= shown@.len(),
                shown@ == sh,
                *self == *old(self),
                sh == old(self).shown_works(),
                first_slug(sh, slug@, 0) == first_slug(sh, slug@, i as int),
            decreases shown@.len() - i,
        {
            if str_eq(shown[i].slug.as_str(), slug) {
                self.selected = i;
                return;
            }
            i = i + 1;
        }
        self.clamp_selection();
    }

    /// Replaces the Works, keeping the selection in range.
    pub fn set_work_list(&mut self, work_list: WorkList)
        ensures
            *final(self) == (TuiState { works: work_list.works, ..*old(self) }).clamped_state(),
    {
        self.works = work_list.works;
        self.clamp_selection();
    }

    /// Takes the repository index of all Works.
    pub fn set_attached_repositories(&mut self, map: Vec<(String, Vec<AttachedRepository>)>)
        ensures
            *final(self) == (TuiState {
                attached_repositories: map,
                repository_index_loading: false,
                ..*old(self)
            }),
    {
        self.attached_repositories = map;
        self.repository_index_loading = false;
    }

    /// Starts loading the repository index; returns its generation.
    pub fn start_repository_index_loading(&mut self) -> (r: u64)
        ensures
            r == final(self).repository_index_generation,
            *final(self) == (TuiState {
                repository_index_generation: if old(self).repository_index_generation == u64::MAX {
                    0
                } else {
                    (old(self).repository_index_generation + 1) as u64
                },
                repository_index_loading: true,
                ..*old(self)
            }),
    {
        self.repository_index_generation = if self.repository_index_generation == u64::MAX {
            0
        } else {
            self.repository_index_generation + 1
        };
        self.repository_index_loading = true;
        self.repository_index_generation
    }

    /// Stops showing the repository index as loading.
    pub fn finish_repository_index_loading(&mut self)
        ensures
            *final(self) == (TuiState { repository_index_loading: false, ..*old(self) }),
    {
        self.repository_index_loading = false;
    }

    /// Returns from a panel to the list, or to the filter when one is typed.
    pub fn restore_queue_mode(&mut self)
        ensures
            *final(self) == (TuiState { mode: old(self).queue_mode(), ..*old(self) }),
    {
        self.mode = if chars_of(self.filter.as_str()).len() == 0 {
            TuiMode::List
        } else {
            TuiMode::Search
        };
    }

    /// Closes a panel.
    pub fn close_panel(&mut self)
        ensures
            *final(self) == (TuiState { mode: old(self).queue_mode(), ..*old(self) }),
    {
        self.restore_queue_mode();
    }

    fn reset_create_intent(&mut self)
        ensures
            *final(self) == (TuiState {
                create_intent: old(self).default_create_intent(),
                ..*old(self)
            }),
    {
        let mut i: usize = 0;
        while i < self.intents.len()
            invariant
                i <= self.intents@.len(),
                *self == *old(self),
                intent_position(self.intents@, BLANK_INTENT_ID@, 0) == intent_position(
                    self.intents@,
                    BLANK_INTENT_ID@,
                    i as int,
                ),
            decreases self.intents@.len() - i,
        {
            if str_eq(self.intents[i].0.as_str(), BLANK_INTENT_ID) {
                self.create_intent = i;
                return;
            }
            i = i + 1;
        }
        self.create_intent = 0;
    }

    /// Offers intents for new Work; the blank intent, when offered, is
    /// chosen first.
    pub fn with_intents(self, intents: Vec<(String, String)>) -> (s: TuiState)
        ensures
            s == (TuiState { intents, ..self }).with_default_intent(),
    {
        let mut s = self;
        s.intents = intents;
        s.reset_create_intent();
        s
    }

    /// Sets the Workon root.
    pub fn with_root(self, root: String) -> (s: TuiState)
        ensures
            s == (TuiState { root, ..self }),
    {
        let mut s = self;
        s.root = root;
        s
    }

    /// Sets the repository index.
    pub fn with_attached_repositories(self, map: Vec<(String, Vec<AttachedRepository>)>) -> (s: TuiState)
        ensures
            s == (TuiState { attached_repositories: map, ..self }),
    {
        let mut s = self;
        s.attached_repositories = map;
        s
    }

    /// Marks the Work whose folder holds the current directory as current
    /// and selects it.
    pub fn with_current_directory(self, current_directory: Option<&str>) -> (s: TuiState)
        ensures
            current_directory is None ==> s == self,
            current_directory matches Some(cwd) ==> ({
                let p = first_within(self.works@, cwd@, 0);
                if 0 <= p < self.works@.len() {
                    s == (TuiState {
                        current_work_path: Some(self.works@[p].path),
                        selected: p as usize,
                        ..self
                    })
                } else {
                    s == self
                }
            }),
    {
        let cwd = match current_directory {
            Some(c) => c,
            None => {
                return self;
            },
        };
        let mut s = self;
        let mut i: usize = 0;
        while i < s.works.len()
            invariant
                i <= s.works@.len(),
                s == self,
                current_directory == Some(cwd),
                first_within(s.works@, cwd@, 0) == first_within(s.works@, cwd@, i as int),
            decreases s.works@.len() - i,
        {
            if path_has_prefix(cwd, s.works[i].path.as_str()) {
                assert(first_within(self.works@, cwd@, i as int) == i as int);
                s.current_work_path = Some(clone_string(&s.works[i].path));
                s.selected = i;
                return s;
            }
            i = i + 1;
        }
        s
    }

    /// Opens the new-Work form.
    pub fn enter_create_mode(&mut self)
        ensures
            *final(self) == (TuiState { mode: TuiMode::Create, ..*old(self) }).with_default_intent(),
    {
        self.mode = TuiMode::Create;
        self.reset_create_intent();
    }

    /// Empties the new-Work form.
    pub fn reset_create_form(&mut self)
        ensures
            final(self).create_goal@.len() == 0,
            *final(self) == (TuiState {
                create_goal: final(self).create_goal,
                ..*old(self)
            }).with_default_intent(),
    {
        self.create_goal = String::new();
        self.reset_create_intent();
    }

    /// Forgets the filter and the selection it hid.
    pub fn clear_filter_context(&mut self)
        ensures
            final(self).filter@.len() == 0,
            *final(self) == (TuiState {
                filter: final(self).filter,
                pre_filter_selected_slug: None,
                ..*old(self)
            }),
    {
        self.filter = String::new();
        self.pre_filter_selected_slug = None;
    }

    /// Opens the filter, remembering the selection when no filter was
    /// typed before.
    pub fn enter_filter_mode(&mut self)
        ensures
            *final(self) == old(self).entered_filter(),
    {
        if chars_of(self.filter.as_str()).len() == 0 && self.pre_filter_selected_slug.is_none() {
            self.pre_filter_selected_slug = self.selected_work_slug();
        }
        self.mode = TuiMode::Search;
    }

    /// Closes the filter and returns to the selection it hid.
    pub fn close_filter_mode(&mut self)
        ensures
            filter_closed(*old(self), *final(self)),
    {
        let pre = self.pre_filter_selected_slug.take();
        self.filter = String::new();
        self.mode = TuiMode::List;
        match pre {
            Some(slug) => self.select_slug(slug.as_str()),
            None => self.clamp_selection(),
        }
    }

    /// Chooses the next intent for new Work, wrapping.
    pub fn next_intent(&mut self)
        ensures
            old(self).intents@.len() == 0 ==> *final(self) == *old(self),
            old(self).intents@.len() > 0 ==> *final(self) == (TuiState {
                create_intent: wrapped(
                    old(self).create_intent as int,
                    1,
                    old(self).intents@.len() as int,
                ) as usize,
                ..*old(self)
            }),
    {
        if self.intents.len() > 0 {
            self.create_intent = wrap_index(self.create_intent, 1, self.intents.len());
        }
    }

    /// Chooses the previous intent for new Work, wrapping.
    pub fn previous_intent(&mut self)
        ensures
            old(self).intents@.len() == 0 ==> *final(self) == *old(self),
            old(self).intents@.len() > 0 ==> *final(self) == (TuiState {
                create_intent: wrapped(
                    old(self).create_intent as int,
                    -1,
                    old(self).intents@.len() as int,
                ) as usize,
                ..*old(self)
            }),
    {
        if self.intents.len() > 0 {
            self.create_intent = wrap_index(self.create_intent, -1, self.intents.len());
        }
    }

    /// The positions of the intents the intent filter shows.
    pub fn filtered_intent_indices(&self) -> (r: Vec<usize>)
        ensures
            r@ == self.intent_indices(),
    {
        let t = trim_exec(self.intent_filter.as_str());
        let q = to_lower(t.as_str());
        let empty = chars_of(q.as_str()).len() == 0;
        let mut out: Vec<usize> = Vec::new();
        let mut i: usize = 0;
        assert(self.intents@.take(0) =~= Seq::<(String, String)>::empty());
        while i < self.intents.len()
            invariant
                i <= self.intents@.len(),
                q@ == lower(trim(self.intent_filter@)),
                empty == (q@.len() == 0),
                out@ == intents_from(self.intents@.take(i as int), q@),
            decreases self.intents@.len() - i,
        {
            proof {
                assert(self.intents@.take(i + 1).drop_last() =~= self.intents@.take(i as int));
            }
            let keep = if empty {
                true
            } else {
                let id = to_lower(self.intents[i].0.as_str());
                let summary = to_lower(self.intents[i].1.as_str());
                contains(id.as_str(), q.as_str()) || contains(summary.as_str(), q.as_str())
            };
            if keep {
                out.push(i);
            }
            i = i + 1;
        }
        assert(self.intents@.take(self.intents@.len() as int) =~= self.intents@);
        out
    }

    /// Opens the intent list for a Work, on its current intent.
    pub fn enter_intent_context(&mut self, work_slug: String, work_title: String, current_intent_id: String)
        ensures
            intent_opened(*old(self), *final(self), work_slug, work_title, current_intent_id),
    {
        self.mode = TuiMode::Intents;
        self.intent_work_slug = work_slug;
        self.intent_work_title = work_title;
        self.intent_filter = String::new();
        let idx = self.filtered_intent_indices();
        let p = intent_position_in(&self.intents, &idx, current_intent_id.as_str());
        self.intent_current_id = current_intent_id;
        self.selected_intent = if p < idx.len() {
            p
        } else {
            0
        };
    }

    /// Types a character into the intent filter.
    pub fn push_intent_filter_char(&mut self, c: char)
        ensures
            *final(self) == (TuiState {
                intent_filter: final(self).intent_filter,
                selected_intent: 0,
                ..*old(self)
            }),
            final(self).intent_filter@ == old(self).intent_filter@.push(c),
    {
        push_char(&mut self.intent_filter, c);
        self.selected_intent = 0;
    }

    /// Erases the last character of the intent filter.
    pub fn pop_intent_filter_char(&mut self)
        ensures
            *final(self) == (TuiState {
                intent_filter: final(self).intent_filter,
                selected_intent: 0,
                ..*old(self)
            }),
            old(self).intent_filter@.len() > 0 ==> final(self).intent_filter@ == old(
                self,
            ).intent_filter@.drop_last(),
            old(self).intent_filter@.len() == 0 ==> final(self).intent_filter@ == old(
                self,
            ).intent_filter@,
    {
        pop_char(&mut self.intent_filter);
        self.selected_intent = 0;
    }

    /// Moves the intent selection by `delta` shown intents, wrapping.
    pub fn move_intent_selection(&mut self, delta: isize)
        ensures
            ({
                let n = old(self).intent_indices().len() as int;
                *final(self) == (TuiState {
                    selected_intent: if n == 0 {
                        0
                    } else {
                        wrapped(old(self).selected_intent as int, delta as int, n) as usize
                    },
                    ..*old(self)
                })
            }),
    {
        let count = self.filtered_intent_indices().len();
        if count == 0 {
            self.selected_intent = 0;
            return;
        }
        self.selected_intent = wrap_index(self.selected_intent, delta, count);
    }

    /// The id of the selected intent in the intent list.
    pub fn selected_intent_id(&self) -> (r: Option<String>)
        ensures
            r == self.selected_intent_spec(),
    {
        let idx = self.filtered_intent_indices();
        proof {
            lemma_intents_from(self.intents@, lower(trim(self.intent_filter@)));
        }
        if self.selected_intent < idx.len() {
            Some(clone_string(&self.intents[idx[self.selected_intent]].0))
        } else {
            None
        }
    }

    /// The id and summary of the selected intent in the intent list.
    pub fn selected_intent_summary(&self) -> (r: Option<(String, String)>)
        ensures
            match self.selected_intent_spec() {
                Some(id) => r matches Some(pair) && pair == self.intents@[self.intent_indices()[self.selected_intent as int] as int],
                None => r is None,
            },
    {
        let idx = self.filtered_intent_indices();
        proof {
            lemma_intents_from(self.intents@, lower(trim(self.intent_filter@)));
        }
        if self.selected_intent < idx.len() {
            let pair = &self.intents[idx[self.selected_intent]];
            Some((clone_string(&pair.0), clone_string(&pair.1)))
        } else {
            None
        }
    }

    /// The id of the intent chosen for new Work.
    pub fn create_intent_id(&self) -> (r: String)
        ensures
            r@ == self.create_intent_text(),
    {
        if self.create_intent < self.intents.len() {
            clone_string(&self.intents[self.create_intent].0)
        } else {
            owned(DEFAULT_INTENT_ID)
        }
    }

    /// The GitHub repositories whose name matches the repository filter,
    /// ordered by name.
    pub fn filtered_available_repositories(&self) -> (r: Vec<AvailableRepository>)
        ensures
            r@ == isort(
                matching_available(self.repo.available@, query_text(self.repo.filter@)),
                by_name(),
            ),
    {
        let t = trim_exec(self.repo.filter.as_str());
        let q = to_lower(t.as_str());
        let av = &self.repo.available;
        let mut keep: Vec<AvailableRepository> = Vec::new();
        let mut i: usize = 0;
        assert(av@.take(0) =~= Seq::<AvailableRepository>::empty());
        while i < av.len()
            invariant
                i <= av@.len(),
                av@ == self.repo.available@,
                q@ == query_text(self.repo.filter@),
                keep@ == matching_available(av@.take(i as int), q@),
            decreases av@.len() - i,
        {
            proof {
                assert(av@.take(i + 1).drop_last() =~= av@.take(i as int));
            }
            if matches_name(av[i].name_with_owner.as_str(), q.as_str()) {
                keep.push(clone_available(&av[i]));
            }
            i = i + 1;
        }
        assert(av@.take(av@.len() as int) =~= av@);
        let ghost before = by_name();
        let mut out: Vec<AvailableRepository> = Vec::new();
        let mut i: usize = 0;
        assert(keep@.take(0) =~= Seq::<AvailableRepository>::empty());
        while i < keep.len()
            invariant
                i <= keep@.len(),
                before == by_name(),
                out@ == isort(keep@.take(i as int), before),
            decreases keep@.len() - i,
        {
            let x = clone_available(&keep[i]);
            let mut p: usize = 0;
            proof {
                lemma_first_after(out@, x, before, 0);
            }
            loop
                invariant
                    p <= out@.len(),
                    before == by_name(),
                    first_after(out@, x, before, 0) == first_after(out@, x, before, p as int),
                ensures
                    p <= out@.len(),
                    first_after(out@, x, before, 0) == first_after(out@, x, before, p as int),
                    p == out@.len() || before(x, out@[p as int]),
                decreases out@.len() - p,
            {
                if p >= out.len() {
                    break;
                }
                let lt = match compare_text(x.name_with_owner.as_str(), out[p].name_with_owner.as_str()) {
                    Order3::Less => true,
                    _ => false,
                };
                if lt {
                    break;
                }
                p = p + 1;
            }
            proof {
                assert(first_after(out@, x, before, p as int) == p);
                assert(keep@.take(i + 1).drop_last() =~= keep@.take(i as int));
                assert(keep@.take(i + 1).last() == keep@[i as int]);
            }
            out.insert(p, x);
            i = i + 1;
            assert(out@ == insert_sorted(isort(keep@.take(i - 1), before), x, before));
        }
        assert(keep@.take(keep@.len() as int) =~= keep@);
        out
    }
}

impl TuiState {
    /// This state with the intent for new Work reset to the default.
    pub open spec fn with_default_intent(self) -> TuiState {
        TuiState { create_intent: self.default_create_intent(), ..self }
    }
}


/// The repository index with the list of `slug` set to `value`.
pub open spec fn index_set(
    map: Seq<(String, Vec<AttachedRepository>)>,
    slug: Seq<char>,
    value: Seq<AttachedRepository>,
    after: Seq<(String, Vec<AttachedRepository>)>,
) -> bool {
    forall|s: Seq<char>| #[trigger] attached_for(after, s) == if s == slug {
        value
    } else {
        attached_for(map, s)
    }
}

proof fn lemma_attached_for_remove(map: Seq<(String, Vec<AttachedRepository>)>, i: int, s: Seq<char>)
    requires
        0 <= i < map.len(),
        map[i].0@ != s,
    ensures
        attached_for(map.remove(i), s) == attached_for(map, s),
    decreases map.len(),
{
    if i == map.len() - 1 {
        assert(map.remove(i) =~= map.drop_last());
    } else {
        assert(map.remove(i).last() == map.last());
        assert(map.remove(i).drop_last() =~= map.drop_last().remove(i));
        lemma_attached_for_remove(map.drop_last(), i, s);
    }
}

/// The attached repositories listed for a slug in the repository index.
pub fn lookup_attached(map: &Vec<(String, Vec<AttachedRepository>)>, slug: &str) -> (r: Vec<AttachedRepository>)
    ensures
        r@ == attached_for(map@, slug@),
{
    let mut i: usize = map.len();
    assert(map@.take(i as int) =~= map@);
    while i > 0
        invariant
            i <= map@.len(),
            attached_for(map@, slug@) == attached_for(map@.take(i as int), slug@),
        decreases i,
    {
        proof {
            assert(map@.take(i as int).drop_last() =~= map@.take(i - 1));
        }
        if str_eq(map[i - 1].0.as_str(), slug) {
            return clone_attached_list(&map[i - 1].1);
        }
        i = i - 1;
    }
    Vec::new()
}

/// Sets the list of one slug in the repository index.
pub fn index_insert(map: &mut Vec<(String, Vec<AttachedRepository>)>, slug: &str, value: Vec<AttachedRepository>)
    ensures
        index_set(old(map)@, slug@, value@, final(map)@),
{
    let mut i: usize = map.len();
    while i > 0
        invariant
            i <= map@.len(),
            forall|s: Seq<char>|
                s != slug@ ==> #[trigger] attached_for(map@, s) == attached_for(old(map)@, s),
        decreases i,
    {
        i = i - 1;
        if str_eq(map[i].0.as_str(), slug) {
            proof {
                assert forall|s: Seq<char>| s != slug@ implies #[trigger] attached_for(
                    map@.remove(i as int),
                    s,
                ) == attached_for(old(map)@, s) by {
                    lemma_attached_for_remove(map@, i as int, s);
                }
            }
            map.remove(i);
        }
    }
    let ghost base = map@;
    map.push((owned(slug), value));
    proof {
        assert(map@.drop_last() =~= base);
        assert forall|s: Seq<char>| #[trigger] attached_for(map@, s) == if s == slug@ {
            value@
        } else {
            attached_for(old(map)@, s)
        } by {
            assert(map@.last().0@ == slug@);
            if s != slug@ {
                assert(attached_for(base, s) == attached_for(old(map)@, s));
            }
        }
    }
}

impl TuiState {
    /// Opens the repository context of a Work with its sources known.
    pub fn enter_repo_context(
        &mut self,
        work_slug: String,
        work_title: String,
        available: Vec<AvailableRepository>,
        attached: Vec<AttachedRepository>,
    )
        requires
            old(self).wf(),
        ensures
            final(self).wf(),
            final(self).mode == TuiMode::Repos,
            index_set(
                old(self).attached_repositories@,
                work_slug@,
                attached@,
                final(self).attached_repositories@,
            ),
            final(self).repo.work_slug == work_slug,
            final(self).repo.work_title == work_title,
            final(self).repo.available == available,
            final(self).repo.attached == attached,
            final(self).repo.candidates@.len() == 0,
            final(self).repo.workspaces@.len() == 0,
            final(self).repo.filter@.len() == 0,
            final(self).repo.nothing_pending(),
            final(self).repo.status == crate::repo_picker::RepoStatus::Ready,
            *final(self) == (TuiState {
                mode: TuiMode::Repos,
                attached_repositories: final(self).attached_repositories,
                repo: final(self).repo,
                ..*old(self)
            }),
    {
        self.mode = TuiMode::Repos;
        index_insert(&mut self.attached_repositories, work_slug.as_str(), clone_attached_list(&attached));
        self.repo.enter_context(work_slug, work_title, available, Vec::new(), attached, Vec::new());
    }

    /// Opens the repository context of a Work while its sources load.
    pub fn enter_repo_loading(&mut self, work_slug: String, work_title: String)
        requires
            old(self).wf(),
        ensures
            final(self).wf(),
            final(self).repo.attached@ == attached_for(old(self).attached_repositories@, work_slug@),
            crate::repo_picker::loading_entered(
                old(self).repo,
                final(self).repo,
                work_slug,
                work_title,
                final(self).repo.attached,
            ),
            *final(self) == (TuiState { mode: TuiMode::Repos, repo: final(self).repo, ..*old(self) }),
    {
        self.mode = TuiMode::Repos;
        let attached = lookup_attached(&self.attached_repositories, work_slug.as_str());
        self.repo.enter_loading(work_slug, work_title, attached);
    }

    /// Whether the title shows an operation in progress.
    pub fn is_title_activity_active(&self) -> (r: bool)
        ensures
            r == (self.mode == TuiMode::Repos && (self.repo.status is Loading
                || self.repo.status is Applying)),
    {
        self.mode == TuiMode::Repos && self.repo.is_activity_active()
    }

    /// Advances the title activity animation while it shows.
    pub fn advance_activity_frame(&mut self)
        ensures
            *final(self) == (TuiState { repo: final(self).repo, ..*old(self) }),
            old(self).mode == TuiMode::Repos ==> (
            old(self).repo.status is Loading || old(self).repo.status is Applying ==> final(self).repo == (
            RepoPickerState {
                activity_frame: if old(self).repo.activity_frame == usize::MAX {
                    0
                } else {
                    (old(self).repo.activity_frame + 1) as usize
                },
                ..old(self).repo
            })),
            !(old(self).mode == TuiMode::Repos && (old(self).repo.status is Loading
                || old(self).repo.status is Applying)) ==> *final(self) == *old(self),
    {
        if self.is_title_activity_active() {
            self.repo.advance_activity_frame();
        }
    }

    /// Takes the attached repositories of the open context after a change.
    pub fn update_attached_repositories(&mut self, attached: Vec<AttachedRepository>)
        requires
            old(self).wf(),
        ensures
            final(self).wf(),
            index_set(
                old(self).attached_repositories@,
                old(self).repo.work_slug@,
                attached@,
                final(self).attached_repositories@,
            ),
            final(self).repo.nothing_pending(),
            final(self).repo == (RepoPickerState {
                attached,
                pending_add: final(self).repo.pending_add,
                pending_link: final(self).repo.pending_link,
                pending_remove: final(self).repo.pending_remove,
                force_remove: false,
                status: crate::repo_picker::RepoStatus::Ready,
                ..old(self).repo
            }).clamped_state(),
            *final(self) == (TuiState {
                repository_index_generation: if old(self).repository_index_generation == u64::MAX {
                    0
                } else {
                    (old(self).repository_index_generation + 1) as u64
                },
                repository_index_loading: false,
                attached_repositories: final(self).attached_repositories,
                repo: final(self).repo,
                ..*old(self)
            }),
    {
        self.repository_index_generation = if self.repository_index_generation == u64::MAX {
            0
        } else {
            self.repository_index_generation + 1
        };
        self.repository_index_loading = false;
        index_insert(
            &mut self.attached_repositories,
            self.repo.work_slug.as_str(),
            clone_attached_list(&attached),
        );
        self.repo.update_attached(attached);
    }

    /// Takes the attached repositories from the context loader.
    pub fn update_repo_attached_from_load(&mut self, attached: Vec<AttachedRepository>)
        requires
            old(self).wf(),
        ensures
            final(self).wf(),
            index_set(
                old(self).attached_repositories@,
                old(self).repo.work_slug@,
                attached@,
                final(self).attached_repositories@,
            ),
            final(self).repo.nothing_pending(),
            final(self).repo == (RepoPickerState {
                attached,
                pending_add: final(self).repo.pending_add,
                pending_link: final(self).repo.pending_link,
                pending_remove: final(self).repo.pending_remove,
                force_remove: false,
                ..old(self).repo
            }).clamped_state(),
            *final(self) == (TuiState {
                attached_repositories: final(self).attached_repositories,
                repo: final(self).repo,
                ..*old(self)
            }),
    {
        index_insert(
            &mut self.attached_repositories,
            self.repo.work_slug.as_str(),
            clone_attached_list(&attached),
        );
        self.repo.update_attached_from_load(attached);
    }

    /// Records an event in the repository log.
    pub fn push_repo_log(&mut self, kind: TraceKind, message: String)
        ensures
            *final(self) == (TuiState { repo: final(self).repo, ..*old(self) }),
            final(self).repo == (RepoPickerState { logs: final(self).repo.logs, ..old(self).repo }),
            final(self).repo.logs@ == crate::events::logged(
                old(self).repo.logs@,
                TraceEvent { kind, message },
            ),
    {
        self.repo.push_log(kind, message);
    }

    /// Shows a repository failure, logged.
    pub fn set_repo_failed(&mut self, message: String)
        ensures
            *final(self) == (TuiState { repo: final(self).repo, ..*old(self) }),
            final(self).repo == (RepoPickerState {
                status: crate::repo_picker::RepoStatus::Failed { message },
                logs: final(self).repo.logs,
                ..old(self).repo
            }),
            final(self).repo.logs@ == crate::events::logged(
                old(self).repo.logs@,
                TraceEvent { kind: TraceKind::Error, message },
            ),
    {
        self.repo.set_failed(message);
    }

    /// Shows the progress of one repository operation.
    pub fn start_repo_step(&mut self, action: RepoOperation, current: usize, total: usize, repository: &str)
        ensures
            *final(self) == (TuiState { repo: final(self).repo, ..*old(self) }),
            final(self).repo.status matches crate::repo_picker::RepoStatus::Applying {
                action: a,
                current: c,
                total: t,
                repository: r,
            } && a == action && c == current && t == total && r@ == repository@,
            final(self).repo.logs@.len() > 0,
            final(self).repo.logs@.last().message@ == crate::repo_picker::step_message(
                action,
                current,
                total,
                repository@,
            ),
    {
        self.repo.start_step(action, current, total, repository);
    }
}


/// `b` is `a` with the intent list opened for a Work, on its current intent.
pub open spec fn intent_opened(a: TuiState, b: TuiState, work_slug: String, work_title: String, current_intent_id: String) -> bool {
    let opened = TuiState {
        mode: TuiMode::Intents,
        intent_work_slug: work_slug,
        intent_work_title: work_title,
        intent_current_id: current_intent_id,
        intent_filter: b.intent_filter,
        selected_intent: b.selected_intent,
        ..a
    };
    let p = first_intent(opened.intents@, opened.intent_indices(), current_intent_id@, 0);
    &&& b.intent_filter@.len() == 0
    &&& b == opened
    &&& b.selected_intent == if p < opened.intent_indices().len() {
        p as usize
    } else {
        0
    }
}

/// `b` is `a` with the filter closed and the selection it hid restored.
pub open spec fn filter_closed(a: TuiState, b: TuiState) -> bool {
    let cleared = TuiState {
        filter: b.filter,
        pre_filter_selected_slug: None,
        mode: TuiMode::List,
        ..a
    };
    &&& b.filter@.len() == 0
    &&& b == match a.pre_filter_selected_slug {
        Some(slug) => cleared.slug_selected(slug@),
        None => cleared.clamped_state(),
    }
}

impl TuiState {
    /// This state with the filter open, remembering the selection when no
    /// filter was typed before.
    pub open spec fn entered_filter(self) -> TuiState {
        TuiState {
            pre_filter_selected_slug: if self.filter@.len() == 0 && self.pre_filter_selected_slug is None {
                self.selected_slug()
            } else {
                self.pre_filter_selected_slug
            },
            mode: TuiMode::Search,
            ..self
        }
    }
}


impl TuiState {
    /// Takes the GitHub catalog from the context loader.
    pub fn update_repo_available_from_load(&mut self, available: Vec<AvailableRepository>)
        ensures
            *final(self) == (TuiState { repo: final(self).repo, ..*old(self) }),
            final(self).repo == (RepoPickerState { available, ..old(self).repo }).clamped_state(),
    {
        self.repo.update_available_from_load(available);
    }

    /// Takes the configured workspaces from a loader.
    pub fn update_repo_workspaces_from_load(&mut self, workspaces: Vec<RepositoryWorkspace>)
        ensures
            *final(self) == (TuiState { repo: final(self).repo, ..*old(self) }),
            crate::repo_picker::workspaces_updated(old(self).repo, final(self).repo, workspaces),
    {
        self.repo.update_workspaces_from_load(workspaces);
    }

    /// Takes the local candidates from a loader.
    pub fn update_repo_candidates_from_load(&mut self, candidates: Vec<RepositoryCandidate>)
        requires
            old(self).wf(),
        ensures
            final(self).wf(),
            *final(self) == (TuiState { repo: final(self).repo, ..*old(self) }),
            crate::repo_picker::candidates_updated(old(self).repo, final(self).repo, candidates),
    {
        self.repo.update_candidates_from_load(candidates);
    }

    /// Takes the local paths to inspect from the context loader.
    pub fn update_repo_candidate_paths_from_load(&mut self, paths: Vec<RepositoryCandidatePath>)
        requires
            old(self).wf(),
        ensures
            final(self).wf(),
            *final(self) == (TuiState { repo: final(self).repo, ..*old(self) }),
            crate::repo_picker::candidate_paths_updated(old(self).repo, final(self).repo, paths),
    {
        self.repo.update_candidate_paths_from_load(paths);
    }

    /// Takes one inspection result from the context loader.
    pub fn update_repo_candidate_inspection_from_load(&mut self, inspection: RepositoryCandidateInspection)
        requires
            old(self).wf(),
        ensures
            final(self).wf(),
            *final(self) == (TuiState { repo: final(self).repo, ..*old(self) }),
            crate::repo_picker::inspection_updated(old(self).repo, final(self).repo, inspection),
    {
        self.repo.update_candidate_inspection_from_load(inspection);
    }

    /// Records that inspecting a local path failed.
    pub fn mark_repo_candidate_inspection_failed(&mut self, path: String)
        requires
            old(self).wf(),
        ensures
            final(self).wf(),
            *final(self) == (TuiState { repo: final(self).repo, ..*old(self) }),
            crate::repo_picker::inspection_failed(old(self).repo, final(self).repo, path@),
    {
        self.repo.mark_candidate_inspection_failed(path);
    }

    /// Shows a repository loading status, logged.
    pub fn start_repo_loading(&mut self, message: String)
        ensures
            *final(self) == (TuiState { repo: final(self).repo, ..*old(self) }),
            crate::repo_picker::loading_started(old(self).repo, final(self).repo, message@),
    {
        self.repo.start_loading(message);
    }

    /// Replaces the repository loading message, when loading.
    pub fn update_repo_loading_message(&mut self, message: String)
        ensures
            *final(self) == (TuiState { repo: final(self).repo, ..*old(self) }),
            crate::repo_picker::loading_message_updated(old(self).repo, final(self).repo, message),
    {
        self.repo.update_loading_message(message);
    }

    /// Ends repository loading.
    pub fn finish_repo_loading(&mut self)
        ensures
            *final(self) == (TuiState { repo: final(self).repo, ..*old(self) }),
            crate::repo_picker::loading_finished(old(self).repo, final(self).repo),
    {
        self.repo.finish_loading();
    }
}

} // verus!
