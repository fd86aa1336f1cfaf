use vstd::prelude::*;

use crate::arith::{clamp_index, clamped, wrap_index, wrapped};
use crate::domain::{
    attached_names, clone_candidate, AttachedRepository, AvailableRepository, RepositoryCandidate,
    RepositoryCandidateInspection, RepositoryCandidatePath, RepositoryWorkspace,
};
use crate::events::{logged, record_log, Toast, ToastKind, TraceEvent, TraceKind};
use crate::keys::{is_plain, is_plain_character, Key, KeyCode};
use crate::names::{
    name_set, names_clear, names_contain, names_insert, names_new, names_remove, names_wf,
};
use crate::paths::{parse_paths, path_list};
use crate::repo_catalog::{attached_has, build_catalog, catalog, RepoCatalogRow};
use crate::text::{
    chars_of, clone_string, clone_strings, decimal, decimal_string, owned, pop_char, push_char,
    push_str, str_eq, texts,
};

verus! {

/// The focused panel of the repository context view.
#[derive(Debug, Clone, Copy, PartialEq, Eq, Structural)]
pub enum RepoPane {
    Catalog,
    AddPath,
    ConfiguredPaths,
}

/// A repository operation of a batch.
#[derive(Debug, Clone, Copy, PartialEq, Eq, Structural)]
pub enum RepoOperation {
    Add,
    Link,
    Remove,
    Refresh,
}

/// What the repository context view is doing.
#[derive(Debug, Clone, PartialEq, Eq)]
pub enum RepoStatus {
    Ready,
    Loading { message: String },
    Applying { action: RepoOperation, current: usize, total: usize, repository: String },
    Failed { message: String },
}

/// What the application should do after a key in the repository view.
#[derive(Debug, Clone, PartialEq, Eq)]
pub enum RepoPickerAction {
    Nothing,
    Back,
    Notify(Toast),
    AddWorkspaces { work_slug: String, paths: Vec<String> },
    RemoveWorkspace { work_slug: String, path: String },
    Apply {
        work_slug: String,
        add: Vec<String>,
        link: Vec<String>,
        remove: Vec<String>,
        force_remove: bool,
        workspace: Option<String>,
    },
}

/// The repository context of one Work: its sources, the pending changes
/// and the progress of loading and applying them.
#[derive(Debug, Clone, PartialEq, Eq)]
pub struct RepoPickerState {
    pub focus: RepoPane,
    pub work_slug: String,
    pub work_title: String,
    pub available: Vec<AvailableRepository>,
    pub candidates: Vec<RepositoryCandidate>,
    pub pending_candidate_paths: Vec<RepositoryCandidatePath>,
    /// Local paths whose inspection failed, as an ordered set.
    pub failed_candidate_paths: Vec<String>,
    pub attached: Vec<AttachedRepository>,
    pub workspaces: Vec<RepositoryWorkspace>,
    pub selected_workspace: usize,
    pub selected_catalog: usize,
    pub workspace_input: String,
    pub filter: String,
    /// GitHub repositories to add, as an ordered set of names.
    pub pending_add: Vec<String>,
    /// Local paths to link, as an ordered set.
    pub pending_link: Vec<String>,
    /// Attached repositories to remove, as an ordered set of names.
    pub pending_remove: Vec<String>,
    pub force_remove: bool,
    pub status: RepoStatus,
    pub logs: Vec<TraceEvent>,
    pub activity_frame: usize,
}

/// The word a progress log uses for an operation.
pub open spec fn verb(op: RepoOperation) -> Seq<char> {
    match op {
        RepoOperation::Add => "worktree"@,
        RepoOperation::Link => "link"@,
        RepoOperation::Remove => "remove"@,
        RepoOperation::Refresh => "refresh"@,
    }
}

/// The word a progress log uses for an operation.
pub fn operation_verb(op: RepoOperation) -> (r: &'static str)
    ensures
        r@ == verb(op),
{
    match op {
        RepoOperation::Add => "worktree",
        RepoOperation::Link => "link",
        RepoOperation::Remove => "remove",
        RepoOperation::Refresh => "refresh",
    }
}

/// The position of a panel in focus order.
pub open spec fn pane_index(p: RepoPane) -> int {
    match p {
        RepoPane::Catalog => 0,
        RepoPane::AddPath => 1,
        RepoPane::ConfiguredPaths => 2,
    }
}

/// The panel at a position of focus order.
pub open spec fn pane_at(i: int) -> RepoPane {
    if i == 0 {
        RepoPane::Catalog
    } else if i == 1 {
        RepoPane::AddPath
    } else {
        RepoPane::ConfiguredPaths
    }
}

/// The local paths of candidates with the given name.
pub open spec fn candidate_paths_named(cs: Seq<RepositoryCandidate>, name: Seq<char>) -> Set<Seq<char>> {
    Set::new(|p: Seq<char>| exists|k: int| 0 <= k < cs.len() && #[trigger] cs[k].name_with_owner@ == name && cs[k].path@ == p)
}

/// The text of a progress log line.
pub open spec fn step_message(action: RepoOperation, current: usize, total: usize, repository: Seq<char>) -> Seq<char> {
    verb(action) + " "@ + decimal(current as nat) + "/"@ + decimal(total as nat) + " "@ + repository
}

/// The text after removing its last character, if any.
pub open spec fn popped(s: Seq<char>) -> Seq<char> {
    if s.len() > 0 {
        s.drop_last()
    } else {
        s
    }
}

impl RepoPickerState {
    /// The ordered sets are well formed.
    pub open spec fn wf(self) -> bool {
        &&& names_wf(self.pending_add@)
        &&& names_wf(self.pending_link@)
        &&& names_wf(self.pending_remove@)
        &&& names_wf(self.failed_candidate_paths@)
    }

    /// The catalog rows, in catalog order.
    pub open spec fn rows(self) -> Seq<RepoCatalogRow> {
        catalog(
            self.filter@,
            self.available@,
            self.candidates@,
            self.pending_candidate_paths@,
            self.failed_candidate_paths@,
            self.attached@,
        )
    }

    /// An empty context: no Work, no sources, nothing pending, ready.
    pub open spec fn is_fresh(self) -> bool {
        &&& self.focus == RepoPane::Catalog
        &&& self.work_slug@.len() == 0
        &&& self.work_title@.len() == 0
        &&& self.available@.len() == 0
        &&& self.candidates@.len() == 0
        &&& self.pending_candidate_paths@.len() == 0
        &&& self.failed_candidate_paths@.len() == 0
        &&& self.attached@.len() == 0
        &&& self.workspaces@.len() == 0
        &&& self.selected_workspace == 0
        &&& self.selected_catalog == 0
        &&& self.workspace_input@.len() == 0
        &&& self.filter@.len() == 0
        &&& self.nothing_pending()
        &&& self.status == RepoStatus::Ready
        &&& self.logs@.len() == 0
        &&& self.activity_frame == 0
    }

    /// Nothing is pending.
    pub open spec fn nothing_pending(self) -> bool {
        &&& self.pending_add@.len() == 0
        &&& self.pending_link@.len() == 0
        &&& self.pending_remove@.len() == 0
        &&& !self.force_remove
    }

    /// The selection of the focused panel.
    pub open spec fn current_selection_of(self) -> int {
        match self.focus {
            RepoPane::Catalog => self.selected_catalog as int,
            RepoPane::AddPath => 0,
            RepoPane::ConfiguredPaths => self.selected_workspace as int,
        }
    }

    /// The number of items in the focused panel.
    pub open spec fn current_count_of(self) -> int {
        match self.focus {
            RepoPane::Catalog => self.rows().len() as int,
            RepoPane::AddPath => 0,
            RepoPane::ConfiguredPaths => self.workspaces@.len() as int,
        }
    }

    /// This state with the focused panel's selection set.
    pub open spec fn with_current_selection(self, selected: usize) -> RepoPickerState {
        match self.focus {
            RepoPane::Catalog => RepoPickerState { selected_catalog: selected, ..self },
            RepoPane::AddPath => self,
            RepoPane::ConfiguredPaths => RepoPickerState { selected_workspace: selected, ..self },
        }
    }

    /// This state with the focused panel's selection moved by `delta`.
    pub open spec fn moved(self, delta: int) -> RepoPickerState {
        let count = self.current_count_of();
        if count == 0 {
            self.with_current_selection(0)
        } else {
            self.with_current_selection(wrapped(self.current_selection_of(), delta, count) as usize)
        }
    }

    /// This state with both selections kept inside their panels.
    pub open spec fn clamped_state(self) -> RepoPickerState {
        RepoPickerState {
            selected_catalog: clamped(self.selected_catalog as int, self.rows().len() as int) as usize,
            selected_workspace: clamped(
                self.selected_workspace as int,
                self.workspaces@.len() as int,
            ) as usize,
            ..self
        }
    }

    /// This state with the focus moved by `delta` panels, wrapping.
    pub open spec fn focus_shifted(self, delta: int) -> RepoPickerState {
        RepoPickerState { focus: pane_at(wrapped(pane_index(self.focus), delta, 3)), ..self }
    }

    /// The path of the selected workspace, if any.
    pub open spec fn selected_path(self) -> Option<String> {
        if self.selected_workspace < self.workspaces@.len() {
            Some(self.workspaces@[self.selected_workspace as int].path)
        } else {
            None
        }
    }

    /// Whether a repository name counts as selected for the Work.
    pub open spec fn selected_spec(self, name: Seq<char>) -> bool {
        !name_set(self.pending_remove@).contains(name) && (name_set(self.pending_add@).contains(
            name,
        ) || attached_names(self.attached@).contains(name))
    }
}

/// `b` differs from `a` at most in the pending changes.
pub open spec fn same_except_pending(a: RepoPickerState, b: RepoPickerState) -> bool {
    b == RepoPickerState {
        pending_add: b.pending_add,
        pending_link: b.pending_link,
        pending_remove: b.pending_remove,
        force_remove: b.force_remove,
        ..a
    }
}

/// The pending changes of `b` are those of `a` with the repository `name`
/// toggled.
pub open spec fn repository_toggled(a: RepoPickerState, b: RepoPickerState, name: Seq<char>) -> bool {
    let add = name_set(a.pending_add@);
    let link = name_set(a.pending_link@);
    let remove = name_set(a.pending_remove@);
    if add.contains(name) {
        &&& name_set(b.pending_add@) == add.remove(name)
        &&& name_set(b.pending_link@) == link
        &&& name_set(b.pending_remove@) == remove
        &&& b.force_remove == a.force_remove
    } else if attached_names(a.attached@).contains(name) || remove.contains(name) {
        &&& name_set(b.pending_add@) == add
        &&& name_set(b.pending_link@) == link
        &&& if remove.contains(name) {
            &&& name_set(b.pending_remove@) == remove.remove(name)
            &&& b.force_remove == (a.force_remove && b.pending_remove@.len() > 0)
        } else {
            &&& name_set(b.pending_remove@) == remove.insert(name)
            &&& b.force_remove == a.force_remove
        }
    } else {
        &&& name_set(b.pending_add@) == add.insert(name)
        &&& name_set(b.pending_link@) == link.difference(candidate_paths_named(a.candidates@, name))
        &&& name_set(b.pending_remove@) == remove
        &&& b.force_remove == a.force_remove
    }
}

/// The pending changes of `b` are those of `a` with the local candidate `c`
/// toggled.
pub open spec fn candidate_toggled(a: RepoPickerState, b: RepoPickerState, c: RepositoryCandidate) -> bool {
    if attached_names(a.attached@).contains(c.name_with_owner@) {
        repository_toggled(a, b, c.name_with_owner@)
    } else {
        let link = name_set(a.pending_link@).difference(
            candidate_paths_named(a.candidates@, c.name_with_owner@),
        );
        &&& name_set(b.pending_add@) == name_set(a.pending_add@).remove(c.name_with_owner@)
        &&& name_set(b.pending_link@) == if link.contains(c.path@) {
            link.remove(c.path@)
        } else {
            link.insert(c.path@)
        }
        &&& name_set(b.pending_remove@) == name_set(a.pending_remove@)
        &&& b.force_remove == a.force_remove
    }
}

/// `b` is `a` after toggling the focused catalog row.
pub open spec fn focused_toggled(a: RepoPickerState, b: RepoPickerState) -> bool {
    if a.focus == RepoPane::Catalog && a.selected_catalog >= a.rows().len() {
        b == a
    } else {
        let c = a.clamped_state();
        &&& same_except_pending(c, b)
        &&& if a.focus == RepoPane::Catalog {
            match a.rows()[a.selected_catalog as int] {
                RepoCatalogRow::GitHub(r) => repository_toggled(a, b, r.name_with_owner@),
                RepoCatalogRow::Local(cand) => candidate_toggled(a, b, cand),
                RepoCatalogRow::PendingLocal { .. } => b == c,
                RepoCatalogRow::Attached(r) => repository_toggled(a, b, r.name_with_owner@),
            }
        } else {
            b == c
        }
    }
}

/// `b` is `a` with a loading status of the text `msg`, logged.
pub open spec fn loading_started(a: RepoPickerState, b: RepoPickerState, msg: Seq<char>) -> bool {
    &&& b == RepoPickerState { status: b.status, activity_frame: 0, logs: b.logs, ..a }
    &&& b.status is Loading
    &&& (b.status->Loading_message)@ == msg
    &&& b.logs@ == logged(
        a.logs@,
        TraceEvent { kind: TraceKind::Run, message: b.status->Loading_message },
    )
}

/// The error toast with the given texts.
pub open spec fn error_toast(t: Toast, title: Seq<char>, message: Seq<char>) -> bool {
    t.title@ == title && t.message@ == message && t.kind == ToastKind::Error
}

/// What Enter in the catalog asks for.
pub open spec fn apply_result(a: RepoPickerState, r: RepoPickerAction) -> bool {
    if a.pending_add@.len() == 0 && a.pending_link@.len() == 0 && a.pending_remove@.len() == 0 {
        r is Nothing
    } else if a.pending_add@.len() > 0 && a.workspaces@.len() == 0 {
        r matches RepoPickerAction::Notify(t) && error_toast(
            t,
            "No repo workspace"@,
            "Type a repo workspace path, then press enter."@,
        )
    } else {
        r matches RepoPickerAction::Apply { work_slug, add, link, remove, force_remove, workspace }
            && work_slug == a.work_slug && add@ == a.pending_add@ && link@ == a.pending_link@
            && remove@ == a.pending_remove@ && force_remove == (a.force_remove
            && a.pending_remove@.len() > 0) && workspace == (if a.pending_add@.len() == 0 {
            None
        } else {
            a.selected_path()
        })
    }
}

/// What Enter in the path input does.
pub open spec fn add_workspace_step(a: RepoPickerState, b: RepoPickerState, r: RepoPickerAction) -> bool {
    let paths = path_list(a.workspace_input@);
    if paths.len() == 0 {
        b == a && r is Nothing
    } else {
        &&& b.workspace_input@.len() == 0
        &&& loading_started(
            RepoPickerState { workspace_input: b.workspace_input, ..a },
            b,
            "Adding repository workspace"@,
        )
        &&& r matches RepoPickerAction::AddWorkspaces { work_slug, paths: ps } && work_slug
            == a.work_slug && texts(ps@) == paths
    }
}

/// What removing the selected workspace does.
pub open spec fn remove_workspace_step(a: RepoPickerState, b: RepoPickerState, r: RepoPickerAction) -> bool {
    if a.selected_workspace < a.workspaces@.len() {
        &&& loading_started(a, b, "Removing repository workspace"@)
        &&& r matches RepoPickerAction::RemoveWorkspace { work_slug, path } && work_slug
            == a.work_slug && path == a.workspaces@[a.selected_workspace as int].path
    } else {
        b == a && r is Nothing
    }
}

/// What arming force removal does.
pub open spec fn force_step(a: RepoPickerState, b: RepoPickerState, r: RepoPickerAction) -> bool {
    if a.pending_remove@.len() == 0 {
        &&& b == a
        &&& (r matches RepoPickerAction::Notify(t) && error_toast(
            t,
            "No removals selected"@,
            "Select attached repositories before arming force."@,
        ))
    } else {
        &&& b == RepoPickerState { force_remove: !a.force_remove, logs: b.logs, ..a }
        &&& b.logs@.len() > 0
        &&& b.logs@ == logged(a.logs@, b.logs@.last())
        &&& b.logs@.last().kind == (if b.force_remove {
            TraceKind::Warn
        } else {
            TraceKind::Run
        })
        &&& b.logs@.last().message@ == (if b.force_remove {
            "force remove armed"@
        } else {
            "force remove disarmed"@
        })
        &&& r is Nothing
    }
}

/// What a typed character does outside the path input.
pub open spec fn character_step(a: RepoPickerState, b: RepoPickerState, c: char) -> bool {
    match a.focus {
        RepoPane::Catalog => b == RepoPickerState { filter: b.filter, selected_catalog: 0, ..a }
            && b.filter@ == a.filter@.push(c),
        RepoPane::AddPath => input_pushed(a, b, c),
        RepoPane::ConfiguredPaths => b == a,
    }
}

/// `b` is `a` with `c` typed into the path input.
pub open spec fn input_pushed(a: RepoPickerState, b: RepoPickerState, c: char) -> bool {
    b == RepoPickerState { workspace_input: b.workspace_input, ..a } && b.workspace_input@
        == a.workspace_input@.push(c)
}

/// What Space does.
pub open spec fn space_step(a: RepoPickerState, b: RepoPickerState, r: RepoPickerAction) -> bool {
    match a.focus {
        RepoPane::Catalog => focused_toggled(a, b) && r is Nothing,
        RepoPane::AddPath => input_pushed(a, b, ' ') && r is Nothing,
        RepoPane::ConfiguredPaths => remove_workspace_step(a, b, r),
    }
}

/// What Enter does.
pub open spec fn enter_step(a: RepoPickerState, b: RepoPickerState, r: RepoPickerAction) -> bool {
    match a.focus {
        RepoPane::Catalog => b == a && apply_result(a, r),
        RepoPane::AddPath => add_workspace_step(a, b, r),
        RepoPane::ConfiguredPaths => remove_workspace_step(a, b, r),
    }
}

/// What a key does in the repository view: `a` before, `b` after, `r` the
/// action asked for.
pub open spec fn picker_key_step(a: RepoPickerState, b: RepoPickerState, key: Key, r: RepoPickerAction) -> bool {
    match key.code {
        KeyCode::Esc => {
            &&& b == RepoPickerState {
                pending_add: b.pending_add,
                pending_link: b.pending_link,
                pending_remove: b.pending_remove,
                force_remove: false,
                filter: b.filter,
                ..a
            }
            &&& b.nothing_pending()
            &&& b.filter@.len() == 0
            &&& r is Back
        },
        KeyCode::Tab | KeyCode::Right => b == a.focus_shifted(1) && r is Nothing,
        KeyCode::BackTab | KeyCode::Left => b == a.focus_shifted(-1) && r is Nothing,
        KeyCode::Down => b == a.moved(1) && r is Nothing,
        KeyCode::Up => b == a.moved(-1) && r is Nothing,
        KeyCode::Backspace => {
            &&& r is Nothing
            &&& if a.focus == RepoPane::AddPath {
                b == RepoPickerState { workspace_input: b.workspace_input, ..a }
                    && b.workspace_input@ == popped(a.workspace_input@)
            } else if a.filter@.len() > 0 {
                b == RepoPickerState { filter: b.filter, selected_catalog: 0, ..a } && b.filter@
                    == a.filter@.drop_last()
            } else {
                b == a
            }
        },
        KeyCode::Enter => enter_step(a, b, r),
        KeyCode::Char(c) => if !is_plain(key) {
            b == a && r is Nothing
        } else if a.focus == RepoPane::AddPath {
            input_pushed(a, b, c) && r is Nothing
        } else if c == '+' {
            b == RepoPickerState { focus: RepoPane::AddPath, ..a } && r is Nothing
        } else if c == ' ' {
            space_step(a, b, r)
        } else if c == '!' && a.focus == RepoPane::Catalog {
            force_step(a, b, r)
        } else {
            character_step(a, b, c) && r is Nothing
        },
        _ => b == a && r is Nothing,
    }
}

impl RepoPickerState {
    /// An empty repository context.
    pub fn new() -> (s: RepoPickerState)
        ensures
            s.wf(),
            s.is_fresh(),
    {
        RepoPickerState {
            focus: RepoPane::Catalog,
            work_slug: String::new(),
            work_title: String::new(),
            available: Vec::new(),
            candidates: Vec::new(),
            pending_candidate_paths: Vec::new(),
            failed_candidate_paths: names_new(),
            attached: Vec::new(),
            workspaces: Vec::new(),
            selected_workspace: 0,
            selected_catalog: 0,
            workspace_input: String::new(),
            filter: String::new(),
            pending_add: names_new(),
            pending_link: names_new(),
            pending_remove: names_new(),
            force_remove: false,
            status: RepoStatus::Ready,
            logs: Vec::new(),
            activity_frame: 0,
        }
    }

    /// Empties the pending changes and disarms force removal.
    pub fn clear_pending_changes(&mut self)
        ensures
            *final(self) == (RepoPickerState {
                pending_add: final(self).pending_add,
                pending_link: final(self).pending_link,
                pending_remove: final(self).pending_remove,
                force_remove: false,
                ..*old(self)
            }),
            final(self).nothing_pending(),
            old(self).wf() ==> final(self).wf(),
    {
        names_clear(&mut self.pending_add);
        names_clear(&mut self.pending_link);
        names_clear(&mut self.pending_remove);
        self.force_remove = false;
    }

    /// Opens the context of a Work with its sources already known.
    pub fn enter_context(
        &mut self,
        work_slug: String,
        work_title: String,
        available: Vec<AvailableRepository>,
        candidates: Vec<RepositoryCandidate>,
        attached: Vec<AttachedRepository>,
        workspaces: Vec<RepositoryWorkspace>,
    )
        requires
            old(self).wf(),
        ensures
            final(self).wf(),
            *final(self) == (RepoPickerState {
                focus: if workspaces@.len() == 0 {
                    RepoPane::AddPath
                } else {
                    RepoPane::Catalog
                },
                work_slug,
                work_title,
                available,
                candidates,
                attached,
                workspaces,
                workspace_input: final(self).workspace_input,
                filter: final(self).filter,
                pending_add: final(self).pending_add,
                pending_link: final(self).pending_link,
                pending_remove: final(self).pending_remove,
                force_remove: false,
                status: RepoStatus::Ready,
                ..*old(self)
            }),
            final(self).workspace_input@.len() == 0,
            final(self).filter@.len() == 0,
            final(self).nothing_pending(),
    {
        self.focus = if workspaces.len() == 0 {
            RepoPane::AddPath
        } else {
            RepoPane::Catalog
        };
        self.work_slug = work_slug;
        self.work_title = work_title;
        self.available = available;
        self.candidates = candidates;
        self.attached = attached;
        self.workspaces = workspaces;
        self.workspace_input = String::new();
        self.filter = String::new();
        self.clear_pending_changes();
        self.status = RepoStatus::Ready;
    }

    /// Records an event in the repository log.
    pub fn push_log(&mut self, kind: TraceKind, message: String)
        ensures
            *final(self) == (RepoPickerState { logs: final(self).logs, ..*old(self) }),
            final(self).logs@ == logged(old(self).logs@, TraceEvent { kind, message }),
    {
        record_log(&mut self.logs, kind, message);
    }

    /// Opens the context of a Work while its sources load.
    pub fn enter_loading(&mut self, work_slug: String, work_title: String, attached: Vec<AttachedRepository>)
        requires
            old(self).wf(),
        ensures
            final(self).wf(),
            loading_entered(*old(self), *final(self), work_slug, work_title, attached),
    {
        self.focus = RepoPane::Catalog;
        self.work_slug = work_slug;
        self.work_title = work_title;
        self.available = Vec::new();
        self.candidates = Vec::new();
        self.attached = attached;
        self.workspaces = Vec::new();
        self.selected_workspace = 0;
        self.selected_catalog = 0;
        self.workspace_input = String::new();
        self.filter = String::new();
        self.clear_pending_changes();
        self.logs = Vec::new();
        self.status = RepoStatus::Loading {
            message: owned("Loading: attached, workspaces, local, GitHub"),
        };
        self.activity_frame = 0;
        self.push_log(TraceKind::Run, owned("repository context load started"));
    }

    /// Shows a loading status with `message`, logged.
    pub fn start_loading(&mut self, message: String)
        ensures
            loading_started(*old(self), *final(self), message@),
            (final(self).status->Loading_message) == message,
    {
        let logged_message = clone_string(&message);
        self.status = RepoStatus::Loading { message };
        self.activity_frame = 0;
        self.push_log(TraceKind::Run, logged_message);
    }

    /// Replaces the loading message, when loading.
    pub fn update_loading_message(&mut self, message: String)
        ensures
            loading_message_updated(*old(self), *final(self), message),
    {
        if let RepoStatus::Loading { .. } = self.status {
            self.status = RepoStatus::Loading { message };
        }
    }

    /// Ends loading.
    pub fn finish_loading(&mut self)
        ensures
            loading_finished(*old(self), *final(self)),
    {
        if let RepoStatus::Loading { .. } = self.status {
            self.status = RepoStatus::Ready;
        }
    }

    /// The catalog rows in catalog order.
    pub fn catalog_rows(&self) -> (r: Vec<RepoCatalogRow>)
        ensures
            r@ == self.rows(),
    {
        build_catalog(
            self.filter.as_str(),
            &self.available,
            &self.candidates,
            &self.pending_candidate_paths,
            &self.failed_candidate_paths,
            &self.attached,
        )
    }

    /// Keeps both selections inside their panels.
    pub fn clamp_selection(&mut self)
        ensures
            *final(self) == old(self).clamped_state(),
    {
        let rows = self.catalog_rows();
        self.selected_catalog = clamp_index(self.selected_catalog, rows.len());
        self.selected_workspace = clamp_index(self.selected_workspace, self.workspaces.len());
    }

    /// Takes the attached repositories after a change was applied.
    pub fn update_attached(&mut self, attached: Vec<AttachedRepository>)
        requires
            old(self).wf(),
        ensures
            final(self).wf(),
            final(self).nothing_pending(),
            *final(self) == (RepoPickerState {
                attached,
                pending_add: final(self).pending_add,
                pending_link: final(self).pending_link,
                pending_remove: final(self).pending_remove,
                force_remove: false,
                status: RepoStatus::Ready,
                ..*old(self)
            }).clamped_state(),
    {
        self.attached = attached;
        self.clear_pending_changes();
        self.status = RepoStatus::Ready;
        self.clamp_selection();
    }

    /// Takes the attached repositories from the context loader.
    pub fn update_attached_from_load(&mut self, attached: Vec<AttachedRepository>)
        requires
            old(self).wf(),
        ensures
            final(self).wf(),
            final(self).nothing_pending(),
            *final(self) == (RepoPickerState {
                attached,
                pending_add: final(self).pending_add,
                pending_link: final(self).pending_link,
                pending_remove: final(self).pending_remove,
                force_remove: false,
                ..*old(self)
            }).clamped_state(),
    {
        self.attached = attached;
        self.clear_pending_changes();
        self.clamp_selection();
    }

    /// Takes the GitHub catalog from the context loader.
    pub fn update_available_from_load(&mut self, available: Vec<AvailableRepository>)
        ensures
            *final(self) == (RepoPickerState { available, ..*old(self) }).clamped_state(),
    {
        self.available = available;
        self.clamp_selection();
    }

    /// Takes the configured workspaces; moves the focus out of a panel that
    /// no longer applies.
    pub fn update_workspaces_from_load(&mut self, workspaces: Vec<RepositoryWorkspace>)
        ensures
            workspaces_updated(*old(self), *final(self), workspaces),
    {
        let was_empty = self.workspaces.len() == 0;
        self.workspaces = workspaces;
        self.clamp_selection();
        if was_empty && self.workspaces.len() > 0 && self.focus == RepoPane::AddPath {
            self.focus = RepoPane::Catalog;
        } else if self.workspaces.len() == 0 && self.focus == RepoPane::ConfiguredPaths {
            self.focus = RepoPane::AddPath;
        }
    }

    /// Takes the local candidates found in the workspaces.
    pub fn update_candidates_from_load(&mut self, candidates: Vec<RepositoryCandidate>)
        requires
            old(self).wf(),
        ensures
            final(self).wf(),
            candidates_updated(*old(self), *final(self), candidates),
    {
        self.candidates = candidates;
        names_clear(&mut self.pending_link);
        self.clamp_selection();
    }

    /// Takes the local paths to inspect: they show as pending rows, with the
    /// cached candidates of those that have one.
    pub fn update_candidate_paths_from_load(&mut self, paths: Vec<RepositoryCandidatePath>)
        requires
            old(self).wf(),
        ensures
            final(self).wf(),
            candidate_paths_updated(*old(self), *final(self), paths),
    {
        let mut cands: Vec<RepositoryCandidate> = Vec::new();
        let mut i: usize = 0;
        assert(paths@.take(0) =~= Seq::<RepositoryCandidatePath>::empty());
        while i < paths.len()
            invariant
                i <= paths.len(),
                cands@ == cached_candidates(paths@.take(i as int)),
            decreases paths.len() - i,
        {
            proof {
                assert(paths@.take(i + 1).drop_last() =~= paths@.take(i as int));
            }
            match &paths[i].cached {
                Some(c) => cands.push(clone_candidate(c)),
                None => {},
            }
            i = i + 1;
        }
        assert(paths@.take(paths@.len() as int) =~= paths@);
        self.pending_candidate_paths = paths;
        self.candidates = cands;
        names_clear(&mut self.failed_candidate_paths);
        names_clear(&mut self.pending_link);
        self.clamp_selection();
    }

    /// Takes the result of inspecting one local path: it is no longer
    /// pending, and its candidate, if any, replaces that of the same path.
    pub fn update_candidate_inspection_from_load(&mut self, inspection: RepositoryCandidateInspection)
        requires
            old(self).wf(),
        ensures
            final(self).wf(),
            inspection_updated(*old(self), *final(self), inspection),
    {
        let pending = without_path(&self.pending_candidate_paths, inspection.path.as_str());
        let mut cands = candidates_not_at(&self.candidates, inspection.path.as_str());
        match inspection.candidate {
            Some(c) => cands.push(c),
            None => {},
        }
        self.pending_candidate_paths = pending;
        self.candidates = cands;
        self.clamp_selection();
    }

    /// Records that inspecting a local path failed: it shows as a failed row.
    pub fn mark_candidate_inspection_failed(&mut self, path: String)
        requires
            old(self).wf(),
        ensures
            final(self).wf(),
            inspection_failed(*old(self), *final(self), path@),
    {
        let pending = without_path(&self.pending_candidate_paths, path.as_str());
        self.pending_candidate_paths = pending;
        names_insert(&mut self.failed_candidate_paths, path.as_str());
        self.clamp_selection();
    }

    /// Shows a failure, logged.
    pub fn set_failed(&mut self, message: String)
        ensures
            *final(self) == (RepoPickerState {
                status: RepoStatus::Failed { message },
                logs: final(self).logs,
                ..*old(self)
            }),
            final(self).logs@ == logged(old(self).logs@, TraceEvent { kind: TraceKind::Error, message }),
    {
        let logged_message = clone_string(&message);
        self.status = RepoStatus::Failed { message };
        self.push_log(TraceKind::Error, logged_message);
    }

    /// Shows the progress of one repository operation, logged.
    pub fn start_step(&mut self, action: RepoOperation, current: usize, total: usize, repository: &str)
        ensures
            *final(self) == (RepoPickerState {
                status: final(self).status,
                activity_frame: 0,
                logs: final(self).logs,
                ..*old(self)
            }),
            final(self).status matches RepoStatus::Applying { action: a, current: c, total: t, repository: r }
                && a == action && c == current && t == total && r@ == repository@,
            final(self).logs@.len() > 0,
            final(self).logs@ == logged(old(self).logs@, final(self).logs@.last()),
            final(self).logs@.last().kind == TraceKind::Run,
            final(self).logs@.last().message@ == step_message(action, current, total, repository@),
    {
        self.status = RepoStatus::Applying { action, current, total, repository: owned(repository) };
        self.activity_frame = 0;
        let mut m = owned(operation_verb(action));
        push_char(&mut m, ' ');
        let c = decimal_string(current);
        push_str(&mut m, c.as_str());
        push_char(&mut m, '/');
        let t = decimal_string(total);
        push_str(&mut m, t.as_str());
        push_char(&mut m, ' ');
        push_str(&mut m, repository);
        proof {
            reveal_strlit(" ");
            reveal_strlit("/");
        }
        assert(m@ =~= step_message(action, current, total, repository@));
        self.push_log(TraceKind::Run, m);
    }

    /// Whether an operation is in progress.
    pub fn is_activity_active(&self) -> (r: bool)
        ensures
            r == (self.status is Loading || self.status is Applying),
    {
        match self.status {
            RepoStatus::Loading { .. } | RepoStatus::Applying { .. } => true,
            _ => false,
        }
    }

    /// Advances the activity animation while an operation is in progress.
    pub fn advance_activity_frame(&mut self)
        ensures
            (old(self).status is Loading || old(self).status is Applying) ==> *final(self) == (
            RepoPickerState {
                activity_frame: if old(self).activity_frame == usize::MAX {
                    0
                } else {
                    (old(self).activity_frame + 1) as usize
                },
                ..*old(self)
            }),
            !(old(self).status is Loading || old(self).status is Applying) ==> *final(self) == *old(
                self,
            ),
    {
        if self.is_activity_active() {
            self.activity_frame = if self.activity_frame == usize::MAX {
                0
            } else {
                self.activity_frame + 1
            };
        }
    }

    /// Whether a workspace must be configured before anything else.
    pub fn requires_workspace_setup(&self) -> (r: bool)
        ensures
            r == (self.workspaces@.len() == 0 && !(self.status is Loading)),
    {
        self.workspaces.len() == 0 && !(match self.status {
            RepoStatus::Loading { .. } => true,
            _ => false,
        })
    }

    /// The text typed into the workspace path input.
    pub fn workspace_input(&self) -> (r: &str)
        ensures
            r@ == self.workspace_input@,
    {
        self.workspace_input.as_str()
    }

    /// The path of the selected workspace, if any.
    pub fn selected_workspace_path(&self) -> (r: Option<String>)
        ensures
            r == self.selected_path(),
    {
        if self.selected_workspace < self.workspaces.len() {
            Some(clone_string(&self.workspaces[self.selected_workspace].path))
        } else {
            None
        }
    }

    /// Whether a repository counts as selected for the Work: pending to be
    /// added or attached, and not pending removal.
    pub fn is_selected(&self, name: &str) -> (r: bool)
        requires
            self.wf(),
        ensures
            r == self.selected_spec(name@),
    {
        if names_contain(&self.pending_remove, name) {
            return false;
        }
        names_contain(&self.pending_add, name) || attached_has(&self.attached, name)
    }

    /// Whether a local path is pending to be linked.
    pub fn is_local_candidate_selected(&self, path: &str) -> (r: bool)
        requires
            self.wf(),
        ensures
            r == name_set(self.pending_link@).contains(path@),
    {
        names_contain(&self.pending_link, path)
    }

    fn shift_focus(&mut self, delta: isize)
        ensures
            *final(self) == old(self).focus_shifted(delta as int),
    {
        let current: usize = match self.focus {
            RepoPane::Catalog => 0,
            RepoPane::AddPath => 1,
            RepoPane::ConfiguredPaths => 2,
        };
        let next = wrap_index(current, delta, 3);
        self.focus = if next == 0 {
            RepoPane::Catalog
        } else if next == 1 {
            RepoPane::AddPath
        } else {
            RepoPane::ConfiguredPaths
        };
    }

    /// Focuses the next panel.
    pub fn next_focus(&mut self)
        ensures
            *final(self) == old(self).focus_shifted(1),
    {
        self.shift_focus(1);
    }

    /// Focuses the previous panel.
    pub fn previous_focus(&mut self)
        ensures
            *final(self) == old(self).focus_shifted(-1),
    {
        self.shift_focus(-1);
    }

    fn current_selection(&self) -> (r: usize)
        ensures
            r as int == self.current_selection_of(),
    {
        match self.focus {
            RepoPane::Catalog => self.selected_catalog,
            RepoPane::AddPath => 0,
            RepoPane::ConfiguredPaths => self.selected_workspace,
        }
    }

    fn set_current_selection(&mut self, selected: usize)
        ensures
            *final(self) == old(self).with_current_selection(selected),
    {
        match self.focus {
            RepoPane::Catalog => self.selected_catalog = selected,
            RepoPane::AddPath => {},
            RepoPane::ConfiguredPaths => self.selected_workspace = selected,
        }
    }

    fn current_count(&self) -> (r: usize)
        ensures
            r as int == self.current_count_of(),
    {
        match self.focus {
            RepoPane::Catalog => self.catalog_rows().len(),
            RepoPane::AddPath => 0,
            RepoPane::ConfiguredPaths => self.workspaces.len(),
        }
    }

    /// Moves the focused panel's selection by `delta`, wrapping.
    pub fn move_selection(&mut self, delta: isize)
        ensures
            *final(self) == old(self).moved(delta as int),
    {
        let count = self.current_count();
        if count == 0 {
            self.set_current_selection(0);
            return;
        }
        let selected = wrap_index(self.current_selection(), delta, count);
        self.set_current_selection(selected);
    }

    fn remove_pending_links_for(&mut self, name: &str)
        requires
            old(self).wf(),
        ensures
            final(self).wf(),
            *final(self) == (RepoPickerState { pending_link: final(self).pending_link, ..*old(self) }),
            name_set(final(self).pending_link@) == name_set(old(self).pending_link@).difference(
                candidate_paths_named(old(self).candidates@, name@),
            ),
    {
        let mut i: usize = 0;
        let ghost start = name_set(self.pending_link@);
        while i < self.candidates.len()
            invariant
                i <= self.candidates@.len(),
                self.wf(),
                *self == (RepoPickerState { pending_link: self.pending_link, ..*old(self) }),
                start == name_set(old(self).pending_link@),
                name_set(self.pending_link@) == start.difference(
                    candidate_paths_named(old(self).candidates@.take(i as int), name@),
                ),
            decreases self.candidates@.len() - i,
        {
            let same = str_eq(self.candidates[i].name_with_owner.as_str(), name);
            let path = clone_string(&self.candidates[i].path);
            if same {
                names_remove(&mut self.pending_link, path.as_str());
            }
            i = i + 1;
            proof {
                let cs = old(self).candidates@;
                assert(name_set(self.pending_link@) =~= start.difference(
                    candidate_paths_named(cs.take(i as int), name@),
                )) by {
                    assert forall|p: Seq<char>|
                        #[trigger] candidate_paths_named(cs.take(i as int), name@).contains(p)
                            <==> candidate_paths_named(cs.take(i - 1), name@).contains(p) || (
                        same && p == cs[i - 1].path@) by {
                        if candidate_paths_named(cs.take(i - 1), name@).contains(p) {
                            let k = choose|k: int|
                                0 <= k < cs.take(i - 1).len() && #[trigger] cs.take(
                                    i - 1,
                                )[k].name_with_owner@ == name@ && cs.take(i - 1)[k].path@ == p;
                            assert(cs.take(i as int)[k] == cs.take(i - 1)[k]);
                        }
                        if same && p == cs[i - 1].path@ {
                            assert(cs.take(i as int)[i - 1] == cs[i - 1]);
                        }
                        if candidate_paths_named(cs.take(i as int), name@).contains(p) {
                            let k = choose|k: int|
                                0 <= k < cs.take(i as int).len() && #[trigger] cs.take(
                                    i as int,
                                )[k].name_with_owner@ == name@ && cs.take(i as int)[k].path@ == p;
                            if k < i - 1 {
                                assert(cs.take(i - 1)[k] == cs.take(i as int)[k]);
                            }
                        }
                    }
                }
            }
        }
        proof {
            assert(old(self).candidates@.take(i as int) =~= old(self).candidates@);
        }
    }

    fn toggle_repository_selection(&mut self, name: &str)
        requires
            old(self).wf(),
        ensures
            final(self).wf(),
            same_except_pending(*old(self), *final(self)),
            repository_toggled(*old(self), *final(self), name@),
    {
        if names_remove(&mut self.pending_add, name) {
            return;
        }
        assert(name_set(self.pending_add@) =~= name_set(old(self).pending_add@));
        if attached_has(&self.attached, name) || names_contain(&self.pending_remove, name) {
            let ghost before = name_set(self.pending_remove@);
            if !names_insert(&mut self.pending_remove, name) {
                assert(name_set(self.pending_remove@) =~= before);
                names_remove(&mut self.pending_remove, name);
                if self.pending_remove.len() == 0 {
                    self.force_remove = false;
                }
            }
            return;
        }
        self.remove_pending_links_for(name);
        names_insert(&mut self.pending_add, name);
    }

    fn toggle_candidate_selection(&mut self, candidate: &RepositoryCandidate)
        requires
            old(self).wf(),
        ensures
            final(self).wf(),
            same_except_pending(*old(self), *final(self)),
            candidate_toggled(*old(self), *final(self), *candidate),
    {
        if attached_has(&self.attached, candidate.name_with_owner.as_str()) {
            self.toggle_repository_selection(candidate.name_with_owner.as_str());
            return;
        }
        names_remove(&mut self.pending_add, candidate.name_with_owner.as_str());
        self.remove_pending_links_for(candidate.name_with_owner.as_str());
        let ghost link = name_set(self.pending_link@);
        if !names_insert(&mut self.pending_link, candidate.path.as_str()) {
            assert(name_set(self.pending_link@) =~= link);
            names_remove(&mut self.pending_link, candidate.path.as_str());
        }
    }

    /// Toggles the catalog row under the selection.
    pub fn toggle_focused_repository(&mut self)
        requires
            old(self).wf(),
        ensures
            final(self).wf(),
            focused_toggled(*old(self), *final(self)),
    {
        match self.focus {
            RepoPane::Catalog => {
                let rows = self.catalog_rows();
                if self.selected_catalog >= rows.len() {
                    return;
                }
                match &rows[self.selected_catalog] {
                    RepoCatalogRow::GitHub(repository) => {
                        self.toggle_repository_selection(repository.name_with_owner.as_str())
                    },
                    RepoCatalogRow::Local(candidate) => self.toggle_candidate_selection(candidate),
                    RepoCatalogRow::PendingLocal { .. } => {},
                    RepoCatalogRow::Attached(repository) => {
                        self.toggle_repository_selection(repository.name_with_owner.as_str())
                    },
                }
            },
            RepoPane::AddPath | RepoPane::ConfiguredPaths => {},
        }
        self.clamp_selection();
    }

    /// Arms or disarms force removal of the pending removals.
    pub fn toggle_force_remove(&mut self) -> (r: RepoPickerAction)
        ensures
            force_step(*old(self), *final(self), r),
    {
        if self.pending_remove.len() == 0 {
            return RepoPickerAction::Notify(
                Toast::error(
                    "No removals selected",
                    "Select attached repositories before arming force.",
                ),
            );
        }
        self.force_remove = !self.force_remove;
        if self.force_remove {
            self.push_log(TraceKind::Warn, owned("force remove armed"));
        } else {
            self.push_log(TraceKind::Run, owned("force remove disarmed"));
        }
        RepoPickerAction::Nothing
    }

    /// What Enter in the catalog asks for: nothing, a notice, or the pending
    /// changes to apply.
    pub fn apply_action(&self) -> (r: RepoPickerAction)
        ensures
            apply_result(*self, r),
    {
        if self.pending_add.len() == 0 && self.pending_link.len() == 0 && self.pending_remove.len()
            == 0 {
            return RepoPickerAction::Nothing;
        }
        if self.pending_add.len() > 0 && self.workspaces.len() == 0 {
            return RepoPickerAction::Notify(
                Toast::error("No repo workspace", "Type a repo workspace path, then press enter."),
            );
        }
        RepoPickerAction::Apply {
            work_slug: clone_string(&self.work_slug),
            add: clone_strings(&self.pending_add),
            link: clone_strings(&self.pending_link),
            remove: clone_strings(&self.pending_remove),
            force_remove: self.force_remove && self.pending_remove.len() > 0,
            workspace: if self.pending_add.len() == 0 {
                None
            } else {
                self.selected_workspace_path()
            },
        }
    }

    /// Adds the typed workspace paths.
    pub fn add_workspace_action(&mut self) -> (r: RepoPickerAction)
        ensures
            add_workspace_step(*old(self), *final(self), r),
    {
        let paths = parse_paths(self.workspace_input.as_str());
        if paths.len() == 0 {
            return RepoPickerAction::Nothing;
        }
        self.workspace_input = String::new();
        self.start_loading(owned("Adding repository workspace"));
        RepoPickerAction::AddWorkspaces { work_slug: clone_string(&self.work_slug), paths }
    }

    /// Removes the selected workspace.
    pub fn remove_workspace_action(&mut self) -> (r: RepoPickerAction)
        ensures
            remove_workspace_step(*old(self), *final(self), r),
    {
        if self.selected_workspace < self.workspaces.len() {
            let path = clone_string(&self.workspaces[self.selected_workspace].path);
            self.start_loading(owned("Removing repository workspace"));
            RepoPickerAction::RemoveWorkspace { work_slug: clone_string(&self.work_slug), path }
        } else {
            RepoPickerAction::Nothing
        }
    }

    fn handle_space(&mut self) -> (r: RepoPickerAction)
        requires
            old(self).wf(),
        ensures
            final(self).wf(),
            space_step(*old(self), *final(self), r),
    {
        match self.focus {
            RepoPane::Catalog => {
                self.toggle_focused_repository();
                RepoPickerAction::Nothing
            },
            RepoPane::AddPath => {
                push_char(&mut self.workspace_input, ' ');
                RepoPickerAction::Nothing
            },
            RepoPane::ConfiguredPaths => self.remove_workspace_action(),
        }
    }

    fn handle_enter(&mut self) -> (r: RepoPickerAction)
        requires
            old(self).wf(),
        ensures
            final(self).wf(),
            enter_step(*old(self), *final(self), r),
    {
        match self.focus {
            RepoPane::Catalog => self.apply_action(),
            RepoPane::AddPath => self.add_workspace_action(),
            RepoPane::ConfiguredPaths => self.remove_workspace_action(),
        }
    }

    fn handle_character(&mut self, c: char)
        ensures
            character_step(*old(self), *final(self), c),
    {
        match self.focus {
            RepoPane::Catalog => {
                push_char(&mut self.filter, c);
                self.selected_catalog = 0;
            },
            RepoPane::AddPath => push_char(&mut self.workspace_input, c),
            RepoPane::ConfiguredPaths => {},
        }
    }

    /// Handles a key in the repository view.
    pub fn handle_key(&mut self, key: Key) -> (r: RepoPickerAction)
        requires
            old(self).wf(),
        ensures
            final(self).wf(),
            picker_key_step(*old(self), *final(self), key, r),
    {
        match key.code {
            KeyCode::Esc => {
                self.clear_pending_changes();
                self.filter = String::new();
                RepoPickerAction::Back
            },
            KeyCode::Tab | KeyCode::Right => {
                self.next_focus();
                RepoPickerAction::Nothing
            },
            KeyCode::BackTab | KeyCode::Left => {
                self.previous_focus();
                RepoPickerAction::Nothing
            },
            KeyCode::Down => {
                self.move_selection(1);
                RepoPickerAction::Nothing
            },
            KeyCode::Up => {
                self.move_selection(-1);
                RepoPickerAction::Nothing
            },
            KeyCode::Backspace => {
                if self.focus == RepoPane::AddPath {
                    pop_char(&mut self.workspace_input);
                } else if chars_of(self.filter.as_str()).len() > 0 {
                    pop_char(&mut self.filter);
                    self.selected_catalog = 0;
                }
                RepoPickerAction::Nothing
            },
            KeyCode::Enter => self.handle_enter(),
            KeyCode::Char(c) => {
                if !is_plain_character(&key) {
                    RepoPickerAction::Nothing
                } else if self.focus == RepoPane::AddPath {
                    push_char(&mut self.workspace_input, c);
                    RepoPickerAction::Nothing
                } else if c == '+' {
                    self.focus = RepoPane::AddPath;
                    RepoPickerAction::Nothing
                } else if c == ' ' {
                    self.handle_space()
                } else if c == '!' && self.focus == RepoPane::Catalog {
                    self.toggle_force_remove()
                } else {
                    self.handle_character(c);
                    RepoPickerAction::Nothing
                }
            },
            _ => RepoPickerAction::Nothing,
        }
    }
}

impl Default for RepoPickerState {
    /// An empty repository context.
    fn default() -> (s: Self)
        ensures
            s.wf(),
            s.is_fresh(),
    {
        RepoPickerState::new()
    }
}

/// `b` is `a` opened on the context of another Work while its sources
/// load: the sources are emptied, nothing is pending, the catalog has the
/// focus and the log holds only the start of loading.
pub open spec fn loading_entered(
    a: RepoPickerState,
    b: RepoPickerState,
    work_slug: String,
    work_title: String,
    attached: Vec<AttachedRepository>,
) -> bool {
    &&& b == RepoPickerState {
        focus: RepoPane::Catalog,
        work_slug,
        work_title,
        available: b.available,
        candidates: b.candidates,
        attached,
        workspaces: b.workspaces,
        selected_workspace: 0,
        selected_catalog: 0,
        workspace_input: b.workspace_input,
        filter: b.filter,
        pending_add: b.pending_add,
        pending_link: b.pending_link,
        pending_remove: b.pending_remove,
        force_remove: false,
        status: b.status,
        logs: b.logs,
        activity_frame: 0,
        ..a
    }
    &&& b.available@.len() == 0
    &&& b.candidates@.len() == 0
    &&& b.workspaces@.len() == 0
    &&& b.workspace_input@.len() == 0
    &&& b.filter@.len() == 0
    &&& b.nothing_pending()
    &&& b.status is Loading
    &&& (b.status->Loading_message)@ == "Loading: attached, workspaces, local, GitHub"@
    &&& b.logs@.len() == 1
    &&& b.logs@[0].kind == TraceKind::Run
    &&& b.logs@[0].message@ == "repository context load started"@
}

/// `b` is `a` with the loading message replaced, when loading.
pub open spec fn loading_message_updated(a: RepoPickerState, b: RepoPickerState, message: String) -> bool {
    if a.status is Loading {
        b == RepoPickerState { status: RepoStatus::Loading { message }, ..a }
    } else {
        b == a
    }
}

/// `b` is `a` with loading ended.
pub open spec fn loading_finished(a: RepoPickerState, b: RepoPickerState) -> bool {
    if a.status is Loading {
        b == RepoPickerState { status: RepoStatus::Ready, ..a }
    } else {
        b == a
    }
}

/// `b` is `a` with the workspaces replaced and the focus moved out of a
/// panel that no longer applies.
pub open spec fn workspaces_updated(a: RepoPickerState, b: RepoPickerState, workspaces: Vec<RepositoryWorkspace>) -> bool {
    let c = (RepoPickerState { workspaces, ..a }).clamped_state();
    b == if a.workspaces@.len() == 0 && workspaces@.len() > 0 && a.focus == RepoPane::AddPath {
        RepoPickerState { focus: RepoPane::Catalog, ..c }
    } else if workspaces@.len() == 0 && a.focus == RepoPane::ConfiguredPaths {
        RepoPickerState { focus: RepoPane::AddPath, ..c }
    } else {
        c
    }
}

/// `b` is `a` with the local candidates replaced and no link pending.
pub open spec fn candidates_updated(a: RepoPickerState, b: RepoPickerState, candidates: Vec<RepositoryCandidate>) -> bool {
    &&& b.pending_link@.len() == 0
    &&& b == (RepoPickerState { candidates, pending_link: b.pending_link, ..a }).clamped_state()
}

/// `b` is `a` with the local paths to inspect replaced: their cached
/// candidates shown, no failure and no link pending.
pub open spec fn candidate_paths_updated(a: RepoPickerState, b: RepoPickerState, paths: Vec<RepositoryCandidatePath>) -> bool {
    &&& b.pending_link@.len() == 0
    &&& b.failed_candidate_paths@.len() == 0
    &&& b.candidates@ == cached_candidates(paths@)
    &&& b == (RepoPickerState {
        pending_candidate_paths: paths,
        candidates: b.candidates,
        failed_candidate_paths: b.failed_candidate_paths,
        pending_link: b.pending_link,
        ..a
    }).clamped_state()
}

/// `b` is `a` with one inspection result taken: the path no longer
/// pending, and its candidate, if any, replacing that of the same path.
pub open spec fn inspection_updated(a: RepoPickerState, b: RepoPickerState, inspection: RepositoryCandidateInspection) -> bool {
    &&& b.pending_candidate_paths@ == paths_without(a.pending_candidate_paths@, inspection.path@)
    &&& b.candidates@ == match inspection.candidate {
        Some(c) => candidates_without(a.candidates@, inspection.path@).push(c),
        None => candidates_without(a.candidates@, inspection.path@),
    }
    &&& b == (RepoPickerState {
        pending_candidate_paths: b.pending_candidate_paths,
        candidates: b.candidates,
        ..a
    }).clamped_state()
}

/// `b` is `a` with the inspection of `path` failed: no longer pending,
/// shown as failed.
pub open spec fn inspection_failed(a: RepoPickerState, b: RepoPickerState, path: Seq<char>) -> bool {
    &&& b.pending_candidate_paths@ == paths_without(a.pending_candidate_paths@, path)
    &&& name_set(b.failed_candidate_paths@) == name_set(a.failed_candidate_paths@).insert(path)
    &&& b == (RepoPickerState {
        pending_candidate_paths: b.pending_candidate_paths,
        failed_candidate_paths: b.failed_candidate_paths,
        ..a
    }).clamped_state()
}

/// The cached candidates of the paths that have one, in order.
pub open spec fn cached_candidates(ps: Seq<RepositoryCandidatePath>) -> Seq<RepositoryCandidate>
    decreases ps.len(),
{
    if ps.len() == 0 {
        Seq::empty()
    } else {
        match ps.last().cached {
            Some(c) => cached_candidates(ps.drop_last()).push(c),
            None => cached_candidates(ps.drop_last()),
        }
    }
}

/// The candidate paths other than `path`.
pub open spec fn paths_without(ps: Seq<RepositoryCandidatePath>, path: Seq<char>) -> Seq<RepositoryCandidatePath>
    decreases ps.len(),
{
    if ps.len() == 0 {
        Seq::empty()
    } else if ps.last().path@ == path {
        paths_without(ps.drop_last(), path)
    } else {
        paths_without(ps.drop_last(), path).push(ps.last())
    }
}

/// The candidates at paths other than `path`.
pub open spec fn candidates_without(cs: Seq<RepositoryCandidate>, path: Seq<char>) -> Seq<RepositoryCandidate>
    decreases cs.len(),
{
    if cs.len() == 0 {
        Seq::empty()
    } else if cs.last().path@ == path {
        candidates_without(cs.drop_last(), path)
    } else {
        candidates_without(cs.drop_last(), path).push(cs.last())
    }
}

fn without_path(ps: &Vec<RepositoryCandidatePath>, path: &str) -> (r: Vec<RepositoryCandidatePath>)
    ensures
        r@ == paths_without(ps@, path@),
{
    let mut out: Vec<RepositoryCandidatePath> = Vec::new();
    let mut i: usize = 0;
    assert(ps@.take(0) =~= Seq::<RepositoryCandidatePath>::empty());
    while i < ps.len()
        invariant
            i <= ps.len(),
            out@ == paths_without(ps@.take(i as int), path@),
        decreases ps.len() - i,
    {
        proof {
            assert(ps@.take(i + 1).drop_last() =~= ps@.take(i as int));
        }
        if !str_eq(ps[i].path.as_str(), path) {
            out.push(RepositoryCandidatePath {
                path: clone_string(&ps[i].path),
                cached: match &ps[i].cached {
                    Some(c) => Some(clone_candidate(c)),
                    None => None,
                },
            });
        }
        i = i + 1;
    }
    assert(ps@.take(ps@.len() as int) =~= ps@);
    out
}

fn candidates_not_at(cs: &Vec<RepositoryCandidate>, path: &str) -> (r: Vec<RepositoryCandidate>)
    ensures
        r@ == candidates_without(cs@, path@),
{
    let mut out: Vec<RepositoryCandidate> = Vec::new();
    let mut i: usize = 0;
    assert(cs@.take(0) =~= Seq::<RepositoryCandidate>::empty());
    while i < cs.len()
        invariant
            i <= cs.len(),
            out@ == candidates_without(cs@.take(i as int), path@),
        decreases cs.len() - i,
    {
        proof {
            assert(cs@.take(i + 1).drop_last() =~= cs@.take(i as int));
        }
        if !str_eq(cs[i].path.as_str(), path) {
            out.push(clone_candidate(&cs[i]));
        }
        i = i + 1;
    }
    assert(cs@.take(cs@.len() as int) =~= cs@);
    out
}


/// The pending changes agree with the attached repositories: nothing
/// attached is pending addition, only attached repositories are pending
/// removal, and a forced removal has something to remove.
pub open spec fn pending_consistent(s: RepoPickerState) -> bool {
    &&& forall|n: Seq<char>| #[trigger] name_set(s.pending_add@).contains(n) ==> !attached_names(
        s.attached@,
    ).contains(n)
    &&& forall|n: Seq<char>| #[trigger] name_set(s.pending_remove@).contains(n) ==> attached_names(
        s.attached@,
    ).contains(n)
    &&& s.force_remove ==> s.pending_remove@.len() > 0
}

/// A name set that holds something comes from a non-empty sequence.
proof fn lemma_name_set_nonempty(v: Seq<String>, n: Seq<char>)
    requires
        name_set(v).contains(n),
    ensures
        v.len() > 0,
{
    if v.len() == 0 {
        assert(texts(v) =~= Seq::<Seq<char>>::empty());
    }
}

/// A non-empty sequence of names gives a name set that holds its first.
proof fn lemma_name_set_first(v: Seq<String>)
    requires
        v.len() > 0,
    ensures
        name_set(v).contains(v[0]@),
{
    assert(texts(v)[0] == v[0]@);
}

/// One toggle keeps the pending changes consistent with the attached
/// repositories.
proof fn lemma_toggle_keeps_consistency(a: RepoPickerState, b: RepoPickerState, name: Seq<char>)
    requires
        pending_consistent(a),
        same_except_pending(a, b),
        repository_toggled(a, b, name),
    ensures
        pending_consistent(b),
{
    let add = name_set(a.pending_add@);
    let remove = name_set(a.pending_remove@);
    let attached = attached_names(a.attached@);
    assert(b.attached == a.attached);
    if a.force_remove {
        lemma_name_set_first(a.pending_remove@);
    }
    if add.contains(name) {
        assert forall|n: Seq<char>| #[trigger] name_set(b.pending_add@).contains(n) implies !attached.contains(n) by {
            assert(add.contains(n));
        }
        if b.force_remove {
            lemma_name_set_nonempty(b.pending_remove@, a.pending_remove@[0]@);
        }
    } else if attached.contains(name) || remove.contains(name) {
        assert forall|n: Seq<char>| #[trigger] name_set(b.pending_remove@).contains(n) implies attached.contains(n) by {
            if n != name {
                assert(remove.contains(n));
            }
        }
        if b.force_remove && !remove.contains(name) {
            lemma_name_set_nonempty(b.pending_remove@, name);
        }
    } else {
        assert forall|n: Seq<char>| #[trigger] name_set(b.pending_add@).contains(n) implies !attached.contains(n) by {
            if n != name {
                assert(add.contains(n));
            }
        }
        if b.force_remove {
            lemma_name_set_nonempty(b.pending_remove@, a.pending_remove@[0]@);
        }
    }
}

/// Toggling a repository keeps the pending changes consistent with the
/// attached repositories and flips whether it counts as selected; toggling
/// it again restores the pending additions and removals, drops no local
/// link that was not pending before, and forces a removal only if one was
/// forced before.
pub proof fn law_toggling_twice_restores_pending_changes(
    a: RepoPickerState,
    b: RepoPickerState,
    c: RepoPickerState,
    name: Seq<char>,
)
    requires
        pending_consistent(a),
        same_except_pending(a, b),
        repository_toggled(a, b, name),
        same_except_pending(b, c),
        repository_toggled(b, c, name),
    ensures
        pending_consistent(b),
        pending_consistent(c),
        b.selected_spec(name) == !a.selected_spec(name),
        name_set(c.pending_add@) == name_set(a.pending_add@),
        name_set(c.pending_remove@) == name_set(a.pending_remove@),
        name_set(c.pending_link@).subset_of(name_set(a.pending_link@)),
        c.force_remove ==> a.force_remove,
{
    lemma_toggle_keeps_consistency(a, b, name);
    lemma_toggle_keeps_consistency(b, c, name);
    let add = name_set(a.pending_add@);
    let remove = name_set(a.pending_remove@);
    let attached = attached_names(a.attached@);
    if add.contains(name) {
        assert(!remove.contains(name));
        assert(add.remove(name).insert(name) =~= add);
    } else if attached.contains(name) || remove.contains(name) {
        assert(attached.contains(name));
        if remove.contains(name) {
            assert(remove.remove(name).insert(name) =~= remove);
        } else {
            assert(remove.insert(name).remove(name) =~= remove);
            lemma_name_set_nonempty(b.pending_remove@, name);
        }
    } else {
        assert(add.insert(name).remove(name) =~= add);
    }
}

} // verus!
