use vstd::prelude::*;

use crate::events::{ToastKind, TraceKind};
use crate::domain::WorkSummary;
use crate::paths::{opt_text_of, parent_path, path_file_name, path_last_name, path_parent};
use crate::storage::{join_path, path_join};
use crate::repo_picker::{RepoPickerState, RepoStatus};
use crate::repo_rows::{compact_path, compact_text, opt_view};
use crate::text::{
    chars_of, concat2, concat3, decimal, decimal_string, join, owned, push_str,
    texts,
};
use crate::tui_state::{TuiMode, TuiState};

verus! {

/// The name of a mode in the status line.
pub open spec fn mode_text(mode: TuiMode) -> Seq<char> {
    match mode {
        TuiMode::List => "LIST"@,
        TuiMode::Search => "FILTER"@,
        TuiMode::Leader => "COMMAND"@,
        TuiMode::Create => "CREATE"@,
        TuiMode::Archive => "ARCHIVE"@,
        TuiMode::Intents => "INTENT"@,
        TuiMode::Repos => "REPOS"@,
        TuiMode::Help => "HELP"@,
    }
}

/// The name of a mode in the status line.
pub fn mode_label(mode: TuiMode) -> (r: &'static str)
    ensures
        r@ == mode_text(mode),
{
    match mode {
        TuiMode::List => "LIST",
        TuiMode::Search => "FILTER",
        TuiMode::Leader => "COMMAND",
        TuiMode::Create => "CREATE",
        TuiMode::Archive => "ARCHIVE",
        TuiMode::Intents => "INTENT",
        TuiMode::Repos => "REPOS",
        TuiMode::Help => "HELP",
    }
}

/// How many Works the filter matches, as the queue title says it.
pub open spec fn match_count_text(count: usize) -> Seq<char> {
    if count == 1 {
        "1 match"@
    } else {
        decimal(count as nat) + " matches"@
    }
}

/// How many repositories a Work has attached, as its detail says it.
pub open spec fn attached_count_text(count: usize) -> Seq<char> {
    if count == 1 {
        "1 attached"@
    } else {
        decimal(count as nat) + " attached"@
    }
}

/// How many Works the filter matches.
pub fn match_count_label(count: usize) -> (r: String)
    ensures
        r@ == match_count_text(count),
{
    if count == 1 {
        owned("1 match")
    } else {
        let n = decimal_string(count);
        concat2(n.as_str(), " matches")
    }
}

/// How many repositories a Work has attached.
pub fn attached_repository_count_label(count: usize) -> (r: String)
    ensures
        r@ == attached_count_text(count),
{
    if count == 1 {
        owned("1 attached")
    } else {
        let n = decimal_string(count);
        concat2(n.as_str(), " attached")
    }
}

/// Where a Work's folder is shown, given the last component of its path:
/// `work/` and that name, or the path itself when it has none.
pub open spec fn folder_label_text(path: Seq<char>, name: Option<Seq<char>>) -> Seq<char> {
    match name {
        Some(n) => "work/"@ + n,
        None => path,
    }
}

/// Where a Work's folder is shown: `work/` and the last component of its
/// path, as std's `Path::file_name` gives it.
pub open spec fn work_folder_text(path: Seq<char>) -> Seq<char> {
    folder_label_text(path, path_file_name(path))
}

/// Where a Work's folder is shown, given the last component of its path.
pub fn work_folder_from(path: &str, name: Option<String>) -> (r: String)
    ensures
        r@ == folder_label_text(path@, opt_text_of(name)),
{
    match name {
        Some(n) => concat2("work/", n.as_str()),
        None => owned(path),
    }
}

/// Where a Work's folder is shown.
pub fn work_folder_label(path: &str) -> (r: String)
    ensures
        r@ == work_folder_text(path@),
{
    work_folder_from(path, path_last_name(path))
}

/// Where a Work is archived, given the Workon folder that holds its Work
/// folder if there is one: `archive` and its slug in that folder, else in
/// `.workon/archive`.
pub open spec fn archive_text(slug: Seq<char>, workon_root: Option<Seq<char>>) -> Seq<char> {
    match workon_root {
        Some(root) => path_join(path_join(root, "archive"@), slug),
        None => path_join(".workon/archive"@, slug),
    }
}

/// Where a Work is archived: `archive` and its slug beside the folder that
/// holds its Work folder, that folder taken twice by std's `Path::parent`.
pub open spec fn archive_path_text(path: Seq<char>, slug: Seq<char>) -> Seq<char> {
    archive_text(
        slug,
        match path_parent(path) {
            Some(work_root) => path_parent(work_root),
            None => None,
        },
    )
}

/// Where a Work is archived, given the Workon folder that holds its Work
/// folder if there is one.
pub fn archive_path_from(slug: &str, workon_root: Option<String>) -> (r: String)
    ensures
        r@ == archive_text(slug@, opt_text_of(workon_root)),
{
    match workon_root {
        Some(root) => {
            let archive = join_path(root.as_str(), "archive");
            proof {
                reveal_strlit("archive");
            }
            join_path(archive.as_str(), slug)
        },
        None => {
            proof {
                reveal_strlit(".workon/archive");
            }
            join_path(".workon/archive", slug)
        },
    }
}

/// Where a Work is archived.
pub fn archive_path_for(work: &WorkSummary) -> (r: String)
    ensures
        r@ == archive_path_text(work.path@, work.slug@),
{
    let workon_root = match parent_path(work.path.as_str()) {
        Some(work_root) => parent_path(work_root.as_str()),
        None => None,
    };
    archive_path_from(work.slug.as_str(), workon_root)
}

/// The first row to show so that the selected row is visible.
pub open spec fn scroll_offset(selected: usize, total: usize, visible_rows: usize) -> usize {
    if total == 0 || visible_rows == 0 || selected < visible_rows {
        0
    } else {
        (selected + 1 - visible_rows) as usize
    }
}

/// The first row to show so that the selected row is visible.
pub fn scroll_start(selected: usize, total: usize, visible_rows: usize) -> (r: usize)
    ensures
        r == scroll_offset(selected, total, visible_rows),
        visible_rows > 0 && total > 0 ==> r <= selected && selected < r + visible_rows,
{
    if total == 0 || visible_rows == 0 || selected < visible_rows {
        return 0;
    }
    selected - visible_rows + 1
}

/// The chosen intent of the create form, with its place in the list.
pub fn selected_intent_label(state: &TuiState, intent: &str) -> (r: String)
    requires
        state.create_intent < usize::MAX,
    ensures
        r@ == decimal((state.create_intent + 1) as nat) + "/"@ + decimal(state.intents@.len())
            + " "@ + intent@,
{
    let place = decimal_string(state.create_intent + 1);
    let total = decimal_string(state.intents.len());
    let mut r = concat3(place.as_str(), "/", total.as_str());
    push_str(&mut r, " ");
    push_str(&mut r, intent);
    proof {
        reveal_strlit("/");
        reveal_strlit(" ");
    }
    r
}

/// The ids of the offered intents joined by ` | `, or the default intent
/// when none is offered.
pub open spec fn intent_list_text(intents: Seq<(String, String)>) -> Seq<char> {
    if intents.len() == 0 {
        "investigate"@
    } else {
        join(intents.map_values(|e: (String, String)| e.0@), " | "@)
    }
}

/// The ids of the offered intents.
pub fn intent_catalog_label(intents: &Vec<(String, String)>) -> (r: String)
    ensures
        r@ == intent_list_text(intents@),
{
    if intents.len() == 0 {
        return owned("investigate");
    }
    let mut ids: Vec<String> = Vec::new();
    let mut i: usize = 0;
    while i < intents.len()
        invariant
            i <= intents@.len(),
            texts(ids@) == intents@.take(i as int).map_values(|e: (String, String)| e.0@),
        decreases intents@.len() - i,
    {
        let id = crate::text::clone_string(&intents[i].0);
        proof {
            crate::seqs::lemma_texts_push(ids@, id);
            assert(intents@.take(i + 1).map_values(|e: (String, String)| e.0@) =~= intents@.take(
                i as int,
            ).map_values(|e: (String, String)| e.0@).push(id@));
        }
        ids.push(id);
        i = i + 1;
    }
    assert(intents@.take(intents@.len() as int) =~= intents@);
    crate::text::join_strings(ids.as_slice(), " | ")
}

/// The text of the workspace input, or a hint while it is empty.
pub fn workspace_input_label(repo: &RepoPickerState) -> (r: String)
    ensures
        r@ == if repo.workspace_input@.len() == 0 {
            "<type folder path>"@
        } else {
            repo.workspace_input@
        },
{
    if chars_of(repo.workspace_input.as_str()).len() == 0 {
        owned("<type folder path>")
    } else {
        owned(repo.workspace_input.as_str())
    }
}

/// The badge of a trace line.
pub fn trace_badge_label(kind: TraceKind) -> (r: &'static str)
    ensures
        r@ == match kind {
            TraceKind::Run => "RUN"@,
            TraceKind::Sync => "SYNC"@,
            TraceKind::Signal => "SIGNAL"@,
            TraceKind::Warn => "WARN"@,
            TraceKind::Error => "ERR"@,
        },
{
    match kind {
        TraceKind::Run => "RUN",
        TraceKind::Sync => "SYNC",
        TraceKind::Signal => "SIGNAL",
        TraceKind::Warn => "WARN",
        TraceKind::Error => "ERR",
    }
}

/// The badge of a toast.
pub fn toast_badge_label(kind: ToastKind) -> (r: &'static str)
    ensures
        r@ == match kind {
            ToastKind::Info => "OK"@,
            ToastKind::Error => "ERR"@,
        },
{
    match kind {
        ToastKind::Info => "OK",
        ToastKind::Error => "ERR",
    }
}

/// The anchor of a Work row: `@` for the current Work, `>>` for the
/// selected one.
pub fn row_anchor(current: bool, selected: bool) -> (r: &'static str)
    ensures
        r@ == if current {
            "@"@
        } else if selected {
            ">>"@
        } else {
            "  "@
        },
{
    if current {
        "@"
    } else if selected {
        ">>"
    } else {
        "  "
    }
}

/// The title of the Work queue: how many Works there are, and the filter
/// with its match count while one is typed.
pub fn work_queue_title(state: &TuiState) -> (r: (usize, Option<(String, String)>))
    ensures
        r.0 == state.works@.len(),
        state.filter@.len() == 0 ==> r.1 is None,
        state.filter@.len() > 0 ==> (r.1 matches Some((f, c)) && f@ == state.filter@ && c@
            == match_count_text(state.indices().len() as usize)),
{
    let total = state.total_count();
    if chars_of(state.filter.as_str()).len() == 0 {
        (total, None)
    } else {
        let count = match_count_label(state.filtered_count());
        (total, Some((owned(state.filter.as_str()), count)))
    }
}

/// What the repository catalog says above its rows: a badge, if any, and
/// a sentence, by priority: loading, workspace setup required, GitHub
/// unavailable, forced removal armed, nothing to show, filter, or where
/// worktrees go.
pub open spec fn catalog_notice(repo: RepoPickerState, rows_empty: bool, home: Option<Seq<char>>) -> (Option<Seq<char>>, Seq<char>) {
    if repo.status is Loading {
        (None, "Repository sources are loading."@)
    } else if repo.workspaces@.len() == 0 {
        (Some("REQUIRED"@), "Add a repo workspace path before creating remote repo worktrees."@)
    } else if repo.status is Failed {
        (None, "GitHub is unavailable; local and attached repos remain usable."@)
    } else if repo.force_remove && repo.pending_remove@.len() > 0 {
        (Some("FORCE"@), "Force removal is armed for marked attached repositories."@)
    } else if rows_empty {
        if repo.filter@.len() == 0 {
            (None, "No repositories are available from configured sources."@)
        } else {
            (None, "No repositories match `"@ + repo.filter@ + "`."@)
        }
    } else if repo.filter@.len() > 0 {
        (None, "Showing repositories matching `"@ + repo.filter@ + "`."@)
    } else {
        match repo.selected_path() {
            Some(p) => (None, "Remote repo worktrees in "@ + compact_text(p@, home) + "; local links in place."@),
            None => (None, "Select remote repos for worktrees or local repos to link."@),
        }
    }
}

/// What the repository catalog says above its rows.
pub fn repo_catalog_context_line(repo: &RepoPickerState, rows_empty: bool, home: Option<&str>) -> (r: (Option<&'static str>, String))
    ensures
        ({
            let (badge, text) = catalog_notice(*repo, rows_empty, opt_view(home));
            &&& text == r.1@
            &&& match badge {
                Some(b) => r.0 matches Some(x) && x@ == b,
                None => r.0 is None,
            }
        }),
{
    match repo.status {
        RepoStatus::Loading { .. } => {
            return (None, owned("Repository sources are loading."));
        },
        _ => {},
    }
    if repo.workspaces.len() == 0 {
        return (Some("REQUIRED"), owned("Add a repo workspace path before creating remote repo worktrees."));
    }
    match repo.status {
        RepoStatus::Failed { .. } => {
            return (None, owned("GitHub is unavailable; local and attached repos remain usable."));
        },
        _ => {},
    }
    if repo.force_remove && repo.pending_remove.len() > 0 {
        return (Some("FORCE"), owned("Force removal is armed for marked attached repositories."));
    }
    let filtered = chars_of(repo.filter.as_str()).len() > 0;
    if rows_empty {
        if !filtered {
            return (None, owned("No repositories are available from configured sources."));
        }
        return (None, concat3("No repositories match `", repo.filter.as_str(), "`."));
    }
    if filtered {
        return (None, concat3("Showing repositories matching `", repo.filter.as_str(), "`."));
    }
    if repo.selected_workspace < repo.workspaces.len() {
        let shown = compact_path(repo.workspaces[repo.selected_workspace].path.as_str(), home);
        (None, concat3("Remote repo worktrees in ", shown.as_str(), "; local links in place."))
    } else {
        (None, owned("Select remote repos for worktrees or local repos to link."))
    }
}


/// What the detail of a Work says of its repositories: `loading` while the
/// index loads and none is known, `none` without any, else how many.
pub fn repository_summary_label(count: usize, loading: bool) -> (r: String)
    ensures
        r@ == if count == 0 && loading {
            "loading"@
        } else if count == 0 {
            "none"@
        } else {
            attached_count_text(count)
        },
{
    if count == 0 && loading {
        owned("loading")
    } else if count == 0 {
        owned("none")
    } else {
        attached_repository_count_label(count)
    }
}

/// What the create form says of the chosen intent: its place and id, the
/// ids offered, and its summary; the default intent when none is offered.
pub fn create_intent_lines(state: &TuiState) -> (r: (String, String, Option<String>))
    requires
        state.create_intent < usize::MAX,
    ensures
        state.create_intent < state.intents@.len() ==> ({
            let (id, summary) = state.intents@[state.create_intent as int];
            &&& r.0@ == decimal((state.create_intent + 1) as nat) + "/"@ + decimal(state.intents@.len()) + " "@ + id@
            &&& r.1@ == intent_list_text(state.intents@)
            &&& r.2 matches Some(s) && s@ == summary@
        }),
        state.create_intent >= state.intents@.len() ==> r.0@ == "1/1 investigate"@ && r.1@
            == "investigate"@ && r.2 is None,
{
    if state.create_intent < state.intents.len() {
        let id = &state.intents[state.create_intent].0;
        let selected = selected_intent_label(state, id.as_str());
        let available = intent_catalog_label(&state.intents);
        let summary = crate::text::clone_string(&state.intents[state.create_intent].1);
        (selected, available, Some(summary))
    } else {
        (owned("1/1 investigate"), owned("investigate"), None)
    }
}

} // verus!
