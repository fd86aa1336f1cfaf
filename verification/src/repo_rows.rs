use vstd::prelude::*;

use crate::names::name_set;
use crate::output::{pad_to, padded};
use crate::paths::{opt_text_of, path_below, path_strip_prefix};
use crate::repo_catalog::RepoCatalogRow;
use crate::repo_picker::{RepoPane, RepoPickerState};
use crate::text::{chars_of, clone_string, concat2, owned, push_char, string_from_range};

verus! {

/// The widths of the catalog columns; a width of zero hides the column.
#[derive(Debug, Clone, Copy, PartialEq, Eq, Structural)]
pub struct RepoColumns {
    pub name: usize,
    pub source: usize,
    pub branch: usize,
    pub status: usize,
}

/// Which end of a text gives way when it does not fit.
#[derive(Debug, Clone, Copy, PartialEq, Eq, Structural)]
pub enum Truncate {
    Start,
    End,
}

/// The catalog columns for a width: source, branch and state appear as the
/// width allows, and the name takes the rest, at least twelve columns.
pub open spec fn columns_for(width: usize) -> RepoColumns {
    let source: usize = if width >= 52 { 8 } else { 0 };
    let branch: usize = if width >= 120 {
        18
    } else if width >= 64 {
        14
    } else {
        0
    };
    let status: usize = if width >= 104 { 8 } else { 0 };
    let gaps = (if source > 0 { 1int } else { 0 }) + (if branch > 0 { 1int } else { 0 }) + (if status
        > 0 {
        1int
    } else {
        0
    });
    let fixed = 7 + source + branch + status + gaps;
    let rest = if width >= fixed { width - fixed } else { 0 };
    RepoColumns { name: if rest >= 12 { rest as usize } else { 12 }, source, branch, status }
}

/// The catalog columns for a width.
pub fn repo_columns(width: usize) -> (r: RepoColumns)
    ensures
        r == columns_for(width),
{
    let source: usize = if width >= 52 { 8 } else { 0 };
    let branch: usize = if width >= 120 {
        18
    } else if width >= 64 {
        14
    } else {
        0
    };
    let status: usize = if width >= 104 { 8 } else { 0 };
    let mut gaps: usize = 0;
    if source > 0 {
        gaps = gaps + 1;
    }
    if branch > 0 {
        gaps = gaps + 1;
    }
    if status > 0 {
        gaps = gaps + 1;
    }
    let fixed: usize = 7 + source + branch + status + gaps;
    let rest: usize = if width >= fixed { width - fixed } else { 0 };
    RepoColumns { name: if rest >= 12 { rest } else { 12 }, source, branch, status }
}

/// `n` dots.
pub open spec fn dots(n: nat) -> Seq<char> {
    Seq::new(n, |i: int| '.')
}

/// A text fitted to `width` characters: kept whole when it fits, else cut
/// at the requested end and marked with three dots (only dots when the
/// width leaves no room for more).
pub open spec fn fitted(s: Seq<char>, width: usize, truncation: Truncate) -> Seq<char> {
    if width == 0 {
        Seq::empty()
    } else if s.len() <= width {
        s
    } else if width <= 3 {
        dots(width as nat)
    } else {
        let keep = width - 3;
        match truncation {
            Truncate::Start => "..."@ + s.skip(s.len() - keep),
            Truncate::End => s.take(keep) + "..."@,
        }
    }
}

/// A text fitted to `width` characters.
pub fn fit_text(value: &str, width: usize, truncation: Truncate) -> (r: String)
    ensures
        r@ == fitted(value@, width, truncation),
{
    if width == 0 {
        return String::new();
    }
    let v = chars_of(value);
    if v.len() <= width {
        return owned(value);
    }
    if width <= 3 {
        let mut r = String::new();
        let mut k: usize = 0;
        while k < width
            invariant
                k <= width,
                r@ == dots(k as nat),
            decreases width - k,
        {
            push_char(&mut r, '.');
            k = k + 1;
            assert(r@ =~= dots(k as nat));
        }
        return r;
    }
    let keep = width - 3;
    proof {
        reveal_strlit("...");
    }
    match truncation {
        Truncate::Start => {
            let tail = string_from_range(&v, v.len() - keep, v.len());
            let r = concat2("...", tail.as_str());
            assert(v@.subrange(v@.len() - keep, v@.len() as int) =~= value@.skip(value@.len() - keep));
            r
        },
        Truncate::End => {
            let head = string_from_range(&v, 0, keep);
            let r = concat2(head.as_str(), "...");
            assert(v@.subrange(0, keep as int) =~= value@.take(keep as int));
            r
        },
    }
}

/// A text fitted to `width` characters, then padded with spaces to it.
pub fn fit_padded(value: &str, width: usize, truncation: Truncate) -> (r: String)
    ensures
        r@ == padded(fitted(value@, width, truncation), width),
{
    let fitted_text = fit_text(value, width, truncation);
    let mut r = String::new();
    pad_to(&mut r, fitted_text.as_str(), width);
    assert(r@ =~= padded(fitted(value@, width, truncation), width));
    r
}

/// How wide the main value of a detail line may be: its own length, at
/// most three fifths of the room, but at least sixteen columns (or all of
/// the room when it is smaller).
pub open spec fn value_width_for(natural: nat, available: usize) -> usize {
    if available == 0 {
        0
    } else {
        let preferred: int = if available * 3 > usize::MAX {
            usize::MAX as int / 5
        } else {
            available * 3 / 5
        };
        let floor: int = if available < 16 { available as int } else { 16 };
        let m: int = if natural < preferred { natural as int } else { preferred };
        (if m > floor { m } else { floor }) as usize
    }
}

/// How wide the main value of a detail line may be.
pub fn detail_value_width(value: &str, available: usize) -> (r: usize)
    ensures
        r == value_width_for(value@.len(), available),
        r <= available,
{
    if available == 0 {
        return 0;
    }
    let natural = chars_of(value).len();
    let preferred: usize = if available > usize::MAX / 3 {
        usize::MAX / 5
    } else {
        available * 3 / 5
    };
    proof {
        if available > usize::MAX / 3 {
            assert(available * 3 > usize::MAX) by (nonlinear_arith)
                requires
                    available > usize::MAX / 3,
            ;
        } else {
            assert(available * 3 <= usize::MAX) by (nonlinear_arith)
                requires
                    available <= usize::MAX / 3,
            ;
        }
    }
    let floor: usize = if available < 16 { available } else { 16 };
    let m: usize = if natural < preferred { natural } else { preferred };
    if m > floor {
        m
    } else {
        floor
    }
}

/// A path shown from the home folder, given the part of it below the home
/// folder if there is one: `~` for the home folder itself, `~/` and the part
/// below it, else the path.
pub open spec fn home_shown(path: Seq<char>, below_home: Option<Seq<char>>) -> Seq<char> {
    match below_home {
        Some(rel) => if rel.len() == 0 {
            "~"@
        } else {
            "~/"@ + rel
        },
        None => path,
    }
}

/// A path shown from the home folder (as `~`) when it lies within it, as
/// std's `Path::strip_prefix` gives the part below; an empty home counts as
/// none.
pub open spec fn compact_text(path: Seq<char>, home: Option<Seq<char>>) -> Seq<char> {
    match home {
        Some(h) => if h.len() > 0 {
            home_shown(path, path_strip_prefix(path, h))
        } else {
            path
        },
        None => path,
    }
}

/// A path shown from the home folder, given the part of it below the home
/// folder if there is one.
pub fn compact_from(path: &str, below_home: Option<String>) -> (r: String)
    ensures
        r@ == home_shown(path@, opt_text_of(below_home)),
{
    match below_home {
        Some(rel) => {
            if chars_of(rel.as_str()).len() == 0 {
                owned("~")
            } else {
                concat2("~/", rel.as_str())
            }
        },
        None => owned(path),
    }
}

/// A path shown from the home folder when it lies within it.
pub fn compact_path(path: &str, home: Option<&str>) -> (r: String)
    ensures
        r@ == compact_text(path@, match home {
            Some(h) => Some(h@),
            None => None,
        }),
{
    match home {
        Some(h) => {
            if chars_of(h).len() > 0 {
                compact_from(path, path_below(path, h))
            } else {
                owned(path)
            }
        },
        None => owned(path),
    }
}

/// A path shown relative to the workspace, given the part of it below the
/// workspace if there is one: `.` for the workspace itself, `./` and the
/// part below it, else `otherwise`.
pub open spec fn workspace_shown(below_workspace: Option<Seq<char>>, otherwise: Seq<char>) -> Seq<char> {
    match below_workspace {
        Some(rel) => if rel.len() == 0 {
            "."@
        } else {
            "./"@ + rel
        },
        None => otherwise,
    }
}

/// A path shown relative to the workspace (as `.`) when it lies within it,
/// else from the home folder.
pub open spec fn row_path_text(path: Seq<char>, workspace: Option<Seq<char>>, home: Option<Seq<char>>) -> Seq<char> {
    workspace_shown(
        match workspace {
            Some(w) => path_strip_prefix(path, w),
            None => None,
        },
        compact_text(path, home),
    )
}

/// A path shown relative to the workspace, given the part of it below the
/// workspace if there is one, else as `otherwise`.
pub fn row_path_from(below_workspace: Option<String>, otherwise: String) -> (r: String)
    ensures
        r@ == workspace_shown(opt_text_of(below_workspace), otherwise@),
{
    match below_workspace {
        Some(rel) => {
            if chars_of(rel.as_str()).len() == 0 {
                owned(".")
            } else {
                concat2("./", rel.as_str())
            }
        },
        None => otherwise,
    }
}

/// The view of an optional text.
pub open spec fn opt_view(o: Option<&str>) -> Option<Seq<char>> {
    match o {
        Some(s) => Some(s@),
        None => None,
    }
}

/// A path shown relative to the workspace when it lies within it, else
/// from the home folder.
pub fn row_path(path: &str, workspace: Option<&str>, home: Option<&str>) -> (r: String)
    ensures
        r@ == row_path_text(path@, opt_view(workspace), opt_view(home)),
{
    let below = match workspace {
        Some(w) => path_below(path, w),
        None => None,
    };
    row_path_from(below, compact_path(path, home))
}

/// What a catalog row shows of a repository, before fitting: its name,
/// source and branch, whether it counts as attached to the Work, and
/// whether it is pending to be added or removed.
pub open spec fn row_facts(row: RepoCatalogRow, repo: RepoPickerState) -> (Seq<char>, Seq<char>, Seq<char>, bool, bool, bool) {
    match row {
        RepoCatalogRow::GitHub(a) => (
            a.name_with_owner@,
            "github"@,
            a.default_branch@,
            repo.selected_spec(a.name_with_owner@),
            name_set(repo.pending_add@).contains(a.name_with_owner@),
            name_set(repo.pending_remove@).contains(a.name_with_owner@),
        ),
        RepoCatalogRow::Local(c) => (
            c.name_with_owner@,
            "local"@,
            c.branch@,
            repo.selected_spec(c.name_with_owner@),
            name_set(repo.pending_link@).contains(c.path@),
            name_set(repo.pending_remove@).contains(c.name_with_owner@),
        ),
        RepoCatalogRow::PendingLocal { path, failed } => (
            path@,
            "local"@,
            if failed { "unreadable"@ } else { "inspecting"@ },
            false,
            false,
            false,
        ),
        RepoCatalogRow::Attached(a) => (
            a.name_with_owner@,
            "attached"@,
            a.branch@,
            repo.selected_spec(a.name_with_owner@),
            false,
            name_set(repo.pending_remove@).contains(a.name_with_owner@),
        ),
    }
}

/// The check mark of a row: forced removal, removal, selected, or not.
pub open spec fn marker_text(attached: bool, pending_add: bool, pending_remove: bool, force: bool) -> Seq<char> {
    if pending_remove && force {
        "[!]"@
    } else if pending_remove {
        "[-]"@
    } else if pending_add || attached {
        "[x]"@
    } else {
        "[ ]"@
    }
}

/// The state column of a row.
pub open spec fn status_text(source: Seq<char>, attached: bool, pending_add: bool, pending_remove: bool, force: bool) -> Seq<char> {
    if pending_add {
        "ADD"@
    } else if pending_remove && force {
        "FORCE"@
    } else if pending_remove {
        "REMOVE"@
    } else if attached && source != "attached"@ {
        "ATTACHED"@
    } else {
        ""@
    }
}

/// The cells of one catalog line: the selection anchor, the check mark and
/// the texts of the shown columns, each fitted and padded to its width.
#[derive(Debug, Clone, PartialEq, Eq)]
pub struct RowCells {
    pub anchor: String,
    pub marker: String,
    pub name: String,
    pub source: Option<String>,
    pub branch: Option<String>,
    pub status: Option<String>,
}

/// A column's cell: absent when the column is hidden.
pub open spec fn cell(s: Seq<char>, width: usize) -> Option<Seq<char>> {
    if width == 0 {
        None
    } else {
        Some(padded(fitted(s, width, Truncate::End), width))
    }
}

/// The view of an optional string.
pub open spec fn opt_string(o: Option<String>) -> Option<Seq<char>> {
    match o {
        Some(s) => Some(s@),
        None => None,
    }
}

/// The cells hold the given texts fitted to the columns of the width.
pub open spec fn cells_hold(
    r: RowCells,
    anchor: Seq<char>,
    marker: Seq<char>,
    name: Seq<char>,
    source: Seq<char>,
    branch: Seq<char>,
    status: Seq<char>,
    width: usize,
) -> bool {
    let c = columns_for(width);
    &&& r.anchor@ == anchor
    &&& r.marker@ == marker
    &&& r.name@ == padded(fitted(name, c.name, Truncate::End), c.name)
    &&& opt_string(r.source) == cell(source, c.source)
    &&& opt_string(r.branch) == cell(branch, c.branch)
    &&& opt_string(r.status) == cell(status, c.status)
}

fn column_cell(value: &str, width: usize) -> (r: Option<String>)
    ensures
        opt_string(r) == cell(value@, width),
{
    if width == 0 {
        None
    } else {
        Some(fit_padded(value, width, Truncate::End))
    }
}

/// The header line of the catalog.
pub fn catalog_header_cells(width: usize) -> (r: RowCells)
    ensures
        cells_hold(r, "  "@, "   "@, "REPOSITORY"@, "SOURCE"@, "BRANCH"@, "STATE"@, width),
{
    let columns = repo_columns(width);
    RowCells {
        anchor: owned("  "),
        marker: owned("   "),
        name: fit_padded("REPOSITORY", columns.name, Truncate::End),
        source: column_cell("SOURCE", columns.source),
        branch: column_cell("BRANCH", columns.branch),
        status: column_cell("STATE", columns.status),
    }
}

/// The line of one catalog row: `>>` marks the selected row while the
/// catalog has the focus.
pub fn catalog_row_cells(row: &RepoCatalogRow, repo: &RepoPickerState, index: usize, width: usize) -> (r: RowCells)
    requires
        repo.wf(),
    ensures
        ({
            let (name, source, branch, attached, add, remove) = row_facts(*row, *repo);
            cells_hold(
                r,
                if index == repo.selected_catalog && repo.focus == RepoPane::Catalog {
                    ">>"@
                } else {
                    "  "@
                },
                marker_text(attached, add, remove, repo.force_remove),
                name,
                source,
                branch,
                status_text(source, attached, add, remove, repo.force_remove),
                width,
            )
        }),
{
    let (name, source, branch, attached, add, remove): (String, &str, String, bool, bool, bool) = match row {
        RepoCatalogRow::GitHub(a) => (
            clone_string(&a.name_with_owner),
            "github",
            clone_string(&a.default_branch),
            repo.is_selected(a.name_with_owner.as_str()),
            crate::names::names_contain(&repo.pending_add, a.name_with_owner.as_str()),
            crate::names::names_contain(&repo.pending_remove, a.name_with_owner.as_str()),
        ),
        RepoCatalogRow::Local(c) => (
            clone_string(&c.name_with_owner),
            "local",
            clone_string(&c.branch),
            repo.is_selected(c.name_with_owner.as_str()),
            repo.is_local_candidate_selected(c.path.as_str()),
            crate::names::names_contain(&repo.pending_remove, c.name_with_owner.as_str()),
        ),
        RepoCatalogRow::PendingLocal { path, failed } => (
            clone_string(path),
            "local",
            if *failed { owned("unreadable") } else { owned("inspecting") },
            false,
            false,
            false,
        ),
        RepoCatalogRow::Attached(a) => (
            clone_string(&a.name_with_owner),
            "attached",
            clone_string(&a.branch),
            repo.is_selected(a.name_with_owner.as_str()),
            false,
            crate::names::names_contain(&repo.pending_remove, a.name_with_owner.as_str()),
        ),
    };
    let force = repo.force_remove;
    let marker = if remove && force {
        "[!]"
    } else if remove {
        "[-]"
    } else if add || attached {
        "[x]"
    } else {
        "[ ]"
    };
    let is_attached_source = crate::text::str_eq(source, "attached");
    let status = if add {
        "ADD"
    } else if remove && force {
        "FORCE"
    } else if remove {
        "REMOVE"
    } else if attached && !is_attached_source {
        "ATTACHED"
    } else {
        ""
    };
    let selected = index == repo.selected_catalog && match repo.focus {
        RepoPane::Catalog => true,
        _ => false,
    };
    let columns = repo_columns(width);
    RowCells {
        anchor: owned(if selected { ">>" } else { "  " }),
        marker: owned(marker),
        name: fit_padded(name.as_str(), columns.name, Truncate::End),
        source: column_cell(source, columns.source),
        branch: column_cell(branch.as_str(), columns.branch),
        status: column_cell(status, columns.status),
    }
}

/// The detail line under the selected catalog row: its indent, a key and
/// value, and for most rows a second key and value, fitted to the width.
#[derive(Debug, Clone, PartialEq, Eq)]
pub struct DetailLine {
    pub indent: usize,
    pub key: String,
    pub value: String,
    pub secondary: Option<(String, String)>,
}

/// What the detail line of a row says before fitting: a key and value, and
/// maybe a second key and value. For a GitHub row the value is where the
/// worktree goes (`worktree`, the path the Work's layout gives for it),
/// and the second value is the workspace; for a local or attached row the
/// value is its path and the second value is that path seen from the
/// workspace.
pub open spec fn detail_facts(
    row: RepoCatalogRow,
    workspace: Option<Seq<char>>,
    worktree: Option<Seq<char>>,
    home: Option<Seq<char>>,
) -> (Seq<char>, Seq<char>, Option<(Seq<char>, Seq<char>)>) {
    match row {
        RepoCatalogRow::GitHub(_) => (
            "worktree"@,
            match workspace {
                Some(w) => match worktree {
                    Some(t) => compact_text(t, home),
                    None => compact_text(w, home),
                },
                None => "workspace not set"@,
            },
            match workspace {
                Some(w) => Some(("base"@, compact_text(w, home))),
                None => None,
            },
        ),
        RepoCatalogRow::Local(c) => (
            "path"@,
            compact_text(c.path@, home),
            Some(("work"@, row_path_text(c.path@, workspace, home))),
        ),
        RepoCatalogRow::PendingLocal { path, .. } => (
            "path"@,
            compact_text(path@, home),
            Some(("work"@, row_path_text(path@, workspace, home))),
        ),
        RepoCatalogRow::Attached(a) => (
            "path"@,
            compact_text(a.path@, home),
            Some(("work"@, row_path_text(a.path@, workspace, home))),
        ),
    }
}

/// The detail line fitted to a width: seven columns of indent (or the whole
/// width), then the key and value; with a second key and value, the room
/// left after the keys and separators is shared by `value_width_for`, and
/// both values give way at their start.
pub open spec fn detail_layout(
    key: Seq<char>,
    value: Seq<char>,
    secondary: Option<(Seq<char>, Seq<char>)>,
    width: usize,
) -> (usize, Seq<char>, Option<(Seq<char>, Seq<char>)>) {
    let indent: usize = if width < 7 { width } else { 7 };
    let value_width: usize = (width - indent) as usize;
    match secondary {
        Some((sk, sv)) => {
            let fixed = key.len() + 1 + 3 + sk.len() + 1;
            let available: usize = if value_width > fixed { (value_width - fixed) as usize } else { 0 };
            let vc = value_width_for(value.len(), available);
            let sc: usize = (available - vc) as usize;
            (indent, padded(fitted(value, vc, Truncate::Start), vc), Some((sk, fitted(sv, sc, Truncate::Start))))
        },
        None => (indent, fitted(value, value_width, Truncate::Start), None),
    }
}

/// The view of a detail line.
pub open spec fn detail_view(d: DetailLine) -> (usize, Seq<char>, Option<(Seq<char>, Seq<char>)>) {
    (
        d.indent,
        d.value@,
        match d.secondary {
            Some((k, v)) => Some((k@, v@)),
            None => None,
        },
    )
}

/// The detail line under the selected catalog row. `worktree` is where the
/// Work's layout puts a GitHub repository's worktree in the workspace, when
/// it can say.
pub fn catalog_row_detail(
    row: &RepoCatalogRow,
    width: usize,
    workspace: Option<&str>,
    worktree: Option<&str>,
    home: Option<&str>,
) -> (r: DetailLine)
    ensures
        ({
            let (key, value, secondary) = detail_facts(*row, opt_view(workspace), opt_view(worktree), opt_view(home));
            r.key@ == key && detail_view(r) == detail_layout(key, value, secondary, width)
        }),
{
    let (key, value, secondary): (&str, String, Option<(&str, String)>) = match row {
        RepoCatalogRow::GitHub(_) => {
            let value = match workspace {
                Some(w) => match worktree {
                    Some(t) => compact_path(t, home),
                    None => compact_path(w, home),
                },
                None => owned("workspace not set"),
            };
            let secondary = match workspace {
                Some(w) => Some(("base", compact_path(w, home))),
                None => None,
            };
            ("worktree", value, secondary)
        },
        RepoCatalogRow::Local(c) => (
            "path",
            compact_path(c.path.as_str(), home),
            Some(("work", row_path(c.path.as_str(), workspace, home))),
        ),
        RepoCatalogRow::PendingLocal { path, .. } => (
            "path",
            compact_path(path.as_str(), home),
            Some(("work", row_path(path.as_str(), workspace, home))),
        ),
        RepoCatalogRow::Attached(a) => (
            "path",
            compact_path(a.path.as_str(), home),
            Some(("work", row_path(a.path.as_str(), workspace, home))),
        ),
    };
    proof {
        reveal_strlit("worktree");
        reveal_strlit("path");
        reveal_strlit("base");
        reveal_strlit("work");
    }
    assert(key@.len() <= 8);
    let indent: usize = if width < 7 { width } else { 7 };
    let value_width: usize = width - indent;
    match secondary {
        Some((secondary_key, secondary_value)) => {
            assert(secondary_key@.len() == 4);
            let key_len = chars_of(key).len();
            let secondary_key_len = chars_of(secondary_key).len();
            let available: usize = if key_len + 4 + secondary_key_len + 1 < value_width {
                value_width - (key_len + 4 + secondary_key_len + 1)
            } else {
                0
            };
            let value_column = detail_value_width(value.as_str(), available);
            let secondary_column = available - value_column;
            DetailLine {
                indent,
                key: owned(key),
                value: fit_padded(value.as_str(), value_column, Truncate::Start),
                secondary: Some(
                    (owned(secondary_key), fit_text(secondary_value.as_str(), secondary_column, Truncate::Start)),
                ),
            }
        },
        None => DetailLine {
            indent,
            key: owned(key),
            value: fit_text(value.as_str(), value_width, Truncate::Start),
            secondary: None,
        },
    }
}

/// A fitted text never outgrows its width, fills it whenever the text is at
/// least that long, and a padded cell is exactly as wide as its column.
pub proof fn law_fitted_text_fits(s: Seq<char>, width: usize, truncation: Truncate)
    ensures
        fitted(s, width, truncation).len() <= width,
        s.len() >= width ==> fitted(s, width, truncation).len() == width,
        s.len() <= width ==> fitted(s, width, truncation) == s,
        padded(fitted(s, width, truncation), width).len() == width,
{
    reveal_strlit("...");
}

} // verus!
