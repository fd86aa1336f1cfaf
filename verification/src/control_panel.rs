use vstd::prelude::*;

use crate::components::TitleActivity;
use crate::repo_picker::{RepoOperation, RepoStatus};
use crate::text::{decimal, decimal_string, push_str};
use crate::tui_state::TuiMode;

verus! {

/// The widest the control panel grows.
pub const MAX_WIDTH: u16 = 160;
/// The columns left free beside the control panel.
pub const SIDE_MARGIN: u16 = 2;
/// The height of the control panel without the trace.
pub const BASE_HEIGHT: u16 = 28;
/// The rows the visible trace adds.
pub const TRACE_EXTRA_HEIGHT: u16 = 5;

/// Whether the execution trace is shown.
#[derive(Debug, Clone, Copy, PartialEq, Eq, Structural)]
pub enum TraceVisibility {
    Hidden,
    Visible,
}

impl TraceVisibility {
    /// The visibility for a flag.
    pub fn from_visible(visible: bool) -> (r: TraceVisibility)
        ensures
            r == if visible {
                TraceVisibility::Visible
            } else {
                TraceVisibility::Hidden
            },
    {
        if visible {
            TraceVisibility::Visible
        } else {
            TraceVisibility::Hidden
        }
    }
}

/// The title of the control panel, by mode.
pub open spec fn title_text(mode: TuiMode) -> Seq<char> {
    if mode == TuiMode::Repos {
        "WORKON // CONTROL // REPO"@
    } else {
        "WORKON // CONTROL"@
    }
}

/// The title of the control panel: it names the repository view only.
pub fn title(mode: TuiMode) -> (r: &'static str)
    ensures
        r@ == title_text(mode),
{
    match mode {
        TuiMode::Repos => "WORKON // CONTROL // REPO",
        _ => "WORKON // CONTROL",
    }
}

/// The word of the title activity for an operation.
pub open spec fn activity_verb(action: RepoOperation) -> Seq<char> {
    match action {
        RepoOperation::Add => "Creating worktree"@,
        RepoOperation::Link => "Linking"@,
        RepoOperation::Remove => "Removing"@,
        RepoOperation::Refresh => "Refreshing"@,
    }
}

/// The title activity text of a repository operation in progress.
pub open spec fn activity_text(action: RepoOperation, current: usize, total: usize, repository: Seq<char>) -> Seq<char> {
    decimal(current as nat) + "/"@ + decimal(total as nat) + " "@ + activity_verb(action) + " "@
        + repository
}

/// The title activity text of a repository operation in progress.
pub fn repo_activity_message(action: RepoOperation, current: usize, total: usize, repository: &str) -> (r: String)
    ensures
        r@ == activity_text(action, current, total, repository@),
{
    let verb = match action {
        RepoOperation::Add => "Creating worktree",
        RepoOperation::Link => "Linking",
        RepoOperation::Remove => "Removing",
        RepoOperation::Refresh => "Refreshing",
    };
    let mut r = decimal_string(current);
    push_str(&mut r, "/");
    let t = decimal_string(total);
    push_str(&mut r, t.as_str());
    push_str(&mut r, " ");
    push_str(&mut r, verb);
    push_str(&mut r, " ");
    push_str(&mut r, repository);
    proof {
        reveal_strlit("/");
        reveal_strlit(" ");
    }
    assert(r@ =~= activity_text(action, current, total, repository@));
    r
}

/// The activity shown after the title: only in the repository view, while
/// it loads or applies.
pub open spec fn activity_of(mode: TuiMode, status: RepoStatus, frame: usize) -> Option<(Seq<char>, usize)> {
    if mode != TuiMode::Repos {
        None
    } else {
        match status {
            RepoStatus::Loading { message } => Some((message@, frame)),
            RepoStatus::Applying { action, current, total, repository } => Some(
                (activity_text(action, current, total, repository@), frame),
            ),
            _ => None,
        }
    }
}

/// The activity shown after the title: only in the repository view, while
/// it loads or applies.
pub fn title_activity(mode: TuiMode, repo_status: &RepoStatus, repo_activity_frame: usize) -> (r: Option<TitleActivity>)
    ensures
        match activity_of(mode, *repo_status, repo_activity_frame) {
            Some((label, frame)) => r matches Some(a) && a.label@ == label && a.frame == frame,
            None => r is None,
        },
{
    if mode != TuiMode::Repos {
        return None;
    }
    match repo_status {
        RepoStatus::Loading { message } => Some(TitleActivity::loading(message.as_str(), repo_activity_frame)),
        RepoStatus::Applying { action, current, total, repository } => {
            let message = repo_activity_message(*action, *current, *total, repository.as_str());
            Some(TitleActivity::loading(message.as_str(), repo_activity_frame))
        },
        _ => None,
    }
}

/// The size of the control panel in an area, or `None` when the area is too
/// small and the panel takes all of it: the width leaves a margin and is
/// capped; the height grows for a visible trace and leaves two rows.
pub open spec fn panel_size_of(width: u16, height: u16, trace: TraceVisibility) -> Option<(u16, u16)> {
    if width < 44 || height < 12 {
        None
    } else {
        let w = if width - SIDE_MARGIN < MAX_WIDTH { width - SIDE_MARGIN } else { MAX_WIDTH as int };
        let wanted = BASE_HEIGHT + if trace == TraceVisibility::Visible { TRACE_EXTRA_HEIGHT as int } else { 0 };
        let h = if wanted < height - 2 { wanted } else { height - 2 };
        Some((w as u16, h as u16))
    }
}

/// The size of the control panel in an area, or `None` when the area is too
/// small and the panel takes all of it.
pub fn panel_size(width: u16, height: u16, trace: TraceVisibility) -> (r: Option<(u16, u16)>)
    ensures
        r == panel_size_of(width, height, trace),
{
    if width < 44 || height < 12 {
        return None;
    }
    let margin_width = width - SIDE_MARGIN;
    let w = if margin_width < MAX_WIDTH { margin_width } else { MAX_WIDTH };
    let extra = match trace {
        TraceVisibility::Visible => TRACE_EXTRA_HEIGHT,
        TraceVisibility::Hidden => 0,
    };
    let wanted = BASE_HEIGHT + extra;
    let room = height - 2;
    let h = if wanted < room { wanted } else { room };
    Some((w, h))
}

} // verus!
