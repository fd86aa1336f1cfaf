use vstd::prelude::*;

use crate::repo_picker::RepoPane;
use crate::tui_state::TuiMode;

verus! {

/// The key hints of the footer, as pairs of a key and what it does: fewer
/// in a narrow list, and in the repository view those of the focused panel.
pub open spec fn footer_hints(
    width: u16,
    mode: TuiMode,
    trace_visible: bool,
    repo_focus: RepoPane,
    repo_workspace_setup_required: bool,
) -> Seq<(&'static str, &'static str)> {
    match mode {
        TuiMode::List if width < 88 => seq![
            ("type", "find "),
            ("enter", "open "),
            ("/", "cmd "),
            ("esc", "clear/quit"),
        ],
        TuiMode::List if width < 112 => seq![
            ("type", "find "),
            ("enter", "open "),
            ("up/down", "move "),
            ("/", "commands "),
            ("esc", "clear/quit"),
        ],
        TuiMode::List | TuiMode::Search => seq![
            ("type", "find "),
            ("enter", "open "),
            ("up/down", "move "),
            ("/", "commands "),
            ("C-t", if trace_visible { "hide trace " } else { "trace " }),
            ("esc", "clear/quit"),
        ],
        TuiMode::Leader => seq![
            ("/n", "new "),
            ("/a", "archive "),
            ("/i", "intent "),
            ("/r", "repos "),
            ("/?", "help "),
            ("/q", "quit "),
            ("esc", "cancel"),
        ],
        TuiMode::Create => seq![("enter", "create "), ("tab/right", "intent "), ("esc", "cancel")],
        TuiMode::Archive => seq![("y/enter", "archive "), ("esc/n", "cancel")],
        TuiMode::Intents => seq![
            ("type", "find "),
            ("up/down", "intent "),
            ("enter", "switch "),
            ("esc", "back"),
        ],
        TuiMode::Repos => match repo_focus {
            RepoPane::AddPath => seq![
                ("tab", "panel "),
                ("type", "path "),
                ("backspace", "edit "),
                ("enter", "add "),
                ("esc", "back"),
            ],
            RepoPane::ConfiguredPaths => seq![
                ("tab", "panel "),
                ("up/down", "path "),
                ("space", "remove "),
                ("enter", "remove "),
                ("esc", "back"),
            ],
            RepoPane::Catalog => if repo_workspace_setup_required {
                seq![("tab", "panel "), ("type", "find "), ("enter", "apply "), ("esc", "back")]
            } else {
                seq![
                    ("tab", "panel "),
                    ("type", "find "),
                    ("space", "select "),
                    ("!", "force "),
                    ("enter", "apply "),
                    ("esc", "back"),
                ]
            },
        },
        TuiMode::Help => seq![("esc/?/q", "close")],
    }
}

/// The key hints of the footer.
pub fn footer_keys(
    width: u16,
    mode: TuiMode,
    trace_visible: bool,
    repo_focus: RepoPane,
    repo_workspace_setup_required: bool,
) -> (r: Vec<(&'static str, &'static str)>)
    ensures
        r@ == footer_hints(width, mode, trace_visible, repo_focus, repo_workspace_setup_required),
{
    match mode {
        TuiMode::List if width < 88 => vec![
            ("type", "find "),
            ("enter", "open "),
            ("/", "cmd "),
            ("esc", "clear/quit"),
        ],
        TuiMode::List if width < 112 => vec![
            ("type", "find "),
            ("enter", "open "),
            ("up/down", "move "),
            ("/", "commands "),
            ("esc", "clear/quit"),
        ],
        TuiMode::List | TuiMode::Search => vec![
            ("type", "find "),
            ("enter", "open "),
            ("up/down", "move "),
            ("/", "commands "),
            ("C-t", if trace_visible { "hide trace " } else { "trace " }),
            ("esc", "clear/quit"),
        ],
        TuiMode::Leader => vec![
            ("/n", "new "),
            ("/a", "archive "),
            ("/i", "intent "),
            ("/r", "repos "),
            ("/?", "help "),
            ("/q", "quit "),
            ("esc", "cancel"),
        ],
        TuiMode::Create => vec![("enter", "create "), ("tab/right", "intent "), ("esc", "cancel")],
        TuiMode::Archive => vec![("y/enter", "archive "), ("esc/n", "cancel")],
        TuiMode::Intents => vec![
            ("type", "find "),
            ("up/down", "intent "),
            ("enter", "switch "),
            ("esc", "back"),
        ],
        TuiMode::Repos => match repo_focus {
            RepoPane::AddPath => vec![
                ("tab", "panel "),
                ("type", "path "),
                ("backspace", "edit "),
                ("enter", "add "),
                ("esc", "back"),
            ],
            RepoPane::ConfiguredPaths => vec![
                ("tab", "panel "),
                ("up/down", "path "),
                ("space", "remove "),
                ("enter", "remove "),
                ("esc", "back"),
            ],
            RepoPane::Catalog => if repo_workspace_setup_required {
                vec![("tab", "panel "), ("type", "find "), ("enter", "apply "), ("esc", "back")]
            } else {
                vec![
                    ("tab", "panel "),
                    ("type", "find "),
                    ("space", "select "),
                    ("!", "force "),
                    ("enter", "apply "),
                    ("esc", "back"),
                ]
            },
        },
        TuiMode::Help => vec![("esc/?/q", "close")],
    }
}

} // verus!
