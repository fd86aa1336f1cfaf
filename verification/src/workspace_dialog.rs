use vstd::prelude::*;

use crate::arith::{clamp_index, clamped, wrap_index, wrapped};
use crate::domain::RepositoryWorkspace;
use crate::keys::{is_plain, is_plain_character, Key, KeyCode};
use crate::paths::{parse_paths, path_list};
use crate::repo_picker::popped;
use crate::text::{clone_string, pop_char, push_char, texts};

verus! {

/// Which side of the workspace dialog has the focus: the configured
/// workspaces, or the input that adds more.
#[derive(Debug, Clone, Copy, PartialEq, Eq, Structural)]
pub enum RepoWorkspaceDialogFocus {
    List,
    Add,
}

/// What the application should do after a key in the workspace dialog.
#[derive(Debug, Clone, PartialEq, Eq)]
pub enum RepoWorkspaceDialogAction {
    Nothing,
    Add(Vec<String>),
    Remove(String),
    Close { refresh: bool },
    MissingInput,
    MissingSelection,
}

/// The dialog that adds and removes repository workspaces. `dirty` records
/// that the workspaces changed while it was open, so that closing it
/// refreshes the repository view.
#[derive(Debug, Clone, PartialEq, Eq)]
pub struct RepoWorkspaceDialogState {
    pub open: bool,
    pub focus: RepoWorkspaceDialogFocus,
    pub input: String,
    pub selected: usize,
    pub dirty: bool,
}

/// The removal of the selected workspace, or the notice that none is
/// selected.
pub open spec fn removal(selected: usize, ws: Seq<RepositoryWorkspace>) -> RepoWorkspaceDialogAction {
    if selected < ws.len() {
        RepoWorkspaceDialogAction::Remove(ws[selected as int].path)
    } else {
        RepoWorkspaceDialogAction::MissingSelection
    }
}

/// The dialog with the selection moved by `delta` through the list,
/// wrapping around; with no workspace the input takes the focus.
pub open spec fn moved_in_list(a: RepoWorkspaceDialogState, delta: int, ws: Seq<RepositoryWorkspace>) -> RepoWorkspaceDialogState {
    if ws.len() == 0 {
        RepoWorkspaceDialogState { selected: 0, focus: RepoWorkspaceDialogFocus::Add, ..a }
    } else {
        RepoWorkspaceDialogState { selected: wrapped(a.selected as int, delta, ws.len() as int) as usize, ..a }
    }
}

/// How a key changes the dialog, `a` before and `b` after, and what it
/// asks of the application:
/// - Esc closes the dialog, asking for a refresh when something changed;
/// - Tab switches the focus (to the list only when there are workspaces),
///   Left focuses the list (when there are workspaces), Right the input;
/// - Up and Down move through the list, wrapping around;
/// - Enter, Space, Delete and `-` on the list remove the selected
///   workspace; Enter on the input adds the typed comma-separated paths;
/// - Backspace and typed characters edit the input while it has the focus;
/// - anything else does nothing.
pub open spec fn dialog_key_step(
    a: RepoWorkspaceDialogState,
    b: RepoWorkspaceDialogState,
    key: Key,
    ws: Seq<RepositoryWorkspace>,
    r: RepoWorkspaceDialogAction,
) -> bool {
    let on_list = a.focus == RepoWorkspaceDialogFocus::List;
    let on_add = a.focus == RepoWorkspaceDialogFocus::Add;
    match key.code {
        KeyCode::Esc => {
            &&& b == RepoWorkspaceDialogState { open: false, input: b.input, dirty: false, ..a }
            &&& b.input@ == Seq::<char>::empty()
            &&& r == RepoWorkspaceDialogAction::Close { refresh: a.dirty }
        },
        KeyCode::Tab => {
            &&& b == RepoWorkspaceDialogState {
                focus: if on_list || ws.len() == 0 {
                    RepoWorkspaceDialogFocus::Add
                } else {
                    RepoWorkspaceDialogFocus::List
                },
                ..a
            }
            &&& r == RepoWorkspaceDialogAction::Nothing
        },
        KeyCode::Left => {
            &&& b == RepoWorkspaceDialogState {
                focus: if ws.len() > 0 {
                    RepoWorkspaceDialogFocus::List
                } else {
                    a.focus
                },
                ..a
            }
            &&& r == RepoWorkspaceDialogAction::Nothing
        },
        KeyCode::Right => {
            &&& b == RepoWorkspaceDialogState { focus: RepoWorkspaceDialogFocus::Add, ..a }
            &&& r == RepoWorkspaceDialogAction::Nothing
        },
        KeyCode::Down => {
            &&& b == if on_list { moved_in_list(a, 1, ws) } else { a }
            &&& r == RepoWorkspaceDialogAction::Nothing
        },
        KeyCode::Up => {
            &&& b == if on_list { moved_in_list(a, -1, ws) } else { a }
            &&& r == RepoWorkspaceDialogAction::Nothing
        },
        KeyCode::Enter => {
            &&& b == a
            &&& if on_list {
                r == removal(a.selected, ws)
            } else if path_list(a.input@).len() == 0 {
                r == RepoWorkspaceDialogAction::MissingInput
            } else {
                r matches RepoWorkspaceDialogAction::Add(paths) && texts(paths@) == path_list(
                    a.input@,
                )
            }
        },
        KeyCode::Char(c) => if on_list {
            &&& b == a
            &&& r == if is_plain(key) && (c == ' ' || c == '-') {
                removal(a.selected, ws)
            } else {
                RepoWorkspaceDialogAction::Nothing
            }
        } else if is_plain(key) {
            &&& b == RepoWorkspaceDialogState { input: b.input, ..a }
            &&& b.input@ == a.input@.push(c)
            &&& r == RepoWorkspaceDialogAction::Nothing
        } else {
            &&& b == a
            &&& r == RepoWorkspaceDialogAction::Nothing
        },
        KeyCode::Delete => {
            &&& b == a
            &&& r == if on_list {
                removal(a.selected, ws)
            } else {
                RepoWorkspaceDialogAction::Nothing
            }
        },
        KeyCode::Backspace => if on_list {
            &&& b == a
            &&& r == RepoWorkspaceDialogAction::Nothing
        } else {
            &&& b == RepoWorkspaceDialogState { input: b.input, ..a }
            &&& b.input@ == popped(a.input@)
            &&& r == RepoWorkspaceDialogAction::Nothing
        },
        _ => {
            &&& b == a
            &&& r == RepoWorkspaceDialogAction::Nothing
        },
    }
}

impl Default for RepoWorkspaceDialogState {
    /// A closed dialog with the input focused.
    fn default() -> (s: Self)
        ensures
            !s.open,
            s.focus == RepoWorkspaceDialogFocus::Add,
            s.input@ == Seq::<char>::empty(),
            s.selected == 0,
            !s.dirty,
    {
        RepoWorkspaceDialogState {
            open: false,
            focus: RepoWorkspaceDialogFocus::Add,
            input: String::new(),
            selected: 0,
            dirty: false,
        }
    }
}

impl RepoWorkspaceDialogState {
    /// Whether the dialog is shown.
    pub fn is_open(&self) -> (r: bool)
        ensures
            r == self.open,
    {
        self.open
    }

    /// The focused side.
    pub fn focus(&self) -> (r: RepoWorkspaceDialogFocus)
        ensures
            r == self.focus,
    {
        self.focus
    }

    /// The typed paths.
    pub fn input(&self) -> (r: &str)
        ensures
            r@ == self.input@,
    {
        self.input.as_str()
    }

    /// The position of the selected workspace.
    pub fn selected(&self) -> (r: usize)
        ensures
            r == self.selected,
    {
        self.selected
    }

    /// Opens the dialog on the given workspace, kept within the list: the
    /// list has the focus when there is one, else the input.
    pub fn open(&mut self, selected: usize, workspaces: &Vec<RepositoryWorkspace>)
        ensures
            final(self).open,
            final(self).input@ == Seq::<char>::empty(),
            !final(self).dirty,
            final(self).selected == if workspaces@.len() == 0 {
                0
            } else if selected < workspaces@.len() {
                selected as int
            } else {
                workspaces@.len() - 1
            },
            final(self).focus == if workspaces@.len() == 0 {
                RepoWorkspaceDialogFocus::Add
            } else {
                RepoWorkspaceDialogFocus::List
            },
    {
        self.open = true;
        self.input = String::new();
        self.dirty = false;
        let last: usize = if workspaces.len() > 0 { workspaces.len() - 1 } else { 0 };
        self.selected = if selected < last { selected } else { last };
        self.focus = if workspaces.len() == 0 {
            RepoWorkspaceDialogFocus::Add
        } else {
            RepoWorkspaceDialogFocus::List
        };
    }

    /// Closes the dialog; returns whether the workspaces changed while it
    /// was open.
    pub fn close(&mut self) -> (refresh: bool)
        ensures
            refresh == old(self).dirty,
            *final(self) == (RepoWorkspaceDialogState {
                open: false,
                input: final(self).input,
                dirty: false,
                ..*old(self)
            }),
            final(self).input@ == Seq::<char>::empty(),
    {
        let refresh = self.dirty;
        self.open = false;
        self.input = String::new();
        self.dirty = false;
        refresh
    }

    /// Records that the workspaces changed, when the dialog is open.
    pub fn mark_dirty(&mut self)
        ensures
            *final(self) == (RepoWorkspaceDialogState {
                dirty: old(self).dirty || old(self).open,
                ..*old(self)
            }),
    {
        if self.open {
            self.dirty = true;
        }
    }

    /// Takes the workspaces as they are now: the input clears, the
    /// selection stays within the list, and an open dialog with no
    /// workspace left focuses the input.
    pub fn sync_workspaces(&mut self, workspaces: &Vec<RepositoryWorkspace>)
        ensures
            *final(self) == (RepoWorkspaceDialogState {
                input: final(self).input,
                selected: clamped(old(self).selected as int, workspaces@.len() as int) as usize,
                focus: if old(self).open && workspaces@.len() == 0 {
                    RepoWorkspaceDialogFocus::Add
                } else {
                    old(self).focus
                },
                ..*old(self)
            }),
            final(self).input@ == Seq::<char>::empty(),
    {
        self.input = String::new();
        self.selected = clamp_index(self.selected, workspaces.len());
        if self.open && workspaces.len() == 0 {
            self.focus = RepoWorkspaceDialogFocus::Add;
        }
    }

    fn remove_selected(&self, workspaces: &Vec<RepositoryWorkspace>) -> (r: RepoWorkspaceDialogAction)
        ensures
            r == removal(self.selected, workspaces@),
    {
        if self.selected < workspaces.len() {
            let path = clone_string(&workspaces[self.selected].path);
            RepoWorkspaceDialogAction::Remove(path)
        } else {
            RepoWorkspaceDialogAction::MissingSelection
        }
    }

    fn move_selection(&mut self, delta: isize, workspaces: &Vec<RepositoryWorkspace>)
        ensures
            *final(self) == moved_in_list(*old(self), delta as int, workspaces@),
    {
        if workspaces.len() == 0 {
            self.selected = 0;
            self.focus = RepoWorkspaceDialogFocus::Add;
            return;
        }
        self.selected = wrap_index(self.selected, delta, workspaces.len());
    }

    /// Handles a key in the dialog.
    pub fn handle_key(&mut self, key: Key, workspaces: &Vec<RepositoryWorkspace>) -> (r: RepoWorkspaceDialogAction)
        ensures
            dialog_key_step(*old(self), *final(self), key, workspaces@, r),
    {
        let on_list = match self.focus {
            RepoWorkspaceDialogFocus::List => true,
            RepoWorkspaceDialogFocus::Add => false,
        };
        match key.code {
            KeyCode::Esc => {
                let refresh = self.close();
                RepoWorkspaceDialogAction::Close { refresh }
            },
            KeyCode::Tab => {
                self.focus = if on_list || workspaces.len() == 0 {
                    RepoWorkspaceDialogFocus::Add
                } else {
                    RepoWorkspaceDialogFocus::List
                };
                RepoWorkspaceDialogAction::Nothing
            },
            KeyCode::Left => {
                if workspaces.len() > 0 {
                    self.focus = RepoWorkspaceDialogFocus::List;
                }
                RepoWorkspaceDialogAction::Nothing
            },
            KeyCode::Right => {
                self.focus = RepoWorkspaceDialogFocus::Add;
                RepoWorkspaceDialogAction::Nothing
            },
            KeyCode::Down => {
                if on_list {
                    self.move_selection(1, workspaces);
                }
                RepoWorkspaceDialogAction::Nothing
            },
            KeyCode::Up => {
                if on_list {
                    self.move_selection(-1, workspaces);
                }
                RepoWorkspaceDialogAction::Nothing
            },
            KeyCode::Enter => {
                if on_list {
                    self.remove_selected(workspaces)
                } else {
                    let paths = parse_paths(self.input.as_str());
                    if paths.len() == 0 {
                        RepoWorkspaceDialogAction::MissingInput
                    } else {
                        RepoWorkspaceDialogAction::Add(paths)
                    }
                }
            },
            KeyCode::Char(c) => {
                if on_list {
                    if is_plain_character(&key) && (c == ' ' || c == '-') {
                        self.remove_selected(workspaces)
                    } else {
                        RepoWorkspaceDialogAction::Nothing
                    }
                } else if is_plain_character(&key) {
                    push_char(&mut self.input, c);
                    RepoWorkspaceDialogAction::Nothing
                } else {
                    RepoWorkspaceDialogAction::Nothing
                }
            },
            KeyCode::Delete => {
                if on_list {
                    self.remove_selected(workspaces)
                } else {
                    RepoWorkspaceDialogAction::Nothing
                }
            },
            KeyCode::Backspace => {
                if !on_list {
                    pop_char(&mut self.input);
                }
                RepoWorkspaceDialogAction::Nothing
            },
            _ => RepoWorkspaceDialogAction::Nothing,
        }
    }
}

} // verus!
