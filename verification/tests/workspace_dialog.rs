use workon::domain::RepositoryWorkspace;
use workon::keys::{Key, KeyCode};
use workon::workspace_dialog::{
    RepoWorkspaceDialogAction, RepoWorkspaceDialogFocus, RepoWorkspaceDialogState,
};

#[test]
fn opens_existing_workspaces_with_list_focused() {
    let workspaces = workspaces();
    let mut dialog = RepoWorkspaceDialogState::default();

    dialog.open(0, &workspaces);

    assert!(dialog.is_open());
    assert_eq!(dialog.focus(), RepoWorkspaceDialogFocus::List);
    assert_eq!(
        dialog.handle_key(key(KeyCode::Char(' ')), &workspaces),
        RepoWorkspaceDialogAction::Remove("/tmp/repos".to_string())
    );
}

#[test]
fn list_focus_ignores_text_so_selection_is_stable() {
    let workspaces = workspaces();
    let mut dialog = RepoWorkspaceDialogState::default();
    dialog.open(0, &workspaces);

    dialog.handle_key(key(KeyCode::Char('/')), &workspaces);
    dialog.handle_key(key(KeyCode::Down), &workspaces);

    assert_eq!(dialog.input(), "");
    assert_eq!(dialog.selected(), 1);
    assert_eq!(dialog.focus(), RepoWorkspaceDialogFocus::List);
}

#[test]
fn add_focus_accepts_paths() {
    let workspaces = workspaces();
    let mut dialog = RepoWorkspaceDialogState::default();
    dialog.open(0, &workspaces);
    dialog.handle_key(key(KeyCode::Tab), &workspaces);

    for character in "/tmp/more,/tmp/client".chars() {
        dialog.handle_key(key(KeyCode::Char(character)), &workspaces);
    }

    assert_eq!(
        dialog.handle_key(key(KeyCode::Enter), &workspaces),
        RepoWorkspaceDialogAction::Add(vec!["/tmp/more".to_string(), "/tmp/client".to_string()])
    );
}

#[test]
fn tab_returns_to_list_for_removal() {
    let workspaces = workspaces();
    let mut dialog = RepoWorkspaceDialogState::default();
    dialog.open(0, &workspaces);
    dialog.handle_key(key(KeyCode::Tab), &workspaces);
    dialog.handle_key(key(KeyCode::Char('/')), &workspaces);

    dialog.handle_key(key(KeyCode::Tab), &workspaces);
    dialog.handle_key(key(KeyCode::Down), &workspaces);

    assert_eq!(
        dialog.handle_key(key(KeyCode::Enter), &workspaces),
        RepoWorkspaceDialogAction::Remove("/tmp/client-repos".to_string())
    );
}

#[test]
fn empty_input_and_empty_list_are_reported() {
    let mut dialog = RepoWorkspaceDialogState::default();
    dialog.open(3, &Vec::new());

    assert_eq!(dialog.focus(), RepoWorkspaceDialogFocus::Add);
    assert_eq!(dialog.selected(), 0);
    assert_eq!(
        dialog.handle_key(key(KeyCode::Enter), &Vec::new()),
        RepoWorkspaceDialogAction::MissingInput
    );
    dialog.handle_key(key(KeyCode::Tab), &Vec::new());
    assert_eq!(dialog.focus(), RepoWorkspaceDialogFocus::Add);
}

#[test]
fn closing_asks_for_refresh_only_after_a_change() {
    let workspaces = workspaces();
    let mut dialog = RepoWorkspaceDialogState::default();
    dialog.open(5, &workspaces);
    assert_eq!(dialog.selected(), 1);

    assert_eq!(
        dialog.handle_key(key(KeyCode::Esc), &workspaces),
        RepoWorkspaceDialogAction::Close { refresh: false }
    );
    assert!(!dialog.is_open());

    dialog.open(0, &workspaces);
    dialog.mark_dirty();
    assert_eq!(
        dialog.handle_key(key(KeyCode::Esc), &workspaces),
        RepoWorkspaceDialogAction::Close { refresh: true }
    );
}

#[test]
fn selection_wraps_and_backspace_edits_input() {
    let workspaces = workspaces();
    let mut dialog = RepoWorkspaceDialogState::default();
    dialog.open(0, &workspaces);
    dialog.handle_key(key(KeyCode::Up), &workspaces);
    assert_eq!(dialog.selected(), 1);

    dialog.handle_key(key(KeyCode::Right), &workspaces);
    dialog.handle_key(key(KeyCode::Char('a')), &workspaces);
    dialog.handle_key(key(KeyCode::Char('b')), &workspaces);
    dialog.handle_key(key(KeyCode::Backspace), &workspaces);
    assert_eq!(dialog.input(), "a");

    dialog.sync_workspaces(&vec![workspaces[0].clone()]);
    assert_eq!(dialog.input(), "");
    assert_eq!(dialog.selected(), 0);
    assert_eq!(
        dialog.handle_key(key(KeyCode::Delete), &workspaces),
        RepoWorkspaceDialogAction::Nothing
    );
}

fn workspaces() -> Vec<RepositoryWorkspace> {
    vec![
        RepositoryWorkspace {
            path: "/tmp/repos".to_string(),
        },
        RepositoryWorkspace {
            path: "/tmp/client-repos".to_string(),
        },
    ]
}

fn key(code: KeyCode) -> Key {
    Key::plain(code)
}
