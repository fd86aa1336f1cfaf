use workon::output::display_folder;
use workon::domain::{AttachedRepository, AvailableRepository, RepositoryCandidate};
use workon::repo_catalog::RepoCatalogRow;
use workon::repo_picker::RepoPickerState;
use workon::repo_rows::{
    catalog_header_cells, catalog_row_cells, catalog_row_detail, compact_path,
    detail_value_width, fit_padded, fit_text, repo_columns, row_path, Truncate,
};

#[test]
fn repo_columns_drop_optional_columns_by_width() {
    let compact = repo_columns(48);
    let medium = repo_columns(96);
    let wide = repo_columns(128);

    assert_eq!(compact.source, 0);
    assert_eq!(compact.branch, 0);
    assert_eq!(compact.status, 0);
    assert_eq!(medium.source, 8);
    assert_eq!(medium.branch, 14);
    assert_eq!(medium.status, 0);
    assert_eq!(wide.source, 8);
    assert_eq!(wide.branch, 18);
    assert_eq!(wide.status, 8);
}

#[test]
fn repo_columns_give_the_name_the_rest_of_the_width() {
    assert_eq!(repo_columns(96).name, 96 - (7 + 8 + 14 + 2));
    assert_eq!(repo_columns(10).name, 12);
}

#[test]
fn fit_text_truncates_from_requested_edge() {
    assert_eq!(fit_text("openai/workon", 9, Truncate::End), "openai...");
    assert_eq!(fit_text("openai/workon", 9, Truncate::Start), "...workon");
}

#[test]
fn fit_text_keeps_short_text_and_uses_dots_when_narrow() {
    assert_eq!(fit_text("api", 9, Truncate::End), "api");
    assert_eq!(fit_text("openai/workon", 2, Truncate::End), "..");
    assert_eq!(fit_text("openai/workon", 0, Truncate::Start), "");
    assert_eq!(fit_padded("api", 5, Truncate::End), "api  ");
}

#[test]
fn row_path_prefers_workspace_relative_paths() {
    let workspace = "/tmp/repos";

    assert_eq!(
        row_path("/tmp/repos/client/api", Some(workspace), None),
        "./client/api"
    );
}

#[test]
fn row_path_falls_back_to_home_relative_paths() {
    assert_eq!(row_path("/tmp/repos", Some("/tmp/repos"), None), ".");
    assert_eq!(row_path("/home/me/code/x", Some("/tmp/repos"), Some("/home/me")), "~/code/x");
    assert_eq!(compact_path("/home/me", Some("/home/me")), "~");
    assert_eq!(compact_path("/home/meta", Some("/home/me")), "/home/meta");
    assert_eq!(compact_path("/home/me/x", Some("")), "/home/me/x");
    assert_eq!(compact_path("/home/me/x", None), "/home/me/x");
}

#[test]
fn detail_value_width_prefers_three_fifths_with_a_floor() {
    assert_eq!(detail_value_width("a", 0), 0);
    assert_eq!(detail_value_width("short", 100), 16);
    assert_eq!(detail_value_width(&"x".repeat(80), 100), 60);
    assert_eq!(detail_value_width(&"x".repeat(30), 100), 30);
    assert_eq!(detail_value_width(&"x".repeat(30), 10), 10);
}

#[test]
fn catalog_rows_mark_selection_and_pending_changes() {
    let mut picker = RepoPickerState::new();
    picker.pending_add = vec!["openai/api".to_string()];
    let row = RepoCatalogRow::GitHub(AvailableRepository {
        name_with_owner: "openai/api".to_string(),
        default_branch: "main".to_string(),
        url: "https://github.com/openai/api".to_string(),
        ssh_url: "git@github.com:openai/api.git".to_string(),
    });

    let cells = catalog_row_cells(&row, &picker, 0, 128);

    assert_eq!(cells.anchor, ">>");
    assert_eq!(cells.marker, "[x]");
    assert!(cells.name.starts_with("openai/api"));
    assert_eq!(cells.source.as_deref(), Some("github  "));
    assert_eq!(cells.status.as_deref(), Some("ADD     "));

    let other = catalog_row_cells(&row, &picker, 1, 48);
    assert_eq!(other.anchor, "  ");
    assert_eq!(other.source, None);
    assert_eq!(other.branch, None);
}

#[test]
fn catalog_rows_mark_forced_removal() {
    let mut picker = RepoPickerState::new();
    picker.attached = vec![AttachedRepository {
        name_with_owner: "openai/workon".to_string(),
        branch: "workon/billing".to_string(),
        path: "/tmp/repos/workon".to_string(),
        default_branch: "main".to_string(),
        url: "https://github.com/openai/workon".to_string(),
    }];
    picker.pending_remove = vec!["openai/workon".to_string()];
    picker.force_remove = true;
    let row = RepoCatalogRow::Attached(picker.attached[0].clone());

    let cells = catalog_row_cells(&row, &picker, 0, 128);

    assert_eq!(cells.marker, "[!]");
    assert_eq!(cells.status.as_deref(), Some("FORCE   "));
    let header = catalog_header_cells(128);
    assert!(header.name.starts_with("REPOSITORY"));
    assert_eq!(header.status.as_deref(), Some("STATE   "));
}

#[test]
fn row_detail_shows_local_paths_from_the_workspace() {
    let row = RepoCatalogRow::Local(RepositoryCandidate {
        name_with_owner: "openai/tool".to_string(),
        branch: "main".to_string(),
        path: "/tmp/repos/tool".to_string(),
        url: "https://github.com/openai/tool".to_string(),
    });

    let detail = catalog_row_detail(&row, 80, Some("/tmp/repos"), None, None);

    assert_eq!(detail.indent, 7);
    assert_eq!(detail.key, "path");
    assert!(detail.value.starts_with("/tmp/repos/tool"));
    let (key, value) = detail.secondary.expect("work path");
    assert_eq!(key, "work");
    assert_eq!(value, "./tool");
}

#[test]
fn row_detail_of_a_github_row_without_workspace_says_so() {
    let row = RepoCatalogRow::GitHub(AvailableRepository {
        name_with_owner: "openai/api".to_string(),
        default_branch: "main".to_string(),
        url: "https://github.com/openai/api".to_string(),
        ssh_url: "git@github.com:openai/api.git".to_string(),
    });

    let detail = catalog_row_detail(&row, 80, None, None, None);

    assert_eq!(detail.key, "worktree");
    assert_eq!(detail.value, "workspace not set");
    assert_eq!(detail.secondary, None);
}

#[test]
fn paths_are_compared_by_whole_components() {
    assert_eq!(compact_path("/home/me//code", Some("/home/me")), "~/code");
    assert_eq!(compact_path("/home/me/./code", Some("/home/me")), "~/code");
    assert_eq!(row_path("/tmp/repos//api", Some("/tmp/repos/"), None), "./api");
    assert_eq!(row_path("/tmp/repos-old/api", Some("/tmp/repos"), None), "/tmp/repos-old/api");
}

#[test]
fn work_folders_are_shown_below_the_root_by_components() {
    assert_eq!(display_folder("/r/./a", "/r"), "a");
    assert_eq!(display_folder("/r//a", "/r/a"), "");
    assert_eq!(display_folder("/ra/b", "/r"), "/ra/b");
}
