use workon::error::WorkonError;
use workon::shell::{
    dev_runner, development_script, production_script, render_shell_integration, root_from_env,
    shell_quote, shell_target, source_line, updated_startup_text, ShellSyntax,
};

#[test]
fn mod_quotes_shell_values_with_single_quotes() {
    assert_eq!(shell_quote("alpha'beta"), "'alpha'\\''beta'");
}

#[test]
fn work_shell_quotes_shell_values_with_single_quotes() {
    assert_eq!(shell_quote("alpha'beta"), "'alpha'\\''beta'");
}

#[test]
fn generated_script_defines_workon_function_and_cd_signal() {
    let script = render_shell_integration("'wo'", None, ShellSyntax::Posix);

    assert!(script.contains("wo()"));
    assert!(script.contains("__WORKON_CD="));
    assert!(script.contains("cd \"$workon_cd\""));
    assert!(script.contains("WORKON_SIGNAL_FILE=\"$workon_signal_file\" 'wo' \"$@\""));
    assert!(script.contains("'wo' --machine \"$@\""));
    assert!(!script.contains("just()"));
}

#[test]
fn generated_dev_script_intercepts_just_wo() {
    let script = render_shell_integration(
        "cargo run --manifest-path '/repo/Cargo.toml' --",
        Some("/repo"),
        ShellSyntax::Posix,
    );

    assert!(script.contains("export WORKON_DEV_ROOT='/repo'"));
    assert!(script.contains("just()"));
    assert!(script.contains("wo \"$@\""));
    assert!(script.contains("cargo run --manifest-path '/repo/Cargo.toml' -- \"$@\""));
    assert!(script.contains("cargo run --manifest-path '/repo/Cargo.toml' -- --machine \"$@\""));
}

#[test]
fn fish_source_line_uses_fish_syntax() {
    assert_eq!(
        source_line("/tmp/workon test/wo", ShellSyntax::Fish),
        "test -f '/tmp/workon test/wo'; and source '/tmp/workon test/wo'"
    );
}

#[test]
fn generated_fish_script_defines_workon_function_and_cd_signal() {
    let script = render_shell_integration("'wo'", None, ShellSyntax::Fish);

    assert!(script.contains("function wo"));
    assert!(script.contains("WORKON_SIGNAL_FILE=\"$workon_signal_file\" 'wo' $argv"));
    assert!(script.contains("'wo' --machine $argv"));
    assert!(script.contains("cd \"$workon_cd\""));
    assert!(!script.contains("function just"));
}

#[test]
fn generated_fish_dev_script_intercepts_just_wo() {
    let script = render_shell_integration(
        "cargo run --manifest-path '/repo/Cargo.toml' --",
        Some("/repo"),
        ShellSyntax::Fish,
    );

    assert!(script.contains("set -gx WORKON_DEV_ROOT '/repo'"));
    assert!(script.contains("function just"));
    assert!(script.contains("wo $argv"));
    assert!(script.contains("cargo run --manifest-path '/repo/Cargo.toml' -- $argv"));
    assert!(script.contains("cargo run --manifest-path '/repo/Cargo.toml' -- --machine $argv"));
}

#[test]
fn source_line_is_idempotent() {
    let line = source_line("/tmp/workon-test/wo", ShellSyntax::Posix);
    let first = updated_startup_text("", &line).expect("first install adds the line");
    assert!(updated_startup_text(&first, &line).is_none());
    assert_eq!(first.matches("Workon shell integration").count(), 1);
}

#[test]
fn posix_source_line_tests_then_sources() {
    assert_eq!(
        source_line("/tmp/wo", ShellSyntax::Posix),
        "[ -f '/tmp/wo' ] && source '/tmp/wo'"
    );
}

#[test]
fn startup_update_separates_existing_text_with_newline() {
    let updated = updated_startup_text("export A=1", "LINE").expect("line is missing");
    assert_eq!(updated, "export A=1\n\n# Workon shell integration\nLINE\n");
    let updated = updated_startup_text("export A=1\n", "LINE").expect("line is missing");
    assert_eq!(updated, "export A=1\n\n# Workon shell integration\nLINE\n");
}

#[test]
fn dev_runner_quotes_manifest_path() {
    assert_eq!(
        dev_runner("/repo/Cargo.toml"),
        "cargo run --manifest-path '/repo/Cargo.toml' --"
    );
}

#[test]
fn production_script_quotes_binary_path() {
    let script = production_script("/usr/bin/wo", ShellSyntax::Posix);
    assert!(script.contains("'/usr/bin/wo' --machine \"$@\""));
    assert!(!script.contains("WORKON_DEV_ROOT"));
}

#[test]
fn development_script_exports_dev_root() {
    let script = development_script("/repo/Cargo.toml", "/repo", ShellSyntax::Fish);
    assert!(script.contains("set -gx WORKON_DEV_ROOT '/repo'"));
    assert!(script.contains("cargo run --manifest-path '/repo/Cargo.toml' -- $argv"));
}

#[test]
fn shell_target_picks_startup_file_by_shell() {
    let bash = shell_target("/home/u", Some("bash".to_string())).expect("bash is supported");
    assert_eq!(bash.startup_path, "/home/u/.bashrc");
    assert_eq!(bash.syntax, ShellSyntax::Posix);
    let zsh = shell_target("/home/u", Some("zsh".to_string())).expect("zsh is supported");
    assert_eq!(zsh.startup_path, "/home/u/.zshrc");
    let fish = shell_target("/home/u", Some("fish".to_string())).expect("fish is supported");
    assert_eq!(fish.startup_path, "/home/u/.config/fish/config.fish");
    assert_eq!(fish.syntax, ShellSyntax::Fish);
}

#[test]
fn shell_target_rejects_missing_and_unknown_shells() {
    match shell_target("/home/u", None) {
        Err(WorkonError::MissingArgument { message }) => assert_eq!(
            message,
            "SHELL is required to install shell integration. Supported shells: bash, zsh, fish."
        ),
        other => panic!("unexpected {other:?}"),
    }
    match shell_target("/home/u", Some("tcsh".to_string())) {
        Err(WorkonError::MissingArgument { message }) => assert_eq!(
            message,
            "unsupported shell integration target: tcsh. Supported shells: bash, zsh, fish."
        ),
        other => panic!("unexpected {other:?}"),
    }
}

#[test]
fn root_prefers_non_empty_workon_root() {
    assert_eq!(
        root_from_env(Some("/w".to_string()), Some("/h".to_string())),
        Some("/w".to_string())
    );
    assert_eq!(
        root_from_env(Some(String::new()), Some("/h".to_string())),
        Some("/h".to_string())
    );
    assert_eq!(root_from_env(None, Some(String::new())), None);
}
