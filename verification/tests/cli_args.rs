use workon::cli_args::{parse_args, CliRequest};
use workon::command::Command;

#[test]
fn empty_args_allow_tui_list() {
    let request = parse_args(Vec::new(), None).expect("args should parse");

    assert_eq!(
        request,
        CliRequest::Command {
            command: Command::ListWorks,
            machine: false,
            allow_tui: true,
        }
    );
}

#[test]
fn treats_double_dash_as_option_terminator() {
    let request = parse_args(vec![
        "--".to_string(),
        "answer-technical-question-manager-2".to_string(),
    ], None)
    .expect("args should parse");

    assert_eq!(
        request,
        CliRequest::Command {
            command: Command::OpenOrCreate {
                input: "answer-technical-question-manager-2".to_string(),
                intent_id: None,
            },
            machine: false,
            allow_tui: false,
        }
    );
}

#[test]
fn double_dash_allows_goal_starting_with_dash() {
    for (args, input) in [
        (vec!["--", "--machien", "list"], "--machien list"),
        (vec!["--", "--help"], "--help"),
        (vec!["--", "-h"], "-h"),
        (vec!["repos", "--", "--help"], "repos --help"),
    ] {
        let request = parse_args(args.into_iter().map(String::from).collect(), None)
            .expect("args should parse");

        assert_eq!(
            request,
            CliRequest::Command {
                command: Command::OpenOrCreate {
                    input: input.to_string(),
                    intent_id: None,
                },
                machine: false,
                allow_tui: false,
            }
        );
    }
}

#[test]
fn unknown_options_do_not_create_work() {
    let error = parse_args(vec!["--machien".to_string(), "list".to_string()], None)
        .expect_err("unknown options should fail");

    assert_eq!(
        error.message(),
        "unknown option `--machien`. Use `--` before a work goal that starts with `-`."
    );
}

#[test]
fn treats_lone_double_dash_as_empty_args() {
    let request = parse_args(vec!["--".to_string()], None).expect("args should parse");

    assert_eq!(
        request,
        CliRequest::Command {
            command: Command::ListWorks,
            machine: false,
            allow_tui: true,
        }
    );
}

#[test]
fn parses_shell_install_commands() {
    assert_eq!(
        parse_args(vec!["install-shell".to_string()], None).expect("args should parse"),
        CliRequest::Command {
            command: Command::InstallShell,
            machine: false,
            allow_tui: false,
        }
    );

    assert_eq!(
        parse_args(
            vec!["install-dev-shell".to_string()],
            Some("/repo/Cargo.toml".to_string())
        )
        .expect("args should parse"),
        CliRequest::Command {
            command: Command::InstallDevShell {
                manifest_path: "/repo/Cargo.toml".into(),
            },
            machine: false,
            allow_tui: false,
        }
    );

    assert_eq!(
        parse_args(vec!["--machine".to_string(), "install-shell".to_string()], None)
            .expect("args should parse"),
        CliRequest::Command {
            command: Command::InstallShell,
            machine: false,
            allow_tui: false,
        }
    );
}

#[test]
fn shell_install_commands_reject_extra_arguments() {
    for (args, expected) in [
        (
            vec!["install-shell".to_string(), "now".to_string()],
            "install-shell does not accept extra arguments. Use `wo \"install-shell ...\"` to create a Work goal that starts with install-shell.",
        ),
        (
            vec!["install-dev-shell".to_string(), "now".to_string()],
            "install-dev-shell does not accept extra arguments. Use `wo \"install-dev-shell ...\"` to create a Work goal that starts with install-dev-shell.",
        ),
    ] {
        let error = parse_args(args, None).expect_err("shell install extras should fail");

        assert_eq!(error.message(), expected);
    }
}

#[test]
fn parses_version_requests() {
    for args in [
        vec!["--version".to_string()],
        vec!["-V".to_string()],
        vec!["version".to_string()],
    ] {
        assert_eq!(
            parse_args(args, None).expect("args should parse"),
            CliRequest::Version
        );
    }
}

#[test]
fn version_command_rejects_extra_arguments() {
    let error = parse_args(vec!["version".to_string(), "extra".to_string()], None)
        .expect_err("version extras should fail");

    assert_eq!(
        error.message(),
        "version does not accept extra arguments. Use `wo \"version ...\"` to create a Work goal that starts with version."
    );
}

#[test]
fn quoted_reserved_command_phrases_are_work_input() {
    for input in [
        "version extra",
        "install-shell now",
        "install-dev-shell now",
    ] {
        assert_eq!(
            parse_args(vec![input.to_string()], None).expect("args should parse"),
            CliRequest::Command {
                command: Command::OpenOrCreate {
                    input: input.to_string(),
                    intent_id: None,
                },
                machine: false,
                allow_tui: false,
            }
        );
    }
}

#[test]
fn intent_option_rejects_command_invocations() {
    for args in [
        vec!["--intent", "investigate", "list"],
        vec!["--intent", "investigate", "archive", "billing"],
        vec!["--intent", "investigate", "repos"],
        vec!["--intent", "investigate", "intent", "list"],
        vec!["--intent", "investigate", "help"],
        vec!["--intent", "investigate", "version"],
        vec!["--intent", "investigate", "install-shell"],
        vec!["--intent", "investigate", "install-dev-shell"],
    ] {
        let args = args.into_iter().map(String::from).collect();
        let error = parse_args(args, None).expect_err("--intent command misuse should fail");

        assert_eq!(
            error.message(),
            "--intent can only be used when creating or opening Work. Use `--` before a Work goal that starts with a command name."
        );
    }
}

#[test]
fn intent_option_without_work_goal_is_actionable() {
    let error = parse_args(vec!["--intent".to_string(), "investigate".to_string()], None)
        .expect_err("missing intent goal should fail");

    assert_eq!(
        error.message(),
        "--intent requires a work goal. Use `wo --intent investigate \"<goal>\"`."
    );
}

#[test]
fn intent_option_allows_command_like_work_goal_after_terminator() {
    assert_eq!(
        parse_args(vec![
            "--intent".to_string(),
            "investigate".to_string(),
            "--".to_string(),
            "list".to_string(),
        ], None)
        .expect("args should parse"),
        CliRequest::Command {
            command: Command::OpenOrCreate {
                input: "list".to_string(),
                intent_id: Some("investigate".to_string()),
            },
            machine: false,
            allow_tui: false,
        }
    );
}

#[test]
fn parses_archive_command() {
    assert_eq!(
        parse_args(vec!["archive".to_string(), "billing".to_string()], None)
            .expect("args should parse"),
        CliRequest::Command {
            command: Command::ArchiveWork {
                query: "billing".to_string(),
            },
            machine: false,
            allow_tui: false,
        }
    );

    assert_eq!(
        parse_args(vec![
            "--machine".to_string(),
            "archive".to_string(),
            "billing".to_string()
        ], None)
        .expect("args should parse"),
        CliRequest::Command {
            command: Command::ArchiveWork {
                query: "billing".to_string(),
            },
            machine: true,
            allow_tui: false,
        }
    );
}

#[test]
fn archive_requires_query() {
    let error =
        parse_args(vec!["archive".to_string()], None).expect_err("archive without query should fail");

    assert_eq!(error.message(), "archive requires a work query");
}

#[test]
fn parses_explicit_list_command() {
    assert_eq!(
        parse_args(vec!["list".to_string()], None).expect("args should parse"),
        CliRequest::Command {
            command: Command::ListWorks,
            machine: false,
            allow_tui: false,
        }
    );

    assert_eq!(
        parse_args(vec!["--machine".to_string(), "list".to_string()], None)
            .expect("args should parse"),
        CliRequest::Command {
            command: Command::ListWorks,
            machine: true,
            allow_tui: false,
        }
    );
}

#[test]
fn list_command_rejects_extra_arguments() {
    for args in [
        vec!["list".to_string(), "active".to_string()],
        vec!["list".to_string(), "--json".to_string()],
    ] {
        let error = parse_args(args, None).expect_err("list extras should fail");

        assert_eq!(
            error.message(),
            "list does not accept extra arguments. Use `wo \"list ...\"` to create a Work goal that starts with list."
        );
    }
}

#[test]
fn quoted_list_phrase_is_work_input() {
    assert_eq!(
        parse_args(vec!["list active".to_string()], None).expect("args should parse"),
        CliRequest::Command {
            command: Command::OpenOrCreate {
                input: "list active".to_string(),
                intent_id: None,
            },
            machine: false,
            allow_tui: false,
        }
    );
}

#[test]
fn treats_ctx_as_work_input() {
    for input in ["ctx", "context"] {
        assert_eq!(
            parse_args(vec![input.to_string()], None).expect("args should parse"),
            CliRequest::Command {
                command: Command::OpenOrCreate {
                    input: input.to_string(),
                    intent_id: None,
                },
                machine: false,
                allow_tui: false,
            }
        );
    }
}

#[test]
fn parses_repository_help_requests() {
    for args in [
        vec!["repos".to_string()],
        vec!["repos".to_string(), "--help".to_string()],
        vec!["repos".to_string(), "-h".to_string()],
        vec!["repos".to_string(), "help".to_string()],
        vec!["repos".to_string(), "add".to_string(), "--help".to_string()],
        vec!["help".to_string(), "repos".to_string()],
        vec!["--machine".to_string(), "repos".to_string()],
    ] {
        assert_eq!(
            parse_args(args, None).expect("args should parse"),
            CliRequest::ReposHelp
        );
    }
}

#[test]
fn parses_general_help_command() {
    assert_eq!(
        parse_args(vec!["help".to_string()], None).expect("args should parse"),
        CliRequest::Help
    );
}

#[test]
fn help_command_rejects_extra_arguments() {
    for (args, expected) in [
        (
            vec!["help".to_string(), "repos".to_string(), "extra".to_string()],
            "help repos does not accept extra arguments",
        ),
        (
            vec!["help".to_string(), "intent".to_string(), "extra".to_string()],
            "help intent does not accept extra arguments",
        ),
        (
            vec!["help".to_string(), "unknown".to_string()],
            "unknown help topic `unknown`. Use `wo help`, `wo help repos`, or `wo help intent`.",
        ),
    ] {
        let error = parse_args(args, None).expect_err("help misuse should fail");

        assert_eq!(error.message(), expected);
    }
}

#[test]
fn quoted_help_phrase_is_work_input() {
    assert_eq!(
        parse_args(vec!["help repos extra".to_string()], None).expect("args should parse"),
        CliRequest::Command {
            command: Command::OpenOrCreate {
                input: "help repos extra".to_string(),
                intent_id: None,
            },
            machine: false,
            allow_tui: false,
        }
    );
}

#[test]
fn parses_intent_help_requests() {
    for args in [
        vec!["intent".to_string()],
        vec!["intent".to_string(), "--help".to_string()],
        vec!["intent".to_string(), "-h".to_string()],
        vec!["intent".to_string(), "help".to_string()],
        vec![
            "intent".to_string(),
            "switch".to_string(),
            "--help".to_string(),
        ],
        vec!["help".to_string(), "intent".to_string()],
        vec!["--machine".to_string(), "intent".to_string()],
    ] {
        assert_eq!(
            parse_args(args, None).expect("args should parse"),
            CliRequest::IntentHelp
        );
    }
}

#[test]
fn parses_intent_commands() {
    assert_eq!(
        parse_args(vec!["intent".to_string(), "list".to_string()], None).expect("args should parse"),
        CliRequest::Command {
            command: Command::ListIntents,
            machine: false,
            allow_tui: false,
        }
    );

    assert_eq!(
        parse_args(vec![
            "intent".to_string(),
            "show".to_string(),
            "investigate".to_string()
        ], None)
        .expect("args should parse"),
        CliRequest::Command {
            command: Command::ShowIntent {
                intent_id: "investigate".to_string(),
            },
            machine: false,
            allow_tui: false,
        }
    );

    assert_eq!(
        parse_args(vec![
            "intent".to_string(),
            "switch".to_string(),
            "payment".to_string(),
            "retry".to_string(),
            "review-pr".to_string()
        ], None)
        .expect("args should parse"),
        CliRequest::Command {
            command: Command::SwitchWorkIntent {
                query: "payment retry".to_string(),
                intent_id: "review-pr".to_string(),
            },
            machine: false,
            allow_tui: false,
        }
    );

    let error = parse_args(vec!["intent".to_string(), "new".to_string()], None)
        .expect_err("intent authoring is config-file based");
    assert_eq!(error.message(), "intent requires list, show, or switch");
}

#[test]
fn fixed_arity_commands_reject_extra_arguments() {
    let cases = [
        (
            vec!["intent", "show", "investigate", "extra"],
            "intent show accepts exactly one intent id",
        ),
        (
            vec!["intent", "list", "extra"],
            "intent list does not accept extra arguments",
        ),
        (
            vec!["repos", "workspace", "list", "extra"],
            "repos workspace list does not accept extra arguments",
        ),
        (
            vec!["repos", "workspace", "remove", "/tmp/repos", "extra"],
            "repos workspace remove accepts exactly one path",
        ),
        (
            vec!["repos", "help", "extra"],
            "repos help does not accept extra arguments",
        ),
        (
            vec!["intent", "help", "extra"],
            "intent help does not accept extra arguments",
        ),
    ];

    for (args, expected) in cases {
        let args = args.into_iter().map(String::from).collect();
        let error = parse_args(args, None).expect_err("extra arguments should fail");

        assert_eq!(error.message(), expected);
    }
}

#[test]
fn repository_commands_reject_unknown_options() {
    for (args, expected) in [
        (
            vec!["repos", "list", "--json"],
            "unknown repos list option `--json`",
        ),
        (
            vec!["repos", "discover", "--json"],
            "unknown repos discover option `--json`",
        ),
        (
            vec!["repos", "link", "--work", "/tmp/repo"],
            "unknown repos link option `--work`",
        ),
        (
            vec!["repos", "add", "--workspcae", "/tmp/repos", "billing", "openai/workon"],
            "unknown repos add option `--workspcae`. Use `--workspace <path>` before the work query.",
        ),
        (
            vec!["repos", "remove", "--froce", "billing", "openai/workon"],
            "unknown repos remove option `--froce`",
        ),
    ] {
        let args = args.into_iter().map(String::from).collect();
        let error = parse_args(args, None).expect_err("unknown repo option should fail");

        assert_eq!(error.message(), expected);
    }
}

#[test]
fn parses_force_repository_remove() {
    assert_eq!(
        parse_args(vec![
            "repos".to_string(),
            "remove".to_string(),
            "--force".to_string(),
            "billing".to_string(),
            "openai/workon".to_string(),
        ], None)
        .expect("args should parse"),
        CliRequest::Command {
            command: Command::RemoveWorkRepositories {
                query: "billing".to_string(),
                repositories: vec!["openai/workon".to_string()],
                force: true,
            },
            machine: false,
            allow_tui: false,
        }
    );
}

#[test]
fn repository_add_and_remove_accept_multiword_work_queries() {
    assert_eq!(
        parse_args(vec![
            "repos".to_string(),
            "add".to_string(),
            "payment".to_string(),
            "retry".to_string(),
            "openai/workon".to_string(),
        ], None)
        .expect("args should parse"),
        CliRequest::Command {
            command: Command::AddWorkRepositories {
                query: "payment retry".to_string(),
                repositories: vec!["openai/workon".to_string()],
                workspace: None,
            },
            machine: false,
            allow_tui: false,
        }
    );

    assert_eq!(
        parse_args(vec![
            "repos".to_string(),
            "remove".to_string(),
            "--force".to_string(),
            "payment".to_string(),
            "retry".to_string(),
            "openai/workon".to_string(),
        ], None)
        .expect("args should parse"),
        CliRequest::Command {
            command: Command::RemoveWorkRepositories {
                query: "payment retry".to_string(),
                repositories: vec!["openai/workon".to_string()],
                force: true,
            },
            machine: false,
            allow_tui: false,
        }
    );
}

#[test]
fn repository_add_and_remove_accept_command_local_terminator() {
    assert_eq!(
        parse_args(vec![
            "repos".to_string(),
            "add".to_string(),
            "payment".to_string(),
            "retry".to_string(),
            "--".to_string(),
            "openai/workon".to_string(),
        ], None)
        .expect("args should parse"),
        CliRequest::Command {
            command: Command::AddWorkRepositories {
                query: "payment retry".to_string(),
                repositories: vec!["openai/workon".to_string()],
                workspace: None,
            },
            machine: false,
            allow_tui: false,
        }
    );

    assert_eq!(
        parse_args(vec![
            "repos".to_string(),
            "remove".to_string(),
            "--force".to_string(),
            "payment".to_string(),
            "retry".to_string(),
            "--".to_string(),
            "openai/workon".to_string(),
        ], None)
        .expect("args should parse"),
        CliRequest::Command {
            command: Command::RemoveWorkRepositories {
                query: "payment retry".to_string(),
                repositories: vec!["openai/workon".to_string()],
                force: true,
            },
            machine: false,
            allow_tui: false,
        }
    );
}

#[test]
fn repository_link_accepts_multiword_work_query_before_path_like_arguments() {
    assert_eq!(
        parse_args(vec![
            "repos".to_string(),
            "link".to_string(),
            "payment".to_string(),
            "retry".to_string(),
            "/tmp/workon".to_string(),
            "./api".to_string(),
        ], None)
        .expect("args should parse"),
        CliRequest::Command {
            command: Command::LinkWorkRepositories {
                query: "payment retry".to_string(),
                paths: vec!["/tmp/workon".into(), "./api".into()],
            },
            machine: false,
            allow_tui: false,
        }
    );
}

#[test]
fn repository_link_accepts_command_local_terminator() {
    assert_eq!(
        parse_args(vec![
            "repos".to_string(),
            "link".to_string(),
            "payment".to_string(),
            "retry".to_string(),
            "--".to_string(),
            "/tmp/workon".to_string(),
            "./api".to_string(),
        ], None)
        .expect("args should parse"),
        CliRequest::Command {
            command: Command::LinkWorkRepositories {
                query: "payment retry".to_string(),
                paths: vec!["/tmp/workon".into(), "./api".into()],
            },
            machine: false,
            allow_tui: false,
        }
    );
}
