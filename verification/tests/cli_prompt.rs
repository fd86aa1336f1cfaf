use workon::command::{shell_install_command_for_prompt, Command};
use workon::cli::{
    after_tui, choose_intent, install_accepted, open_or_create, parse_number, should_offer_shell_install,
    should_run_tui, OpenOrCreateStep, TuiOutcomeStep,
};
use workon::domain::OpenedWork;
use workon::error::WorkonError;

#[test]
fn prompt_install_uses_development_hook_when_dev_manifest_is_present() {
    let manifest = "/repo/Cargo.toml".to_string();

    assert_eq!(
        shell_install_command_for_prompt(Some(manifest.clone())),
        Command::InstallDevShell {
            manifest_path: manifest
        }
    );
}

#[test]
fn prompt_install_uses_production_hook_without_dev_manifest() {
    assert_eq!(
        shell_install_command_for_prompt(None),
        Command::InstallShell
    );
}

#[test]
fn tui_runs_only_for_a_plain_list_on_a_terminal() {
    assert!(should_run_tui(&Command::ListWorks, false, true, true, true));
    assert!(!should_run_tui(&Command::ListWorks, true, true, true, true));
    assert!(!should_run_tui(&Command::ListWorks, false, false, true, true));
    assert!(!should_run_tui(&Command::ListWorks, false, true, true, false));
    assert!(!should_run_tui(&Command::ListIntents, false, true, true, true));
}

#[test]
fn shell_install_is_offered_before_folder_switches() {
    let open = Command::OpenWork { query: "billing".to_string() };
    assert!(should_offer_shell_install(&open, false, false, true));
    assert!(!should_offer_shell_install(&open, false, true, true));
    assert!(!should_offer_shell_install(&open, true, false, true));
    assert!(!should_offer_shell_install(&Command::ListWorks, false, false, true));
}

#[test]
fn install_answer_accepts_y_and_yes() {
    assert!(install_accepted(" Y\n"));
    assert!(install_accepted("yes"));
    assert!(install_accepted("YES "));
    assert!(!install_accepted("no"));
    assert!(!install_accepted(""));
}

#[test]
fn numbers_parse_like_usize() {
    assert_eq!(parse_number("12"), Some(12));
    assert_eq!(parse_number("+3"), Some(3));
    assert_eq!(parse_number("0"), Some(0));
    assert_eq!(parse_number(""), None);
    assert_eq!(parse_number("+"), None);
    assert_eq!(parse_number("-1"), None);
    assert_eq!(parse_number("1a"), None);
    assert_eq!(parse_number("99999999999999999999999"), None);
    assert_eq!(parse_number(&usize::MAX.to_string()), Some(usize::MAX));
}

#[test]
fn intent_selection_by_number_or_id() {
    let intents = vec![
        ("investigate".to_string(), "Answer with evidence.".to_string()),
        ("review-pr".to_string(), "Review a pull request.".to_string()),
    ];
    assert_eq!(choose_intent(" 2 ", &intents), Ok("review-pr".to_string()));
    assert_eq!(choose_intent("0", &intents), Ok("investigate".to_string()));
    assert_eq!(choose_intent("review-pr", &intents), Ok("review-pr".to_string()));
    assert_eq!(
        choose_intent("9", &intents),
        Err(WorkonError::UnknownIntent {
            intent_id: "9".to_string(),
            available: vec!["investigate".to_string(), "review-pr".to_string()],
        })
    );
    let error = choose_intent("nope", &intents).unwrap_err();
    assert_eq!(error.message(), "unknown intent `nope`; available: investigate, review-pr");
}

#[test]
fn unmatched_text_creates_work_with_the_blank_intent() {
    let missing = Err(WorkonError::WorkNotFound { query: "ship it".to_string() });
    assert_eq!(
        open_or_create("ship it", None, missing.clone()),
        OpenOrCreateStep::Create { goal: "ship it".to_string(), intent_id: "blank".to_string() }
    );
    assert_eq!(
        open_or_create("ship it", Some("investigate".to_string()), missing),
        OpenOrCreateStep::Create { goal: "ship it".to_string(), intent_id: "investigate".to_string() }
    );
    let opened = OpenedWork {
        title: "Ship".to_string(),
        slug: "ship".to_string(),
        goal: "g".to_string(),
        intent_id: "blank".to_string(),
        path: "/w/ship".to_string(),
    };
    assert_eq!(open_or_create("ship", None, Ok(opened.clone())), OpenOrCreateStep::Open(opened));
    let ambiguous = WorkonError::AmbiguousWork { query: "s".to_string(), matches: Vec::new() };
    assert_eq!(
        open_or_create("s", None, Err(ambiguous.clone())),
        OpenOrCreateStep::Fail(ambiguous)
    );
}

#[test]
fn unavailable_tui_falls_back_to_the_list_with_a_warning() {
    let step = after_tui(Err(WorkonError::TuiUnavailable {
        message: "cursor position could not be read".to_string(),
    }));
    match step {
        TuiOutcomeStep::ListInstead { warning } => assert_eq!(
            warning,
            "warning: TUI unavailable (cursor position could not be read); showing list instead."
        ),
        other => panic!("expected the list fallback, got {other:?}"),
    }
    assert!(matches!(after_tui(Ok(None)), TuiOutcomeStep::Nothing));
    assert!(matches!(
        after_tui(Err(WorkonError::MissingArgument { message: "x".to_string() })),
        TuiOutcomeStep::Fail(WorkonError::MissingArgument { .. })
    ));
}
