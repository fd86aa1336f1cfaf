use workon::domain::{AttachedRepository, AvailableRepository, WorkList, WorkSummary};
use workon::events::{Toast, TraceKind};
use workon::keys::{Key, KeyCode, Modifiers};
use workon::tui_state::{TuiAction, TuiMode, TuiState};

#[test]
fn state_filters_work_by_title_slug_intent_and_goal() {
    let mut state = TuiState::new(work_list());

    state.push_filter_char('r');
    state.push_filter_char('e');
    state.push_filter_char('v');

    let filtered = state.filtered_works();
    assert_eq!(filtered.len(), 1);
    assert_eq!(filtered[0].slug, "review-cache-invalidation-pr");
}

#[test]
fn state_selection_wraps_through_filtered_work() {
    let mut state = TuiState::new(work_list());

    state.move_selection(-1);
    assert_eq!(
        state.selected_work().map(|work| work.slug.as_str()),
        Some("context-command-sketch")
    );

    state.move_selection(1);
    assert_eq!(
        state.selected_work().map(|work| work.slug.as_str()),
        Some("billing-retry-audit")
    );
}

#[test]
fn state_selects_current_work_when_cwd_is_inside_work_folder() {
    let state = TuiState::new(work_list()).with_current_directory(Some(
        "/tmp/workon/.workon/work/review-cache-invalidation-pr/src",
    ));

    assert_eq!(
        state.selected_work().map(|work| work.slug.as_str()),
        Some("review-cache-invalidation-pr")
    );
    let selected = state
        .selected_work()
        .expect("current work should be selected");
    assert!(state.is_current_work(selected));
    assert_eq!(
        state.current_work_path.as_deref(),
        Some("/tmp/workon/.workon/work/review-cache-invalidation-pr")
    );
    assert_eq!(state.filtered_count(), 3);
    assert_eq!(state.total_count(), 3);
}

#[test]
fn state_leaves_all_work_active_when_cwd_is_outside_work_folders() {
    let state = TuiState::new(work_list()).with_current_directory(Some("/tmp/workon/elsewhere"));

    assert_eq!(
        state.selected_work().map(|work| work.slug.as_str()),
        Some("billing-retry-audit")
    );
    assert!(state.current_work_path.is_none());
    assert!(state.works.iter().all(|work| !state.is_current_work(work)));
}

#[test]
fn state_trace_records_newest_operational_events_first_and_caps_history() {
    let mut state = TuiState::new(work_list());

    for index in 0..10 {
        state.push_trace(TraceKind::Run, format!("event {index}"));
    }

    assert_eq!(state.trace.len(), 6);
    assert_eq!(state.trace[0].message, "event 9");
    assert_eq!(state.trace[0].kind, TraceKind::Run);
    assert_eq!(state.trace[5].message, "event 4");
}

#[test]
fn state_repo_context_keeps_github_catalog_visible_with_attached_repositories() {
    let mut state = TuiState::new(work_list());
    state.enter_repo_context(
        "billing-retry-audit".to_string(),
        "Billing retry audit".to_string(),
        available_repositories(),
        attached_repositories(),
    );

    assert_eq!(state.mode, TuiMode::Repos);
    let names = state
        .filtered_available_repositories()
        .into_iter()
        .map(|repository| repository.name_with_owner.clone())
        .collect::<Vec<_>>();

    assert_eq!(
        names,
        vec![
            "openai/api".to_string(),
            "openai/api-docs".to_string(),
            "openai/workon".to_string(),
        ]
    );
}

#[test]
fn state_tests_filters_work_by_title_slug_intent_and_goal() {
    let mut state = TuiState::new(work_list());

    state.push_filter_char('r');
    state.push_filter_char('e');
    state.push_filter_char('v');

    let filtered = state.filtered_works();
    assert_eq!(filtered.len(), 1);
    assert_eq!(filtered[0].slug, "review-cache-invalidation-pr");
}

#[test]
fn state_tests_selection_wraps_through_filtered_work() {
    let mut state = TuiState::new(work_list());

    state.move_selection(-1);
    assert_eq!(
        state.selected_work().map(|work| work.slug.as_str()),
        Some("context-command-sketch")
    );

    state.move_selection(1);
    assert_eq!(
        state.selected_work().map(|work| work.slug.as_str()),
        Some("billing-retry-audit")
    );
}

#[test]
fn state_tests_selects_current_work_when_cwd_is_inside_work_folder() {
    let state = TuiState::new(work_list()).with_current_directory(Some(
        "/tmp/workon/.workon/work/review-cache-invalidation-pr/src",
    ));

    assert_eq!(
        state.selected_work().map(|work| work.slug.as_str()),
        Some("review-cache-invalidation-pr")
    );
    let selected = state
        .selected_work()
        .expect("current work should be selected");
    assert!(state.is_current_work(selected));
    assert_eq!(
        state.current_work_path.as_deref(),
        Some("/tmp/workon/.workon/work/review-cache-invalidation-pr")
    );
    assert_eq!(state.filtered_count(), 3);
    assert_eq!(state.total_count(), 3);
}

#[test]
fn state_tests_leaves_all_work_active_when_cwd_is_outside_work_folders() {
    let state = TuiState::new(work_list()).with_current_directory(Some("/tmp/workon/elsewhere"));

    assert_eq!(
        state.selected_work().map(|work| work.slug.as_str()),
        Some("billing-retry-audit")
    );
    assert!(state.current_work_path.is_none());
    assert!(state.works.iter().all(|work| !state.is_current_work(work)));
}

#[test]
fn state_tests_trace_records_newest_operational_events_first_and_caps_history() {
    let mut state = TuiState::new(work_list());

    for index in 0..10 {
        state.push_trace(TraceKind::Run, format!("event {index}"));
    }

    assert_eq!(state.trace.len(), 6);
    assert_eq!(state.trace[0].message, "event 9");
    assert_eq!(state.trace[0].kind, TraceKind::Run);
    assert_eq!(state.trace[5].message, "event 4");
}

#[test]
fn state_tests_repo_context_keeps_github_catalog_visible_with_attached_repositories() {
    let mut state = TuiState::new(work_list());
    state.enter_repo_context(
        "billing-retry-audit".to_string(),
        "Billing retry audit".to_string(),
        available_repositories(),
        attached_repositories(),
    );

    assert_eq!(state.mode, TuiMode::Repos);
    let names = state
        .filtered_available_repositories()
        .into_iter()
        .map(|repository| repository.name_with_owner.clone())
        .collect::<Vec<_>>();

    assert_eq!(
        names,
        vec![
            "openai/api".to_string(),
            "openai/api-docs".to_string(),
            "openai/workon".to_string(),
        ]
    );
}


#[test]
fn state_tests_trace_panel_is_hidden_by_default_and_toggles_from_list() {
    let mut state = TuiState::new(work_list());

    assert!(!state.trace_visible);

    let action = state.handle_key(Key::control(KeyCode::Char('t')));

    assert_eq!(action, TuiAction::Nothing);
    assert!(state.trace_visible);

    let action = state.handle_key(Key::control(KeyCode::Char('t')));

    assert_eq!(action, TuiAction::Nothing);
    assert!(!state.trace_visible);
}

#[test]
fn state_tests_clears_toast_on_next_meaningful_key_press() {
    let mut state = TuiState::new(work_list());
    state.toast = Some(Toast::info("Work created", "/tmp/workon/.workon/work/billing"));

    let action = state.handle_key(key(KeyCode::Down));

    assert_eq!(action, TuiAction::Nothing);
    assert_eq!(state.toast, None);
    assert_eq!(
        state.selected_work().map(|work| work.slug.as_str()),
        Some("review-cache-invalidation-pr")
    );
}

#[test]
fn state_tests_colon_starts_filter_like_other_printable_characters() {
    let mut state = TuiState::new(work_list());

    let action = state.handle_key(key(KeyCode::Char(':')));

    assert_eq!(action, TuiAction::Nothing);
    assert_eq!(state.mode, TuiMode::Search);
    assert_eq!(state.filter, ":");
    assert_eq!(state.trace[0].message, "filter :");
}

#[test]
fn state_tests_direct_typing_starts_filtering_from_list_mode() {
    let mut state = TuiState::new(work_list());
    state.move_selection(1);

    let mut action = TuiAction::Nothing;
    for character in "billing".chars() {
        action = state.handle_key(key(KeyCode::Char(character)));
    }

    assert_eq!(action, TuiAction::Nothing);
    assert_eq!(state.mode, TuiMode::Search);
    assert_eq!(state.filter, "billing");
    assert_eq!(state.filtered_count(), 1);
    assert_eq!(
        state.selected_work().map(|work| work.slug.as_str()),
        Some("billing-retry-audit")
    );
}

#[test]
fn state_tests_bare_printable_shortcuts_append_to_filter() {
    for character in ['j', 'k', 'n', 'a', 'q', '?', ' '] {
        let mut state = TuiState::new(work_list());

        let action = state.handle_key(key(KeyCode::Char(character)));

        assert_eq!(action, TuiAction::Nothing);
        assert_eq!(state.mode, TuiMode::Search);
        assert_eq!(state.filter, character.to_string());
    }
}

#[test]
fn state_tests_slash_enters_leader_without_changing_filter_or_selection() {
    let mut state = TuiState::new(work_list());
    state.move_selection(1);
    let selected_before = state.selected_work().map(|work| work.slug.clone());

    let action = state.handle_key(key(KeyCode::Char('/')));

    assert_eq!(action, TuiAction::Nothing);
    assert_eq!(state.mode, TuiMode::Leader);
    assert_eq!(state.filter, "");
    assert_eq!(state.filtered_count(), 3);
    assert_eq!(
        state.selected_work().map(|work| work.slug.clone()),
        selected_before
    );
}

#[test]
fn state_tests_enter_in_filter_switches_highlighted_match() {
    let mut state = TuiState::new(work_list());
    for character in "context".chars() {
        state.handle_key(key(KeyCode::Char(character)));
    }

    let action = state.handle_key(key(KeyCode::Enter));

    assert_eq!(action, TuiAction::Switch("context-command-sketch".to_string()));
}

#[test]
fn state_tests_search_navigation_switches_directly_from_filtered_queue() {
    let mut state = TuiState::new(work_list());
    state.handle_key(key(KeyCode::Char('i')));
    state.handle_key(key(KeyCode::Char('n')));
    state.handle_key(key(KeyCode::Char('v')));
    state.handle_key(key(KeyCode::Down));

    let action = state.handle_key(key(KeyCode::Enter));

    assert_eq!(action, TuiAction::Switch("review-cache-invalidation-pr".to_string()));
}

#[test]
fn state_tests_slash_leader_commands_route_actions() {
    let mut state = TuiState::new(work_list());
    state.handle_key(key(KeyCode::Char('/')));
    assert_eq!(state.handle_key(key(KeyCode::Char('n'))), TuiAction::Nothing);
    assert_eq!(state.mode, TuiMode::Create);

    let mut archive_state = TuiState::new(work_list());
    for character in "review".chars() {
        archive_state.handle_key(key(KeyCode::Char(character)));
    }
    archive_state.handle_key(key(KeyCode::Char('/')));
    assert_eq!(archive_state.handle_key(key(KeyCode::Char('a'))), TuiAction::Nothing);
    assert_eq!(archive_state.mode, TuiMode::Archive);
    assert_eq!(
        archive_state.handle_key(key(KeyCode::Enter)),
        TuiAction::Archive("review-cache-invalidation-pr".to_string())
    );

    let mut help_state = TuiState::new(work_list());
    help_state.handle_key(key(KeyCode::Char('/')));
    assert_eq!(help_state.handle_key(key(KeyCode::Char('?'))), TuiAction::Nothing);
    assert_eq!(help_state.mode, TuiMode::Help);

    let mut quit_state = TuiState::new(work_list());
    quit_state.handle_key(key(KeyCode::Char('/')));
    assert_eq!(quit_state.handle_key(key(KeyCode::Char('q'))), TuiAction::Quit);
}

#[test]
fn state_tests_slash_leader_can_insert_literal_slash_and_cancel() {
    let mut state = TuiState::new(work_list());
    state.handle_key(key(KeyCode::Char('b')));
    state.handle_key(key(KeyCode::Char('/')));

    let action = state.handle_key(key(KeyCode::Esc));

    assert_eq!(action, TuiAction::Nothing);
    assert_eq!(state.mode, TuiMode::Search);
    assert_eq!(state.filter, "b");

    state.handle_key(key(KeyCode::Char('/')));
    let action = state.handle_key(key(KeyCode::Char('/')));

    assert_eq!(action, TuiAction::Nothing);
    assert_eq!(state.mode, TuiMode::Search);
    assert_eq!(state.filter, "b/");
}

#[test]
fn state_tests_escape_clears_filter_and_restores_previous_selection() {
    let mut state = TuiState::new(work_list());
    state.move_selection(1);
    let selected_before = state.selected_work().map(|work| work.slug.clone());
    for character in "context".chars() {
        state.handle_key(key(KeyCode::Char(character)));
    }

    let action = state.handle_key(key(KeyCode::Esc));

    assert_eq!(action, TuiAction::Nothing);
    assert_eq!(state.mode, TuiMode::List);
    assert_eq!(state.filter, "");
    assert_eq!(
        state.selected_work().map(|work| work.slug.clone()),
        selected_before
    );
}

#[test]
fn state_tests_clearing_filter_context_allows_next_filter_to_restore_current_selection() {
    let mut state = TuiState::new(work_list());
    state.move_selection(1);
    for character in "context".chars() {
        state.handle_key(key(KeyCode::Char(character)));
    }

    state.clear_filter_context();
    state.select_slug("billing-retry-audit");
    state.close_panel();
    for character in "review".chars() {
        state.handle_key(key(KeyCode::Char(character)));
    }

    let action = state.handle_key(key(KeyCode::Esc));

    assert_eq!(action, TuiAction::Nothing);
    assert_eq!(state.mode, TuiMode::List);
    assert_eq!(state.filter, "");
    assert_eq!(
        state.selected_work().map(|work| work.slug.as_str()),
        Some("billing-retry-audit")
    );
}

#[test]
fn state_tests_enter_on_empty_filter_match_does_not_switch_or_close_filter() {
    let mut state = TuiState::new(work_list());
    for character in "missing".chars() {
        state.handle_key(key(KeyCode::Char(character)));
    }

    let action = state.handle_key(key(KeyCode::Enter));

    assert_eq!(action, TuiAction::Nothing);
    assert_eq!(state.mode, TuiMode::Search);
    assert_eq!(state.filter, "missing");
}

#[test]
fn state_tests_backspace_edits_filter_and_resets_selection() {
    let mut state = TuiState::new(work_list());
    for character in "review".chars() {
        state.handle_key(key(KeyCode::Char(character)));
    }
    state.handle_key(key(KeyCode::Down));

    let action = state.handle_key(key(KeyCode::Backspace));

    assert_eq!(action, TuiAction::Nothing);
    assert_eq!(state.mode, TuiMode::Search);
    assert_eq!(state.filter, "revie");
    assert_eq!(state.selected, 0);
}

#[test]
fn state_tests_escape_with_empty_filter_quits() {
    let mut state = TuiState::new(work_list());

    assert_eq!(state.handle_key(key(KeyCode::Esc)), TuiAction::Quit);
}

#[test]
fn state_tests_modified_list_shortcuts_are_ignored() {
    let alt = Modifiers { control: false, alt: true, super_key: false, shift: false, other: false };
    let control = Modifiers { control: true, alt: false, super_key: false, shift: false, other: false };
    for (code, modifiers) in [
        (KeyCode::Char('q'), alt),
        (KeyCode::Char('j'), control),
        (KeyCode::Char('k'), alt),
        (KeyCode::Char('n'), alt),
        (KeyCode::Char('a'), control),
        (KeyCode::Char('?'), alt),
        (KeyCode::Char('/'), control),
    ] {
        let mut state = TuiState::new(work_list());

        let action = state.handle_key(Key { code, modifiers, press: true });

        assert_eq!(action, TuiAction::Nothing);
        assert_eq!(state.mode, TuiMode::List);
        assert_eq!(state.selected, 0);
        assert!(state.trace.is_empty());
    }
}

#[test]
fn state_tests_archive_confirm_accepts_enter_and_y() {
    let mut enter_state = TuiState::new(work_list());
    enter_state.mode = TuiMode::Archive;
    let enter_action = enter_state.handle_key(key(KeyCode::Enter));

    let mut y_state = TuiState::new(work_list());
    y_state.mode = TuiMode::Archive;
    let y_action = y_state.handle_key(key(KeyCode::Char('y')));

    assert_eq!(enter_action, TuiAction::Archive("billing-retry-audit".to_string()));
    assert_eq!(y_action, enter_action);
}

#[test]
fn state_tests_create_intent_navigation_accepts_horizontal_keys() {
    let mut state = TuiState::new(work_list()).with_intents(vec![
        ("investigate".to_string(), "Investigate".to_string()),
        ("review-pr".to_string(), "Review".to_string()),
    ]);
    state.mode = TuiMode::Create;

    assert_eq!(state.handle_key(key(KeyCode::Right)), TuiAction::Nothing);
    assert_eq!(state.create_intent, 1);

    assert_eq!(state.handle_key(key(KeyCode::Left)), TuiAction::Nothing);
    assert_eq!(state.create_intent, 0);

    assert_eq!(state.handle_key(key(KeyCode::Tab)), TuiAction::Nothing);
    assert_eq!(state.create_intent, 1);

    assert_eq!(state.handle_key(key(KeyCode::BackTab)), TuiAction::Nothing);
    assert_eq!(state.create_intent, 0);
}

#[test]
fn create_with_blank_goal_shows_error_toast() {
    let mut state = TuiState::new(work_list());
    state.mode = TuiMode::Create;
    state.handle_key(key(KeyCode::Char(' ')));

    assert_eq!(state.handle_key(key(KeyCode::Enter)), TuiAction::Nothing);
    let toast = state.toast.clone().expect("missing goal should show a toast");
    assert_eq!(toast.title, "Goal required");
    assert_eq!(state.trace[0].kind, TraceKind::Error);
    assert_eq!(state.trace[0].message, "work init missing goal");
}

#[test]
fn create_sends_trimmed_goal_with_chosen_intent() {
    let mut state = TuiState::new(work_list()).with_intents(vec![
        ("investigate".to_string(), "Investigate".to_string()),
        ("blank".to_string(), "Blank".to_string()),
    ]);
    assert_eq!(state.create_intent, 1);
    state.mode = TuiMode::Create;
    for character in "  Fix login  ".chars() {
        state.handle_key(key(KeyCode::Char(character)));
    }

    assert_eq!(
        state.handle_key(key(KeyCode::Enter)),
        TuiAction::Create { goal: "Fix login".to_string(), intent_id: "blank".to_string() }
    );
}

#[test]
fn create_without_intents_uses_default_intent() {
    let mut state = TuiState::new(work_list());
    state.mode = TuiMode::Create;
    state.handle_key(key(KeyCode::Char('x')));

    assert_eq!(
        state.handle_key(key(KeyCode::Enter)),
        TuiAction::Create { goal: "x".to_string(), intent_id: "investigate".to_string() }
    );
}

#[test]
fn leader_intent_list_switches_selected_work_intent() {
    let mut state = TuiState::new(work_list()).with_intents(vec![
        ("investigate".to_string(), "Answer a question".to_string()),
        ("review-pr".to_string(), "Review a pull request".to_string()),
        ("brainstorm".to_string(), "Shape options".to_string()),
    ]);
    state.move_selection(1);
    state.handle_key(key(KeyCode::Char('/')));
    state.handle_key(key(KeyCode::Char('i')));

    assert_eq!(state.mode, TuiMode::Intents);
    assert_eq!(state.selected_intent, 1);
    state.handle_key(key(KeyCode::Char('b')));
    state.handle_key(key(KeyCode::Char('r')));
    assert_eq!(
        state.handle_key(key(KeyCode::Enter)),
        TuiAction::SwitchIntent {
            work_slug: "review-cache-invalidation-pr".to_string(),
            intent_id: "brainstorm".to_string(),
        }
    );
    assert_eq!(state.handle_key(key(KeyCode::Esc)), TuiAction::Nothing);
    assert_eq!(state.mode, TuiMode::List);
}

#[test]
fn leader_opens_repo_loading_for_selected_work() {
    let mut state = TuiState::new(work_list());
    state.move_selection(1);
    state.handle_key(key(KeyCode::Char('/')));

    let action = state.handle_key(key(KeyCode::Char('r')));

    assert_eq!(action, TuiAction::OpenRepos("review-cache-invalidation-pr".to_string()));
    assert_eq!(state.mode, TuiMode::Repos);
    assert!(state.is_title_activity_active());
}

#[test]
fn key_releases_are_ignored() {
    let mut state = TuiState::new(work_list());
    let release = Key { code: KeyCode::Esc, modifiers: Key::plain(KeyCode::Esc).modifiers, press: false };

    assert_eq!(state.handle_key(release), TuiAction::Nothing);
    assert_eq!(state.mode, TuiMode::List);
}

#[test]
fn help_closes_on_escape() {
    let mut state = TuiState::new(work_list());
    state.mode = TuiMode::Help;

    assert_eq!(state.handle_key(key(KeyCode::Esc)), TuiAction::Nothing);
    assert_eq!(state.mode, TuiMode::List);
}

fn work_list() -> WorkList {
    WorkList {
        works: vec![
            WorkSummary {
                title: "Billing retry audit".to_string(),
                slug: "billing-retry-audit".to_string(),
                goal: "Find why billing retry alerts spiked after the queue rollout.".to_string(),
                intent_id: "investigate".to_string(),
                path: "/tmp/workon/.workon/work/billing-retry-audit".to_string(),
            },
            WorkSummary {
                title: "Review cache invalidation PR".to_string(),
                slug: "review-cache-invalidation-pr".to_string(),
                goal: "Review the cache invalidation PR for regressions.".to_string(),
                intent_id: "review-pr".to_string(),
                path: "/tmp/workon/.workon/work/review-cache-invalidation-pr".to_string(),
            },
            WorkSummary {
                title: "Context command sketch".to_string(),
                slug: "context-command-sketch".to_string(),
                goal: "Shape the first context surface.".to_string(),
                intent_id: "brainstorm".to_string(),
                path: "/tmp/workon/.workon/work/context-command-sketch".to_string(),
            },
        ],
    }
}

fn key(code: KeyCode) -> Key {
    Key::plain(code)
}

fn available_repositories() -> Vec<AvailableRepository> {
    vec![
        AvailableRepository {
            name_with_owner: "openai/api".to_string(),
            default_branch: "main".to_string(),
            url: "https://github.com/openai/api".to_string(),
            ssh_url: "git@github.com:openai/api.git".to_string(),
        },
        AvailableRepository {
            name_with_owner: "openai/workon".to_string(),
            default_branch: "trunk".to_string(),
            url: "https://github.com/openai/workon".to_string(),
            ssh_url: "git@github.com:openai/workon.git".to_string(),
        },
        AvailableRepository {
            name_with_owner: "openai/api-docs".to_string(),
            default_branch: "main".to_string(),
            url: "https://github.com/openai/api-docs".to_string(),
            ssh_url: "git@github.com:openai/api-docs.git".to_string(),
        },
    ]
}

fn attached_repositories() -> Vec<AttachedRepository> {
    vec![
        AttachedRepository {
            name_with_owner: "openai/api".to_string(),
            branch: "workon/billing-retry-audit".to_string(),
            path: "/tmp/workon/.workon/work/billing-retry-audit/repos/openai__api".to_string(),
            default_branch: "main".to_string(),
            url: "https://github.com/openai/api".to_string(),
        },
        AttachedRepository {
            name_with_owner: "openai/workon".to_string(),
            branch: "workon/billing-retry-audit".to_string(),
            path: "/tmp/workon/.workon/work/billing-retry-audit/repos/openai__workon".to_string(),
            default_branch: "trunk".to_string(),
            url: "https://github.com/openai/workon".to_string(),
        },
    ]
}

#[test]
fn state_trace_panel_is_hidden_by_default_and_toggles_from_list() {
    let mut state = TuiState::new(work_list());

    assert!(!state.trace_visible);

    let action = state.handle_key(Key::control(KeyCode::Char('t')));

    assert_eq!(action, TuiAction::Nothing);
    assert!(state.trace_visible);

    let action = state.handle_key(Key::control(KeyCode::Char('t')));

    assert_eq!(action, TuiAction::Nothing);
    assert!(!state.trace_visible);
}

#[test]
fn state_clears_toast_on_next_meaningful_key_press() {
    let mut state = TuiState::new(work_list());
    state.toast = Some(Toast::info("Work created", "/tmp/workon/.workon/work/billing"));

    let action = state.handle_key(key(KeyCode::Down));

    assert_eq!(action, TuiAction::Nothing);
    assert_eq!(state.toast, None);
    assert_eq!(
        state.selected_work().map(|work| work.slug.as_str()),
        Some("review-cache-invalidation-pr")
    );
}

#[test]
fn state_colon_starts_filter_like_other_printable_characters() {
    let mut state = TuiState::new(work_list());

    let action = state.handle_key(key(KeyCode::Char(':')));

    assert_eq!(action, TuiAction::Nothing);
    assert_eq!(state.mode, TuiMode::Search);
    assert_eq!(state.filter, ":");
    assert_eq!(state.trace[0].message, "filter :");
}

#[test]
fn state_direct_typing_starts_filtering_from_list_mode() {
    let mut state = TuiState::new(work_list());
    state.move_selection(1);

    let mut action = TuiAction::Nothing;
    for character in "billing".chars() {
        action = state.handle_key(key(KeyCode::Char(character)));
    }

    assert_eq!(action, TuiAction::Nothing);
    assert_eq!(state.mode, TuiMode::Search);
    assert_eq!(state.filter, "billing");
    assert_eq!(state.filtered_count(), 1);
    assert_eq!(
        state.selected_work().map(|work| work.slug.as_str()),
        Some("billing-retry-audit")
    );
}

#[test]
fn state_bare_printable_shortcuts_append_to_filter() {
    for character in ['j', 'k', 'n', 'a', 'q', '?', ' '] {
        let mut state = TuiState::new(work_list());

        let action = state.handle_key(key(KeyCode::Char(character)));

        assert_eq!(action, TuiAction::Nothing);
        assert_eq!(state.mode, TuiMode::Search);
        assert_eq!(state.filter, character.to_string());
    }
}

#[test]
fn state_slash_enters_leader_without_changing_filter_or_selection() {
    let mut state = TuiState::new(work_list());
    state.move_selection(1);
    let selected_before = state.selected_work().map(|work| work.slug.clone());

    let action = state.handle_key(key(KeyCode::Char('/')));

    assert_eq!(action, TuiAction::Nothing);
    assert_eq!(state.mode, TuiMode::Leader);
    assert_eq!(state.filter, "");
    assert_eq!(state.filtered_count(), 3);
    assert_eq!(
        state.selected_work().map(|work| work.slug.clone()),
        selected_before
    );
}

#[test]
fn state_enter_in_filter_switches_highlighted_match() {
    let mut state = TuiState::new(work_list());
    for character in "context".chars() {
        state.handle_key(key(KeyCode::Char(character)));
    }

    let action = state.handle_key(key(KeyCode::Enter));

    assert_eq!(action, TuiAction::Switch("context-command-sketch".to_string()));
}

#[test]
fn state_search_navigation_switches_directly_from_filtered_queue() {
    let mut state = TuiState::new(work_list());
    state.handle_key(key(KeyCode::Char('i')));
    state.handle_key(key(KeyCode::Char('n')));
    state.handle_key(key(KeyCode::Char('v')));
    state.handle_key(key(KeyCode::Down));

    let action = state.handle_key(key(KeyCode::Enter));

    assert_eq!(action, TuiAction::Switch("review-cache-invalidation-pr".to_string()));
}

#[test]
fn state_slash_leader_commands_route_actions() {
    let mut state = TuiState::new(work_list());
    state.handle_key(key(KeyCode::Char('/')));
    assert_eq!(state.handle_key(key(KeyCode::Char('n'))), TuiAction::Nothing);
    assert_eq!(state.mode, TuiMode::Create);

    let mut archive_state = TuiState::new(work_list());
    for character in "review".chars() {
        archive_state.handle_key(key(KeyCode::Char(character)));
    }
    archive_state.handle_key(key(KeyCode::Char('/')));
    assert_eq!(archive_state.handle_key(key(KeyCode::Char('a'))), TuiAction::Nothing);
    assert_eq!(archive_state.mode, TuiMode::Archive);
    assert_eq!(
        archive_state.handle_key(key(KeyCode::Enter)),
        TuiAction::Archive("review-cache-invalidation-pr".to_string())
    );

    let mut help_state = TuiState::new(work_list());
    help_state.handle_key(key(KeyCode::Char('/')));
    assert_eq!(help_state.handle_key(key(KeyCode::Char('?'))), TuiAction::Nothing);
    assert_eq!(help_state.mode, TuiMode::Help);

    let mut quit_state = TuiState::new(work_list());
    quit_state.handle_key(key(KeyCode::Char('/')));
    assert_eq!(quit_state.handle_key(key(KeyCode::Char('q'))), TuiAction::Quit);
}

#[test]
fn state_slash_leader_can_insert_literal_slash_and_cancel() {
    let mut state = TuiState::new(work_list());
    state.handle_key(key(KeyCode::Char('b')));
    state.handle_key(key(KeyCode::Char('/')));

    let action = state.handle_key(key(KeyCode::Esc));

    assert_eq!(action, TuiAction::Nothing);
    assert_eq!(state.mode, TuiMode::Search);
    assert_eq!(state.filter, "b");

    state.handle_key(key(KeyCode::Char('/')));
    let action = state.handle_key(key(KeyCode::Char('/')));

    assert_eq!(action, TuiAction::Nothing);
    assert_eq!(state.mode, TuiMode::Search);
    assert_eq!(state.filter, "b/");
}

#[test]
fn state_escape_clears_filter_and_restores_previous_selection() {
    let mut state = TuiState::new(work_list());
    state.move_selection(1);
    let selected_before = state.selected_work().map(|work| work.slug.clone());
    for character in "context".chars() {
        state.handle_key(key(KeyCode::Char(character)));
    }

    let action = state.handle_key(key(KeyCode::Esc));

    assert_eq!(action, TuiAction::Nothing);
    assert_eq!(state.mode, TuiMode::List);
    assert_eq!(state.filter, "");
    assert_eq!(
        state.selected_work().map(|work| work.slug.clone()),
        selected_before
    );
}

#[test]
fn state_clearing_filter_context_allows_next_filter_to_restore_current_selection() {
    let mut state = TuiState::new(work_list());
    state.move_selection(1);
    for character in "context".chars() {
        state.handle_key(key(KeyCode::Char(character)));
    }

    state.clear_filter_context();
    state.select_slug("billing-retry-audit");
    state.close_panel();
    for character in "review".chars() {
        state.handle_key(key(KeyCode::Char(character)));
    }

    let action = state.handle_key(key(KeyCode::Esc));

    assert_eq!(action, TuiAction::Nothing);
    assert_eq!(state.mode, TuiMode::List);
    assert_eq!(state.filter, "");
    assert_eq!(
        state.selected_work().map(|work| work.slug.as_str()),
        Some("billing-retry-audit")
    );
}

#[test]
fn state_enter_on_empty_filter_match_does_not_switch_or_close_filter() {
    let mut state = TuiState::new(work_list());
    for character in "missing".chars() {
        state.handle_key(key(KeyCode::Char(character)));
    }

    let action = state.handle_key(key(KeyCode::Enter));

    assert_eq!(action, TuiAction::Nothing);
    assert_eq!(state.mode, TuiMode::Search);
    assert_eq!(state.filter, "missing");
}

#[test]
fn state_backspace_edits_filter_and_resets_selection() {
    let mut state = TuiState::new(work_list());
    for character in "review".chars() {
        state.handle_key(key(KeyCode::Char(character)));
    }
    state.handle_key(key(KeyCode::Down));

    let action = state.handle_key(key(KeyCode::Backspace));

    assert_eq!(action, TuiAction::Nothing);
    assert_eq!(state.mode, TuiMode::Search);
    assert_eq!(state.filter, "revie");
    assert_eq!(state.selected, 0);
}

#[test]
fn state_escape_with_empty_filter_quits() {
    let mut state = TuiState::new(work_list());

    assert_eq!(state.handle_key(key(KeyCode::Esc)), TuiAction::Quit);
}

#[test]
fn state_modified_list_shortcuts_are_ignored() {
    let alt = Modifiers { control: false, alt: true, super_key: false, shift: false, other: false };
    let control = Modifiers { control: true, alt: false, super_key: false, shift: false, other: false };
    for (code, modifiers) in [
        (KeyCode::Char('q'), alt),
        (KeyCode::Char('j'), control),
        (KeyCode::Char('k'), alt),
        (KeyCode::Char('n'), alt),
        (KeyCode::Char('a'), control),
        (KeyCode::Char('?'), alt),
        (KeyCode::Char('/'), control),
    ] {
        let mut state = TuiState::new(work_list());

        let action = state.handle_key(Key { code, modifiers, press: true });

        assert_eq!(action, TuiAction::Nothing);
        assert_eq!(state.mode, TuiMode::List);
        assert_eq!(state.selected, 0);
        assert!(state.trace.is_empty());
    }
}

#[test]
fn state_archive_confirm_accepts_enter_and_y() {
    let mut enter_state = TuiState::new(work_list());
    enter_state.mode = TuiMode::Archive;
    let enter_action = enter_state.handle_key(key(KeyCode::Enter));

    let mut y_state = TuiState::new(work_list());
    y_state.mode = TuiMode::Archive;
    let y_action = y_state.handle_key(key(KeyCode::Char('y')));

    assert_eq!(enter_action, TuiAction::Archive("billing-retry-audit".to_string()));
    assert_eq!(y_action, enter_action);
}

#[test]
fn state_create_intent_navigation_accepts_horizontal_keys() {
    let mut state = TuiState::new(work_list()).with_intents(vec![
        ("investigate".to_string(), "Investigate".to_string()),
        ("review-pr".to_string(), "Review".to_string()),
    ]);
    state.mode = TuiMode::Create;

    assert_eq!(state.handle_key(key(KeyCode::Right)), TuiAction::Nothing);
    assert_eq!(state.create_intent, 1);

    assert_eq!(state.handle_key(key(KeyCode::Left)), TuiAction::Nothing);
    assert_eq!(state.create_intent, 0);

    assert_eq!(state.handle_key(key(KeyCode::Tab)), TuiAction::Nothing);
    assert_eq!(state.create_intent, 1);

    assert_eq!(state.handle_key(key(KeyCode::BackTab)), TuiAction::Nothing);
    assert_eq!(state.create_intent, 0);
}

#[test]
fn create_mode_starts_on_the_default_intent() {
    let mut state = TuiState::new(work_list()).with_intents(vec![
        ("investigate".to_string(), "Answer.".to_string()),
        ("blank".to_string(), "No weighting.".to_string()),
    ]);
    state.enter_create_mode();
    assert_eq!(state.mode, TuiMode::Create);
    assert_eq!(state.create_intent_id(), "blank");
}

#[test]
fn selected_intent_summary_follows_the_intent_list() {
    let mut state = TuiState::new(work_list()).with_intents(vec![
        ("investigate".to_string(), "Answer.".to_string()),
        ("review-pr".to_string(), "Review.".to_string()),
    ]);
    state.enter_intent_context(
        "billing-retry-audit".to_string(),
        "Billing retry audit".to_string(),
        "review-pr".to_string(),
    );
    assert_eq!(
        state.selected_intent_summary(),
        Some(("review-pr".to_string(), "Review.".to_string()))
    );
    let index = vec![("billing-retry-audit".to_string(), attached_repositories())];
    let state = state.with_attached_repositories(index);
    assert_eq!(state.attached_repositories_for(&work_list().works[0]).len(), 2);
}
