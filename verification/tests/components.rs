use std::time::Duration;

use workon::animation::{input_poll_timeout, ANIMATION_FRAME_INTERVAL};
use workon::components::TitleActivity;
use workon::control_panel::{panel_size, repo_activity_message, title, title_activity, TraceVisibility};
use workon::repo_picker::{RepoOperation, RepoStatus};
use workon::tui_state::TuiMode;

#[test]
fn loading_activity_uses_braille_capped_block_wave_frames() {
    let expected = ["⣾▉▊▋▌▍▎▏▎▍▌▋▊▉⣾ ", "⣽▊▋▌▍▎▏▎▍▌▋▊▉▉⣽ ", "⣷▎▍▌▋▊▉▉▊▋▌▍▎▏⣷ "];

    let actual = [0, 1, 7]
        .map(|frame| TitleActivity::loading("loading repositories", frame).frame_label());

    assert_eq!(actual, expected);
}

#[test]
fn loading_activity_frames_do_not_use_letters_or_numbers() {
    for frame in 0..32 {
        let label = TitleActivity::loading("loading repositories", frame).frame_label();

        assert!(
            label.chars().all(|character| !character.is_alphanumeric()),
            "{label} should be symbol-only"
        );
    }
}

#[test]
fn loading_activity_frames_keep_title_width_stable() {
    let first_width = TitleActivity::loading("loading repositories", 0)
        .frame_label()
        .chars()
        .count();

    for frame in 1..32 {
        assert_eq!(
            TitleActivity::loading("loading repositories", frame)
                .frame_label()
                .chars()
                .count(),
            first_width
        );
    }
}

#[test]
fn loading_frames_repeat_after_eight() {
    assert_eq!(
        TitleActivity::loading("x", 8).frame_label(),
        TitleActivity::loading("x", 0).frame_label()
    );
    assert_eq!(TitleActivity::loading("x", 0).frame_label().chars().count(), 16);
}

#[test]
fn title_is_selected_from_mode_only() {
    assert_eq!(title(TuiMode::Repos), "WORKON // CONTROL // REPO");
    assert_eq!(title(TuiMode::List), "WORKON // CONTROL");
}

#[test]
fn title_activity_is_repo_scoped() {
    let loading = RepoStatus::Loading {
        message: "Loading repositories".to_string(),
    };
    let applying = RepoStatus::Applying {
        action: RepoOperation::Remove,
        current: 1,
        total: 2,
        repository: "openai/workon".to_string(),
    };

    assert!(title_activity(TuiMode::List, &loading, 0).is_none());
    assert!(title_activity(TuiMode::Repos, &loading, 0).is_some());
    assert!(format!(
        "{:?}",
        title_activity(TuiMode::Repos, &applying, 0).expect("activity should render")
    )
    .contains("1/2 Removing openai/workon"));
}

#[test]
fn activity_message_names_each_operation() {
    assert_eq!(
        repo_activity_message(RepoOperation::Add, 1, 3, "openai/api"),
        "1/3 Creating worktree openai/api"
    );
    assert_eq!(repo_activity_message(RepoOperation::Link, 2, 3, "/tmp/x"), "2/3 Linking /tmp/x");
    assert_eq!(
        repo_activity_message(RepoOperation::Refresh, 3, 3, "openai/docs"),
        "3/3 Refreshing openai/docs"
    );
    assert!(title_activity(TuiMode::Repos, &RepoStatus::Ready, 0).is_none());
}

#[test]
fn panel_expands_only_for_visible_trace() {
    assert_eq!(panel_size(160, 36, TraceVisibility::Hidden), Some((158, 28)));
    assert_eq!(panel_size(160, 36, TraceVisibility::Visible), Some((158, 33)));
    assert_eq!(panel_size(400, 20, TraceVisibility::Visible), Some((160, 18)));
    assert_eq!(panel_size(40, 36, TraceVisibility::Hidden), None);
    assert_eq!(TraceVisibility::from_visible(true), TraceVisibility::Visible);
}

#[test]
fn animation_poll_timeout_blocks_when_idle_and_ticks_when_active() {
    assert_eq!(input_poll_timeout(false), None);
    assert_eq!(
        input_poll_timeout(true).map(Duration::from_millis),
        Some(Duration::from_millis(ANIMATION_FRAME_INTERVAL))
    );
}
