use video_player::clock::ClockTime;
use video_player::player::PipelineState;
use video_player::shell::{
    chrome, is_fullscreen, play_button_text, time_label, Chrome, Input, UiAction, WindowCommand,
    REPAINT_INTERVAL_MS,
};

#[test]
fn redraws_come_every_sixteen_milliseconds() {
    assert_eq!(REPAINT_INTERVAL_MS, 16);
}

#[test]
fn keys_are_bound() {
    assert_eq!(Input::KeySpace.action(), UiAction::TogglePlayback);
    assert_eq!(Input::KeyEscape.action(), UiAction::FullscreenOff);
    assert_eq!(Input::KeyF11.action(), UiAction::ToggleFullscreen);
}

#[test]
fn menu_items_are_bound() {
    assert_eq!(Input::MenuOpenFile.action(), UiAction::SelectFile);
    assert_eq!(Input::MenuQuit.action(), UiAction::Quit);
    assert_eq!(Input::MenuToggleFullscreen.action(), UiAction::ToggleFullscreen);
}

#[test]
fn buttons_are_bound() {
    assert_eq!(Input::ButtonPlayPause.action(), UiAction::TogglePlayback);
    assert_eq!(Input::ButtonStop.action(), UiAction::Stop);
    assert_eq!(Input::ButtonFullscreen.action(), UiAction::ToggleFullscreen);
    assert_eq!(Input::ButtonSelectFile.action(), UiAction::SelectFile);
}

#[test]
fn only_two_menu_items_close_the_menu() {
    assert!(Input::MenuOpenFile.closes_menu());
    assert!(Input::MenuToggleFullscreen.closes_menu());
    for input in [
        Input::KeySpace,
        Input::KeyEscape,
        Input::KeyF11,
        Input::MenuQuit,
        Input::ButtonPlayPause,
        Input::ButtonStop,
        Input::ButtonFullscreen,
        Input::ButtonSelectFile,
    ] {
        assert!(!input.closes_menu());
    }
}

#[test]
fn a_silent_window_counts_as_windowed() {
    assert!(!is_fullscreen(None));
    assert!(!is_fullscreen(Some(false)));
    assert!(is_fullscreen(Some(true)));
}

#[test]
fn a_toggle_asks_for_the_other_mode() {
    assert_eq!(
        UiAction::ToggleFullscreen.window_command(Some(true)),
        Some(WindowCommand::Fullscreen(false))
    );
    assert_eq!(
        UiAction::ToggleFullscreen.window_command(Some(false)),
        Some(WindowCommand::Fullscreen(true))
    );
    assert_eq!(
        UiAction::ToggleFullscreen.window_command(None),
        Some(WindowCommand::Fullscreen(true))
    );
}

#[test]
fn leaving_fullscreen_asks_for_windowed() {
    for reported in [None, Some(false), Some(true)] {
        assert_eq!(
            UiAction::FullscreenOff.window_command(reported),
            Some(WindowCommand::Fullscreen(false))
        );
    }
}

#[test]
fn quitting_closes_the_window() {
    for reported in [None, Some(false), Some(true)] {
        assert_eq!(UiAction::Quit.window_command(reported), Some(WindowCommand::Close));
    }
}

#[test]
fn other_actions_ask_nothing_of_the_window() {
    for action in [UiAction::TogglePlayback, UiAction::Stop, UiAction::SelectFile] {
        for reported in [None, Some(false), Some(true)] {
            assert_eq!(action.window_command(reported), None);
        }
    }
}

#[test]
fn bars_hide_only_in_fullscreen_with_a_resting_pointer() {
    assert_eq!(
        chrome(Some(true), true),
        Chrome { controls_shown: false, cursor_hidden: true }
    );
    assert_eq!(
        chrome(Some(true), false),
        Chrome { controls_shown: true, cursor_hidden: false }
    );
}

#[test]
fn a_resting_pointer_is_hidden_in_a_window_too() {
    assert_eq!(
        chrome(Some(false), true),
        Chrome { controls_shown: true, cursor_hidden: true }
    );
    assert_eq!(chrome(None, true), Chrome { controls_shown: true, cursor_hidden: true });
    assert_eq!(
        chrome(Some(false), false),
        Chrome { controls_shown: true, cursor_hidden: false }
    );
    assert_eq!(chrome(None, false), Chrome { controls_shown: true, cursor_hidden: false });
}

#[test]
fn the_play_button_while_playing() {
    assert_eq!(play_button_text(PipelineState::Playing), "\u{e2}\u{b8}");
}

#[test]
fn the_play_button_in_every_other_state() {
    for state in [
        PipelineState::VoidPending,
        PipelineState::Null,
        PipelineState::Ready,
        PipelineState::Paused,
    ] {
        assert_eq!(play_button_text(state), "\u{e2}\u{b5}");
    }
}

#[test]
fn the_readout_of_known_times() {
    let at = ClockTime::from_nseconds(83_400_000_000);
    let of = ClockTime::from_nseconds(3_725_000_000_000);
    assert_eq!(time_label(Some(at), Some(of)), "01:23 / 62:05");
}

#[test]
fn the_readout_at_the_start() {
    let of = ClockTime::from_nseconds(9_999_999_999);
    assert_eq!(time_label(Some(ClockTime::zero()), Some(of)), "00:00 / 00:09");
}

#[test]
fn the_readout_while_something_is_unknown() {
    let t = ClockTime::from_nseconds(83_400_000_000);
    assert_eq!(time_label(None, None), "00:00 / 00:00");
    assert_eq!(time_label(Some(t), None), "00:00 / 00:00");
    assert_eq!(time_label(None, Some(t)), "00:00 / 00:00");
}

#[test]
fn the_readout_agrees_with_the_standard_formatting() {
    for (at, of) in [(0u64, 0u64), (59, 60), (61, 3599), (3600, 36000), (754, 123456)] {
        let label = time_label(
            Some(ClockTime::from_nseconds(at * 1_000_000_000 + 999)),
            Some(ClockTime::from_nseconds(of * 1_000_000_000)),
        );
        let expected = format!("{:02}:{:02} / {:02}:{:02}", at / 60, at % 60, of / 60, of % 60);
        assert_eq!(label, expected);
    }
}
