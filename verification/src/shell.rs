//! The window's decisions on a tick: what an input means, and what the
//! controls show.

use vstd::prelude::*;
use vstd::string::*;
use crate::clock::{minutes_seconds, nanos_of, ClockTime};
use crate::player::PipelineState;

verus! {

/// Milliseconds between two redraws.
pub const REPAINT_INTERVAL_MS: u64 = 16;

/// A key press or a click that the window acts on.
#[derive(Clone, Copy, Debug, PartialEq, Eq, Structural)]
pub enum Input {
    /// The space bar.
    KeySpace,
    /// The escape key.
    KeyEscape,
    /// The F11 key.
    KeyF11,
    /// "Open file" in the File menu.
    MenuOpenFile,
    /// "Quit" in the File menu.
    MenuQuit,
    /// "Toggle fullscreen" in the View menu.
    MenuToggleFullscreen,
    /// The play/pause button.
    ButtonPlayPause,
    /// The stop button.
    ButtonStop,
    /// The fullscreen button beside the volume.
    ButtonFullscreen,
    /// "Select file", shown while there is no picture.
    ButtonSelectFile,
}

/// What the window does on an input.
#[derive(Clone, Copy, Debug, PartialEq, Eq, Structural)]
pub enum UiAction {
    /// Flip between playing and paused.
    TogglePlayback,
    /// Stop and rewind.
    Stop,
    /// Let the user pick a file, and load it.
    SelectFile,
    /// Close the window.
    Quit,
    /// Flip between fullscreen and windowed.
    ToggleFullscreen,
    /// Go windowed.
    FullscreenOff,
}

impl Input {
    /// What the window does on this input.
    pub open spec fn bound_action(self) -> UiAction {
        match self {
            Input::KeySpace | Input::ButtonPlayPause => UiAction::TogglePlayback,
            Input::ButtonStop => UiAction::Stop,
            Input::MenuOpenFile | Input::ButtonSelectFile => UiAction::SelectFile,
            Input::MenuQuit => UiAction::Quit,
            Input::KeyF11 | Input::MenuToggleFullscreen | Input::ButtonFullscreen =>
                UiAction::ToggleFullscreen,
            Input::KeyEscape => UiAction::FullscreenOff,
        }
    }

    /// What the window does on this input.
    pub fn action(self) -> (action: UiAction)
        ensures
            action == self.bound_action(),
    {
        match self {
            Input::KeySpace => UiAction::TogglePlayback,
            Input::KeyEscape => UiAction::FullscreenOff,
            Input::KeyF11 => UiAction::ToggleFullscreen,
            Input::MenuOpenFile => UiAction::SelectFile,
            Input::MenuQuit => UiAction::Quit,
            Input::MenuToggleFullscreen => UiAction::ToggleFullscreen,
            Input::ButtonPlayPause => UiAction::TogglePlayback,
            Input::ButtonStop => UiAction::Stop,
            Input::ButtonFullscreen => UiAction::ToggleFullscreen,
            Input::ButtonSelectFile => UiAction::SelectFile,
        }
    }

    /// Whether the open menu is closed once the input has been acted on: so
    /// it is after the menu items that leave the window open.
    pub fn closes_menu(self) -> (closes: bool)
        ensures
            closes == (self == Input::MenuOpenFile || self == Input::MenuToggleFullscreen),
    {
        match self {
            Input::MenuOpenFile | Input::MenuToggleFullscreen => true,
            _ => false,
        }
    }
}

/// Whether the window counts as fullscreen; a window that does not tell
/// counts as windowed.
pub open spec fn fullscreen_now(reported: Option<bool>) -> bool {
    reported == Some(true)
}

/// Whether the window counts as fullscreen, given what it reports.
pub fn is_fullscreen(reported: Option<bool>) -> (fullscreen: bool)
    ensures
        fullscreen == fullscreen_now(reported),
{
    match reported {
        Some(fullscreen) => fullscreen,
        None => false,
    }
}

/// A request to the window itself.
#[derive(Clone, Copy, Debug, PartialEq, Eq, Structural)]
pub enum WindowCommand {
    /// Go fullscreen (`true`) or windowed (`false`).
    Fullscreen(bool),
    /// Close the window.
    Close,
}

impl UiAction {
    /// What this action asks of the window, given what the window reports of
    /// its mode now: the other mode for a toggle, windowed for leaving
    /// fullscreen, closing for quitting, and nothing for any other action.
    pub open spec fn window_request(self, reported: Option<bool>) -> Option<WindowCommand> {
        match self {
            UiAction::ToggleFullscreen => Some(WindowCommand::Fullscreen(!fullscreen_now(reported))),
            UiAction::FullscreenOff => Some(WindowCommand::Fullscreen(false)),
            UiAction::Quit => Some(WindowCommand::Close),
            _ => None,
        }
    }

    /// What this action asks of the window, given what the window reports of
    /// its mode now.
    pub fn window_command(self, reported: Option<bool>) -> (command: Option<WindowCommand>)
        ensures
            command == self.window_request(reported),
    {
        match self {
            UiAction::ToggleFullscreen => Some(WindowCommand::Fullscreen(!is_fullscreen(reported))),
            UiAction::FullscreenOff => Some(WindowCommand::Fullscreen(false)),
            UiAction::Quit => Some(WindowCommand::Close),
            _ => None,
        }
    }
}

/// What surrounds the picture on a tick.
#[derive(Clone, Copy, Debug, PartialEq, Eq, Structural)]
pub struct Chrome {
    /// Whether the menu bar and the control bar are shown.
    pub controls_shown: bool,
    /// Whether the mouse pointer is hidden.
    pub cursor_hidden: bool,
}

/// What surrounds the picture, given what the window reports of its mode and
/// whether the pointer has rested for longer than the grace period. The bars
/// are hidden only in fullscreen with a resting pointer; a resting pointer is
/// hidden in either mode.
pub fn chrome(reported: Option<bool>, inactive: bool) -> (shown: Chrome)
    ensures
        shown.controls_shown == (!fullscreen_now(reported) || !inactive),
        shown.cursor_hidden == inactive,
{
    Chrome { controls_shown: !is_fullscreen(reported) || !inactive, cursor_hidden: inactive }
}

/// The label of the play/pause button: one pair of characters while the
/// pipeline plays, another in every other state.
pub open spec fn play_button_label(state: PipelineState) -> Seq<char> {
    if state == PipelineState::Playing {
        seq!['\u{e2}', '\u{b8}']
    } else {
        seq!['\u{e2}', '\u{b5}']
    }
}

/// The label of the play/pause button in the pipeline's current state.
pub fn play_button_text(state: PipelineState) -> (text: &'static str)
    ensures
        text@ == play_button_label(state),
{
    proof {
        reveal_strlit("\u{e2}\u{b8}");
        reveal_strlit("\u{e2}\u{b5}");
    }
    let text = match state {
        PipelineState::Playing => "\u{e2}\u{b8}",
        _ => "\u{e2}\u{b5}",
    };
    assert(text@ =~= play_button_label(state));
    text
}

/// The readout of position and duration: `mm:ss / mm:ss`, and
/// `00:00 / 00:00` while either is unknown.
pub open spec fn time_readout(position: Option<nat>, duration: Option<nat>) -> Seq<char> {
    match (position, duration) {
        (Some(at), Some(of)) => minutes_seconds(at) + seq![' ', '/', ' '] + minutes_seconds(of),
        _ => seq!['0', '0', ':', '0', '0', ' ', '/', ' ', '0', '0', ':', '0', '0'],
    }
}

/// The readout of position and duration beside the slider.
pub fn time_label(position: Option<ClockTime>, duration: Option<ClockTime>) -> (label: String)
    ensures
        label@ == time_readout(nanos_of(position), nanos_of(duration)),
{
    match (position, duration) {
        (Some(at), Some(of)) => {
            let mut label = String::new();
            at.push_minutes_seconds(&mut label);
            label.append(" / ");
            proof {
                reveal_strlit(" / ");
            }
            of.push_minutes_seconds(&mut label);
            assert(label@ =~= time_readout(nanos_of(position), nanos_of(duration)));
            label
        },
        _ => {
            proof {
                reveal_strlit("00:00 / 00:00");
            }
            let label = String::from_str("00:00 / 00:00");
            assert(label@ =~= time_readout(nanos_of(position), nanos_of(duration)));
            label
        },
    }
}

} // verus!
