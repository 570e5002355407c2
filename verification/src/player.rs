//! The pipeline controller.
//!
//! The controller never touches the pipeline. Each of its operations answers
//! with a plan, the commands to send to the pipeline in order; the caller
//! sends them one by one and reports each outcome to
//! [`MediaPlayer::completed`], which keeps the position and duration in step
//! and turns a refusal into a [`PlayerError`]. A plan is abandoned at its
//! first refusal.

use vstd::prelude::*;
use vstd::string::*;
use crate::clock::{nanos_of, ClockTime, NANOS_PER_SECOND};
use crate::error::{failure_text, PlayerError, PlayerErrorView};

verus! {

/// The states of a pipeline.
#[derive(Clone, Copy, Debug, PartialEq, Eq, Structural)]
pub enum PipelineState {
    /// No state change is pending.
    VoidPending,
    /// Nothing is allocated.
    Null,
    /// Allocated and rewound, not running.
    Ready,
    /// The clock is halted on a frame.
    Paused,
    /// The clock is running.
    Playing,
}

/// A change of state that the controller asks of the pipeline.
#[derive(Clone, Copy, Debug, PartialEq, Eq, Structural)]
pub enum Transition {
    /// Release everything, before the program ends.
    SetNull,
    /// Start or resume.
    Play,
    /// Halt on the current frame.
    Pause,
    /// Halt and rewind.
    Stop,
}

impl Transition {
    /// The state that the pipeline is asked to reach.
    pub open spec fn target(self) -> PipelineState {
        match self {
            Transition::SetNull => PipelineState::Null,
            Transition::Play => PipelineState::Playing,
            Transition::Pause => PipelineState::Paused,
            Transition::Stop => PipelineState::Ready,
        }
    }

    /// How a refusal names the request.
    pub open spec fn verb(self) -> Seq<char> {
        match self {
            Transition::SetNull => seq!['s', 'e', 't', ' ', 'n', 'u', 'l', 'l'],
            Transition::Play => seq!['p', 'l', 'a', 'y'],
            Transition::Pause => seq!['p', 'a', 'u', 's', 'e'],
            Transition::Stop => seq!['s', 't', 'o', 'p'],
        }
    }

    /// The state that the pipeline is asked to reach.
    pub fn target_state(self) -> (state: PipelineState)
        ensures
            state == self.target(),
    {
        match self {
            Transition::SetNull => PipelineState::Null,
            Transition::Play => PipelineState::Playing,
            Transition::Pause => PipelineState::Paused,
            Transition::Stop => PipelineState::Ready,
        }
    }

    /// How a refusal names the request.
    pub fn name(self) -> (text: &'static str)
        ensures
            text@ == self.verb(),
    {
        proof {
            reveal_strlit("set null");
            reveal_strlit("play");
            reveal_strlit("pause");
            reveal_strlit("stop");
        }
        let text = match self {
            Transition::SetNull => "set null",
            Transition::Play => "play",
            Transition::Pause => "pause",
            Transition::Stop => "stop",
        };
        assert(text@ =~= self.verb());
        text
    }
}

/// One request to the pipeline.
#[derive(Debug)]
pub enum Command {
    /// Change to the transition's target state.
    Change(Transition),
    /// Take the media at this URI as the next thing to play.
    SetUri(String),
    /// Jump to this position, flushing, to the nearest key frame.
    Seek(ClockTime),
}

/// A `Command` over mathematical values.
pub enum CommandView {
    Change(Transition),
    SetUri(Seq<char>),
    Seek(nat),
}

impl View for Command {
    type V = CommandView;

    open spec fn view(&self) -> CommandView {
        match *self {
            Command::Change(transition) => CommandView::Change(transition),
            Command::SetUri(uri) => CommandView::SetUri(uri@),
            Command::Seek(target) => CommandView::Seek(target@),
        }
    }
}

impl CommandView {
    /// How a refusal names the request. Setting the URI is never refused.
    pub open spec fn verb(self) -> Seq<char> {
        match self {
            CommandView::Change(transition) => transition.verb(),
            CommandView::SetUri(_) => seq![],
            CommandView::Seek(_) => seq!['s', 'e', 'e', 'k'],
        }
    }
}

/// A plan over mathematical values.
pub open spec fn plan_view(plan: Seq<Command>) -> Seq<CommandView> {
    plan.map_values(|command: Command| command@)
}

/// The URI of a local file: `file://` and then the path. A path that is not
/// valid Unicode, given as `None`, counts as the empty path.
pub open spec fn file_uri(path: Option<Seq<char>>) -> Seq<char> {
    seq!['f', 'i', 'l', 'e', ':', '/', '/'] + match path {
        Some(text) => text,
        None => seq![],
    }
}

/// The characters of a path that may lack them.
pub open spec fn path_text(path: Option<&str>) -> Option<Seq<char>> {
    match path {
        Some(text) => Some(text@),
        None => None,
    }
}

/// The plan that loads the file at `path`: stop, set the URI, play.
pub open spec fn load_plan(path: Option<&str>) -> Seq<CommandView> {
    seq![
        CommandView::Change(Transition::Stop),
        CommandView::SetUri(file_uri(path_text(path))),
        CommandView::Change(Transition::Play),
    ]
}

/// The unsigned number with the bits of `offset`.
pub open spec fn reinterpreted(offset: i64) -> nat {
    if offset >= 0 {
        offset as nat
    } else {
        (offset + 0x1_0000_0000_0000_0000) as nat
    }
}

/// What the controller remembers of the media between ticks.
#[derive(Debug)]
pub struct MediaPlayer {
    /// Length of the current media, once the pipeline has told it.
    pub duration: Option<ClockTime>,
    /// Position of the playback, as last told by the pipeline or set by a
    /// stop or a load.
    pub position: Option<ClockTime>,
}

/// A `MediaPlayer` over mathematical values.
pub struct MediaPlayerView {
    pub duration: Option<nat>,
    pub position: Option<nat>,
}

impl View for MediaPlayer {
    type V = MediaPlayerView;

    open spec fn view(&self) -> MediaPlayerView {
        MediaPlayerView { duration: nanos_of(self.duration), position: nanos_of(self.position) }
    }
}

impl MediaPlayerView {
    /// The bookkeeping after the pipeline has accepted `command`: a stop
    /// rewinds the position, a new URI rewinds it and forgets the duration,
    /// and nothing else is touched.
    pub open spec fn after(self, command: CommandView) -> MediaPlayerView {
        match command {
            CommandView::Change(Transition::Stop) => MediaPlayerView {
                duration: self.duration,
                position: Some(0),
            },
            CommandView::SetUri(_) => MediaPlayerView { duration: None, position: Some(0) },
            _ => self,
        }
    }

    /// The bookkeeping after a tick's poll: a position that the pipeline told
    /// replaces the old one; a duration is taken only while none is known.
    pub open spec fn polled(self, position: Option<nat>, duration: Option<nat>) -> MediaPlayerView {
        MediaPlayerView {
            duration: if self.duration is Some {
                self.duration
            } else {
                duration
            },
            position: if position is Some {
                position
            } else {
                self.position
            },
        }
    }
}

impl MediaPlayer {
    /// A controller that knows neither position nor duration.
    pub fn new() -> (player: MediaPlayer)
        ensures
            player@ == (MediaPlayerView { duration: None, position: None }),
    {
        MediaPlayer { duration: None, position: None }
    }

    /// The plan that loads the file at `path` and starts playing it: stop, set
    /// the URI, play. A path that is not valid Unicode is given as `None`.
    pub fn load_file(path: Option<&str>) -> (plan: Vec<Command>)
        ensures
            plan_view(plan@) == load_plan(path),
    {
        proof {
            reveal_strlit("file://");
            reveal_strlit("");
        }
        let text = match path {
            Some(text) => text,
            None => "",
        };
        let uri = String::from_str("file://").concat(text);
        assert(uri@ =~= file_uri(path_text(path)));
        let plan = vec![
            Command::Change(Transition::Stop),
            Command::SetUri(uri),
            Command::Change(Transition::Play),
        ];
        assert(plan_view(plan@) =~= load_plan(path));
        plan
    }

    /// The plan that follows the file dialog: nothing when the user
    /// cancelled, given as `None`; else the plan that loads the chosen file.
    pub fn select_file(choice: Option<Option<&str>>) -> (plan: Vec<Command>)
        ensures
            plan_view(plan@) == match choice {
                Some(path) => load_plan(path),
                None => seq![],
            },
    {
        match choice {
            Some(path) => MediaPlayer::load_file(path),
            None => {
                let plan: Vec<Command> = Vec::new();
                assert(plan_view(plan@) =~= seq![]);
                plan
            },
        }
    }

    /// The plan of a single change of state.
    fn change(transition: Transition) -> (plan: Vec<Command>)
        ensures
            plan_view(plan@) == seq![CommandView::Change(transition)],
    {
        let plan = vec![Command::Change(transition)];
        assert(plan_view(plan@) =~= seq![CommandView::Change(transition)]);
        plan
    }

    /// The plan that releases the pipeline.
    pub fn set_null() -> (plan: Vec<Command>)
        ensures
            plan_view(plan@) == seq![CommandView::Change(Transition::SetNull)],
    {
        MediaPlayer::change(Transition::SetNull)
    }

    /// The plan that starts or resumes playback.
    pub fn play() -> (plan: Vec<Command>)
        ensures
            plan_view(plan@) == seq![CommandView::Change(Transition::Play)],
    {
        MediaPlayer::change(Transition::Play)
    }

    /// The plan that pauses playback.
    pub fn pause() -> (plan: Vec<Command>)
        ensures
            plan_view(plan@) == seq![CommandView::Change(Transition::Pause)],
    {
        MediaPlayer::change(Transition::Pause)
    }

    /// The plan that stops playback; once accepted, the position is rewound.
    pub fn stop() -> (plan: Vec<Command>)
        ensures
            plan_view(plan@) == seq![CommandView::Change(Transition::Stop)],
    {
        MediaPlayer::change(Transition::Stop)
    }

    /// The plan that flips between playing and paused, given the pipeline's
    /// current state: a playing pipeline is paused, a paused or ready one is
    /// played, and in any other state nothing is sent.
    pub fn toggle_playback(state: PipelineState) -> (plan: Vec<Command>)
        ensures
            plan_view(plan@) == match state {
                PipelineState::Playing => seq![CommandView::Change(Transition::Pause)],
                PipelineState::Paused | PipelineState::Ready => seq![
                    CommandView::Change(Transition::Play),
                ],
                _ => seq![],
            },
    {
        match state {
            PipelineState::Playing => MediaPlayer::pause(),
            PipelineState::Paused | PipelineState::Ready => MediaPlayer::play(),
            _ => {
                let plan: Vec<Command> = Vec::new();
                assert(plan_view(plan@) =~= seq![]);
                plan
            },
        }
    }

    /// The plan that seeks to `offset` nanoseconds: the slider's fraction of
    /// the duration, which the caller has scaled and cut to a whole number.
    /// While no duration is known nothing is sent. A negative offset is taken
    /// by its bits, as an unsigned number; the one that would give the
    /// reserved clock value is not admitted.
    pub fn seek(&self, offset: i64) -> (plan: Vec<Command>)
        requires
            self.duration is Some ==> offset != -1,
        ensures
            plan_view(plan@) == if self.duration is Some {
                seq![CommandView::Seek(reinterpreted(offset))]
            } else {
                seq![]
            },
    {
        if self.duration.is_some() {
            let nanos: u64 = if offset >= 0 {
                offset as u64
            } else {
                u64::MAX - ((-(offset + 1)) as u64)
            };
            let plan = vec![Command::Seek(ClockTime::from_nseconds(nanos))];
            assert(plan_view(plan@) =~= seq![CommandView::Seek(reinterpreted(offset))]);
            plan
        } else {
            let plan: Vec<Command> = Vec::new();
            assert(plan_view(plan@) =~= seq![]);
            plan
        }
    }

    /// Position and duration in whole seconds, for the slider to show one as
    /// a fraction of the other; `None` while either is unknown.
    pub fn progress(&self) -> (seconds: Option<(u64, u64)>)
        ensures
            seconds == match (self@.position, self@.duration) {
                (Some(at), Some(of)) => Some(
                    ((at / (NANOS_PER_SECOND as nat)) as u64, (of / (NANOS_PER_SECOND as nat)) as u64),
                ),
                _ => None,
            },
    {
        match (self.position, self.duration) {
            (Some(at), Some(of)) => Some((at.seconds(), of.seconds())),
            _ => None,
        }
    }

    /// Takes in what the pipeline answered to this tick's queries.
    pub fn update_position(&mut self, position: Option<ClockTime>, duration: Option<ClockTime>)
        ensures
            final(self).position == if position is Some {
                position
            } else {
                old(self).position
            },
            final(self).duration == if old(self).duration is Some {
                old(self).duration
            } else {
                duration
            },
            final(self)@ == old(self)@.polled(nanos_of(position), nanos_of(duration)),
    {
        if position.is_some() {
            self.position = position;
        }
        if self.duration.is_none() {
            if duration.is_some() {
                self.duration = duration;
            }
        }
    }

    /// Takes in the pipeline's answer to `command`. An accepted command moves
    /// the bookkeeping on; a refused one leaves it alone and comes back as the
    /// error `Failed to <request>: <detail>`. Setting the URI is not answered
    /// by the pipeline, so it counts as accepted whatever is reported.
    pub fn completed(&mut self, command: &Command, outcome: Result<(), String>) -> (result: Result<
        (),
        PlayerError,
    >)
        ensures
            match outcome {
                Err(detail) if !(command is SetUri) => {
                    &&& *final(self) == *old(self)
                    &&& result is Err
                    &&& result->Err_0@ == PlayerErrorView::GstreamerError(
                        failure_text(command@.verb(), detail@),
                    )
                },
                _ => result is Ok && final(self)@ == old(self)@.after(command@),
            },
    {
        match (command, outcome) {
            (Command::Change(transition), Err(detail)) => Err(
                PlayerError::failed(transition.name(), detail.as_str()),
            ),
            (Command::Seek(_), Err(detail)) => {
                proof {
                    reveal_strlit("seek");
                }
                assert("seek"@ =~= command@.verb());
                Err(PlayerError::failed("seek", detail.as_str()))
            },
            (Command::Change(Transition::Stop), Ok(_)) => {
                self.position = Some(ClockTime::zero());
                Ok(())
            },
            (Command::SetUri(_), _) => {
                self.duration = None;
                self.position = Some(ClockTime::zero());
                Ok(())
            },
            _ => Ok(()),
        }
    }
}

} // verus!
