//! The bus listener: what the player does with a message of the pipeline.

use vstd::prelude::*;
use crate::player::PipelineState;

verus! {

/// A message on the pipeline's bus, as far as the listener tells messages
/// apart.
#[derive(Clone, Copy, Debug, PartialEq, Eq, Structural)]
pub enum BusMessage {
    /// An element reports an error.
    Error,
    /// The media has been played to its end.
    Eos,
    /// An element has changed state; `from_pipeline` tells whether that
    /// element is the pipeline itself.
    StateChanged { from_pipeline: bool },
    /// Anything else.
    Other,
}

/// What the listener writes to the log.
#[derive(Clone, Copy, Debug, PartialEq, Eq, Structural)]
pub enum Notice {
    /// The error, with its source and debug text.
    Error,
    /// That the end of the stream was reached.
    EndOfStream,
    /// The pipeline's old and new state.
    StateChange,
}

/// The listener's answer to a message.
#[derive(Clone, Copy, Debug, PartialEq, Eq, Structural)]
pub struct BusReaction {
    /// What to log, if anything.
    pub notice: Option<Notice>,
    /// The state to ask of the pipeline, if any. The pipeline's answer is
    /// not looked at.
    pub request: Option<PipelineState>,
    /// Whether the listener stays on the bus.
    pub keep_watching: bool,
}

/// The listener's answer to `message`, over mathematical values. Once the
/// pipeline is gone nothing is done. Errors are logged; the end of the stream
/// is logged and the pipeline asked to become ready; of the changes of state
/// only the pipeline's own are logged. The listener never leaves the bus.
pub open spec fn reaction(pipeline_alive: bool, message: BusMessage) -> BusReaction {
    if !pipeline_alive {
        BusReaction { notice: None, request: None, keep_watching: true }
    } else {
        match message {
            BusMessage::Error => BusReaction {
                notice: Some(Notice::Error),
                request: None,
                keep_watching: true,
            },
            BusMessage::Eos => BusReaction {
                notice: Some(Notice::EndOfStream),
                request: Some(PipelineState::Ready),
                keep_watching: true,
            },
            BusMessage::StateChanged { from_pipeline: true } => BusReaction {
                notice: Some(Notice::StateChange),
                request: None,
                keep_watching: true,
            },
            _ => BusReaction { notice: None, request: None, keep_watching: true },
        }
    }
}

/// The listener's answer to `message`; `pipeline_alive` tells whether the
/// pipeline still exists.
pub fn on_bus_message(pipeline_alive: bool, message: BusMessage) -> (answer: BusReaction)
    ensures
        answer == reaction(pipeline_alive, message),
{
    let mut answer = BusReaction { notice: None, request: None, keep_watching: true };
    if pipeline_alive {
        match message {
            BusMessage::Error => {
                answer.notice = Some(Notice::Error);
            },
            BusMessage::Eos => {
                answer.notice = Some(Notice::EndOfStream);
                answer.request = Some(PipelineState::Ready);
            },
            BusMessage::StateChanged { from_pipeline } => {
                if from_pipeline {
                    answer.notice = Some(Notice::StateChange);
                }
            },
            BusMessage::Other => {},
        }
    }
    answer
}

} // verus!
