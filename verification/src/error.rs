//! What can go wrong while the player talks to the pipeline.

use vstd::prelude::*;
use vstd::string::*;

verus! {

/// A failure of the player.
#[derive(Debug)]
pub enum PlayerError {
    /// The pipeline refused a request; the text says which one and why.
    GstreamerError(String),
    /// The multimedia framework could not be started; the text says why.
    InitializationError(String),
}

/// A `PlayerError` with its text as a sequence of characters.
pub enum PlayerErrorView {
    GstreamerError(Seq<char>),
    InitializationError(Seq<char>),
}

impl View for PlayerError {
    type V = PlayerErrorView;

    open spec fn view(&self) -> PlayerErrorView {
        match *self {
            PlayerError::GstreamerError(text) => PlayerErrorView::GstreamerError(text@),
            PlayerError::InitializationError(text) => PlayerErrorView::InitializationError(text@),
        }
    }
}

/// The characters `GStreamer error: `.
pub open spec fn gstreamer_prefix() -> Seq<char> {
    seq!['G', 'S', 't', 'r', 'e', 'a', 'm', 'e', 'r', ' ', 'e', 'r', 'r', 'o', 'r', ':', ' ']
}

/// The characters `Initialization error: `.
pub open spec fn initialization_prefix() -> Seq<char> {
    seq![
        'I', 'n', 'i', 't', 'i', 'a', 'l', 'i', 'z', 'a', 't', 'i', 'o', 'n', ' ', 'e', 'r', 'r',
        'o', 'r', ':', ' ',
    ]
}

/// The characters `Failed to `.
pub open spec fn failed_prefix() -> Seq<char> {
    seq!['F', 'a', 'i', 'l', 'e', 'd', ' ', 't', 'o', ' ']
}

/// The text of a refused request: `Failed to <what>: <detail>`.
pub open spec fn failure_text(what: Seq<char>, detail: Seq<char>) -> Seq<char> {
    failed_prefix() + what + seq![':', ' '] + detail
}

impl PlayerErrorView {
    /// The line shown for the error: the kind of failure, then its text.
    pub open spec fn message(self) -> Seq<char> {
        match self {
            PlayerErrorView::GstreamerError(text) => gstreamer_prefix() + text,
            PlayerErrorView::InitializationError(text) => initialization_prefix() + text,
        }
    }
}

impl PlayerError {
    /// The line shown for the error: `GStreamer error: ` or
    /// `Initialization error: `, followed by the error's text.
    pub fn message(&self) -> (line: String)
        ensures
            line@ == self@.message(),
    {
        proof {
            reveal_strlit("GStreamer error: ");
            reveal_strlit("Initialization error: ");
        }
        match self {
            PlayerError::GstreamerError(text) => {
                let line = String::from_str("GStreamer error: ").concat(text.as_str());
                assert(line@ =~= self@.message());
                line
            },
            PlayerError::InitializationError(text) => {
                let line = String::from_str("Initialization error: ").concat(text.as_str());
                assert(line@ =~= self@.message());
                line
            },
        }
    }

    /// The error of a request that the pipeline refused: `what` names the
    /// request and `detail` is the pipeline's own explanation.
    pub fn failed(what: &str, detail: &str) -> (error: PlayerError)
        ensures
            error@ == PlayerErrorView::GstreamerError(failure_text(what@, detail@)),
    {
        proof {
            reveal_strlit("Failed to ");
            reveal_strlit(": ");
        }
        let text = String::from_str("Failed to ").concat(what).concat(": ").concat(detail);
        assert(text@ =~= failure_text(what@, detail@));
        PlayerError::GstreamerError(text)
    }
}

} // verus!
