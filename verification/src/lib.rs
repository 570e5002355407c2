//! Verified core of a desktop video player.
//!
//! The player drives a `playbin` pipeline and paints its frames in an
//! immediate-mode window. Everything that decides something lives here, as
//! functions from plain values to plain values: which commands a user action
//! sends to the pipeline and how the bookkeeping follows their outcome, what
//! the bus listener does with a message, how a decoded frame becomes an image,
//! and what the window shows on a tick. The surrounding program performs the
//! commands and hands the outcomes back.

pub mod clock;
pub mod error;
pub mod frame;
pub mod player;
pub mod bus;
pub mod shell;
