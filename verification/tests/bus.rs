use video_player::bus::{on_bus_message, BusMessage, BusReaction, Notice};
use video_player::player::PipelineState;

const NOTHING: BusReaction = BusReaction { notice: None, request: None, keep_watching: true };

#[test]
fn an_error_is_logged() {
    assert_eq!(
        on_bus_message(true, BusMessage::Error),
        BusReaction { notice: Some(Notice::Error), request: None, keep_watching: true }
    );
}

#[test]
fn the_end_of_the_stream_makes_the_pipeline_ready() {
    assert_eq!(
        on_bus_message(true, BusMessage::Eos),
        BusReaction {
            notice: Some(Notice::EndOfStream),
            request: Some(PipelineState::Ready),
            keep_watching: true,
        }
    );
}

#[test]
fn the_pipelines_own_state_change_is_logged() {
    assert_eq!(
        on_bus_message(true, BusMessage::StateChanged { from_pipeline: true }),
        BusReaction { notice: Some(Notice::StateChange), request: None, keep_watching: true }
    );
}

#[test]
fn an_elements_state_change_is_passed_over() {
    assert_eq!(on_bus_message(true, BusMessage::StateChanged { from_pipeline: false }), NOTHING);
}

#[test]
fn other_messages_are_passed_over() {
    assert_eq!(on_bus_message(true, BusMessage::Other), NOTHING);
}

#[test]
fn nothing_is_done_once_the_pipeline_is_gone() {
    for message in [
        BusMessage::Error,
        BusMessage::Eos,
        BusMessage::StateChanged { from_pipeline: true },
        BusMessage::StateChanged { from_pipeline: false },
        BusMessage::Other,
    ] {
        assert_eq!(on_bus_message(false, message), NOTHING);
    }
}

#[test]
fn the_listener_never_leaves_the_bus() {
    for alive in [true, false] {
        for message in [
            BusMessage::Error,
            BusMessage::Eos,
            BusMessage::StateChanged { from_pipeline: true },
            BusMessage::StateChanged { from_pipeline: false },
            BusMessage::Other,
        ] {
            assert!(on_bus_message(alive, message).keep_watching);
        }
    }
}
