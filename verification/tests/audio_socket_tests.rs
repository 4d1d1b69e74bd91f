use leierkasten_client::audio_socket::{
    AudioMessage, AudioSocket, HandleMessageResult, SocketAction, SocketError, SocketEvent,
    SocketFault, SocketMessage, State, StreamStartMessage, POLL_INTERVAL_MS,
};
use leierkasten_client::token::{Cancelable, Completable};

fn info(name: &str) -> StreamStartMessage {
    StreamStartMessage {
        name: name.to_string(),
        offset_samples: 5,
        start_timestamp_us: 6,
        end_timestamp_us: Some(7),
    }
}

fn connected() -> AudioSocket {
    let mut socket = AudioSocket::new("ws://localhost:2020/".to_string());
    assert!(matches!(socket.step(SocketEvent::Start), Ok(SocketAction::Open)));
    assert!(matches!(socket.step(SocketEvent::Opened), Ok(SocketAction::Poll)));
    socket
}

#[test]
fn poll_interval_is_twenty_milliseconds() {
    assert_eq!(POLL_INTERVAL_MS, 20);
}

#[test]
fn new_socket_is_idle() {
    let socket = AudioSocket::new("ws://example/".to_string());
    assert_eq!(socket.state(), State::Idle);
    assert_eq!(socket.address(), "ws://example/");
    assert!(!socket.is_session_active());
    assert!(!socket.token().is_canceled());
    assert!(!socket.token().is_completed());
    assert_eq!(socket.fault(), None);
}

#[test]
fn session_walks_through_its_states() {
    let mut socket = AudioSocket::new("ws://example/".to_string());
    assert!(matches!(socket.step(SocketEvent::Start), Ok(SocketAction::Open)));
    assert_eq!(socket.state(), State::Connecting);
    assert!(socket.is_session_active());
    assert!(matches!(socket.step(SocketEvent::Opened), Ok(SocketAction::Poll)));
    assert_eq!(socket.state(), State::Connected);
    assert!(matches!(socket.step(SocketEvent::Timeout), Ok(SocketAction::Poll)));
    assert_eq!(socket.state(), State::Connected);
    assert!(matches!(socket.step(SocketEvent::StreamEnded), Ok(SocketAction::Close)));
    assert_eq!(socket.state(), State::Disconnecting);
    assert!(!socket.token().is_completed());
    assert!(matches!(socket.step(SocketEvent::Closed), Ok(SocketAction::Finish)));
    assert_eq!(socket.state(), State::Disconnecting);
    assert!(socket.token().is_completed());
    assert_eq!(socket.fault(), None);
    assert!(socket.reap());
    assert_eq!(socket.state(), State::Idle);
    assert!(!socket.token().is_completed());
}

#[test]
fn start_from_a_state_other_than_idle_is_refused() {
    let mut socket = AudioSocket::new("a".to_string());
    socket.step(SocketEvent::Start).unwrap();
    assert!(matches!(socket.step(SocketEvent::Start), Err(SocketError::Unexpected)));
    assert_eq!(socket.state(), State::Connecting);
    socket.step(SocketEvent::Opened).unwrap();
    assert!(matches!(socket.step(SocketEvent::Start), Err(SocketError::Unexpected)));
    assert_eq!(socket.state(), State::Connected);
    socket.step(SocketEvent::StreamEnded).unwrap();
    assert!(matches!(socket.step(SocketEvent::Start), Err(SocketError::Unexpected)));
    assert_eq!(socket.state(), State::Disconnecting);
}

#[test]
fn events_out_of_place_are_refused() {
    let mut socket = AudioSocket::new("a".to_string());
    assert!(socket.step(SocketEvent::Opened).is_err());
    assert!(socket.step(SocketEvent::Timeout).is_err());
    assert!(socket.step(SocketEvent::Delivered).is_err());
    assert!(socket.step(SocketEvent::Closed).is_err());
    assert_eq!(socket.state(), State::Idle);
    let mut socket = connected();
    assert!(socket.step(SocketEvent::Delivered).is_err());
    assert!(socket.step(SocketEvent::ConsumerGone).is_err());
    assert!(socket.step(SocketEvent::Opened).is_err());
    assert!(socket.step(SocketEvent::Closed).is_err());
    assert_eq!(socket.state(), State::Connected);
    assert!(socket.accepts(&SocketEvent::Timeout));
    assert!(!socket.accepts(&SocketEvent::Start));
}

#[test]
fn audio_and_resource_changes_are_forwarded() {
    let mut socket = connected();
    match socket.step(SocketEvent::Received(SocketMessage::Binary(vec![1, 2, 3]))) {
        Ok(SocketAction::Forward(AudioMessage::Audio(data))) => assert_eq!(data, vec![1, 2, 3]),
        other => panic!("unexpected: {:?}", other),
    }
    assert!(socket.step(SocketEvent::Timeout).is_err());
    assert!(matches!(socket.step(SocketEvent::Delivered), Ok(SocketAction::Poll)));
    match socket.step(SocketEvent::Received(SocketMessage::ResourceChange(info("Track A")))) {
        Ok(SocketAction::Forward(AudioMessage::NewResource(message))) => {
            assert_eq!(message.name, "Track A");
            assert_eq!(message.offset_samples, 5);
            assert_eq!(message.start_timestamp_us, 6);
            assert_eq!(message.end_timestamp_us, Some(7));
        }
        other => panic!("unexpected: {:?}", other),
    }
    assert!(matches!(socket.step(SocketEvent::Delivered), Ok(SocketAction::Poll)));
    assert_eq!(socket.state(), State::Connected);
}

#[test]
fn malformed_message_is_dropped() {
    let mut socket = connected();
    let result = socket.step(SocketEvent::Received(SocketMessage::Malformed));
    assert!(matches!(result, Ok(SocketAction::Poll)));
    assert_eq!(socket.state(), State::Connected);
    assert_eq!(socket.fault(), None);
    assert!(socket.accepts(&SocketEvent::Timeout));
    assert!(!socket.token().is_completed());
}

#[test]
fn other_messages_are_ignored() {
    let mut socket = connected();
    assert!(matches!(
        socket.step(SocketEvent::Received(SocketMessage::Other)),
        Ok(SocketAction::Poll)
    ));
    assert_eq!(socket.state(), State::Connected);
}

#[test]
fn close_notification_ends_the_loop() {
    let mut socket = connected();
    assert!(matches!(
        socket.step(SocketEvent::Received(SocketMessage::Close)),
        Ok(SocketAction::Close)
    ));
    assert_eq!(socket.state(), State::Disconnecting);
    assert_eq!(socket.fault(), None);
}

#[test]
fn handle_message_classifies() {
    assert!(matches!(
        AudioSocket::handle_message(SocketMessage::Binary(vec![4])),
        HandleMessageResult::Forward(AudioMessage::Audio(_))
    ));
    assert!(matches!(
        AudioSocket::handle_message(SocketMessage::ResourceChange(info("x"))),
        HandleMessageResult::Forward(AudioMessage::NewResource(_))
    ));
    assert!(matches!(
        AudioSocket::handle_message(SocketMessage::Malformed),
        HandleMessageResult::Continue
    ));
    assert!(matches!(
        AudioSocket::handle_message(SocketMessage::Other),
        HandleMessageResult::Continue
    ));
    assert!(matches!(AudioSocket::handle_message(SocketMessage::Close), HandleMessageResult::Exit));
}

#[test]
fn cancel_ends_the_session_at_the_next_poll() {
    let mut socket = connected();
    socket.request_cancel();
    assert!(socket.token().is_canceled());
    assert_eq!(socket.state(), State::Connected);
    assert!(matches!(socket.step(SocketEvent::Timeout), Ok(SocketAction::Close)));
    assert_eq!(socket.state(), State::Disconnecting);
    assert!(matches!(socket.step(SocketEvent::Closed), Ok(SocketAction::Finish)));
    assert!(socket.token().is_completed());
    assert!(socket.token().is_canceled());
}

#[test]
fn cancel_during_a_delivery_ends_after_it() {
    let mut socket = connected();
    socket.step(SocketEvent::Received(SocketMessage::Binary(vec![1]))).unwrap();
    socket.request_cancel();
    assert!(matches!(socket.step(SocketEvent::Delivered), Ok(SocketAction::Close)));
    assert!(matches!(socket.step(SocketEvent::CloseFailed), Ok(SocketAction::Finish)));
    assert!(socket.token().is_completed());
    assert_eq!(socket.fault(), Some(SocketFault::CloseFailed));
}

#[test]
fn cancel_while_connecting_still_connects_and_leaves_at_the_next_step() {
    let mut socket = AudioSocket::new("a".to_string());
    socket.step(SocketEvent::Start).unwrap();
    socket.request_cancel();
    assert_eq!(socket.state(), State::Connecting);
    assert!(matches!(socket.step(SocketEvent::Opened), Ok(SocketAction::Poll)));
    assert_eq!(socket.state(), State::Connected);
    assert!(socket.token().is_canceled());
    assert!(matches!(socket.step(SocketEvent::Timeout), Ok(SocketAction::Close)));
    assert_eq!(socket.state(), State::Disconnecting);
    assert!(matches!(socket.step(SocketEvent::Closed), Ok(SocketAction::Finish)));
    assert!(socket.token().is_completed());
}

#[test]
fn states_are_written_in_order() {
    let mut socket = AudioSocket::new("a".to_string());
    let mut seen = vec![socket.state()];
    for event in vec![
        SocketEvent::Start,
        SocketEvent::Opened,
        SocketEvent::Timeout,
        SocketEvent::Received(SocketMessage::Binary(vec![1])),
        SocketEvent::Delivered,
        SocketEvent::StreamEnded,
        SocketEvent::Closed,
    ] {
        socket.step(event).unwrap();
        if *seen.last().unwrap() != socket.state() {
            seen.push(socket.state());
        }
    }
    assert_eq!(
        seen,
        vec![State::Idle, State::Connecting, State::Connected, State::Disconnecting]
    );
}

#[test]
fn canceled_session_still_forwards_what_arrived() {
    let mut socket = connected();
    socket.request_cancel();
    assert!(matches!(
        socket.step(SocketEvent::Received(SocketMessage::Binary(vec![1]))),
        Ok(SocketAction::Forward(_))
    ));
    assert!(matches!(socket.step(SocketEvent::Delivered), Ok(SocketAction::Close)));
}

#[test]
fn open_failure_ends_the_session_with_a_fault() {
    let mut socket = AudioSocket::new("a".to_string());
    socket.step(SocketEvent::Start).unwrap();
    assert!(matches!(socket.step(SocketEvent::OpenFailed), Ok(SocketAction::Finish)));
    assert_eq!(socket.state(), State::Disconnecting);
    assert!(socket.token().is_completed());
    assert_eq!(socket.fault(), Some(SocketFault::OpenFailed));
    assert!(socket.step(SocketEvent::Closed).is_err());
}

#[test]
fn stream_failure_is_recorded() {
    let mut socket = connected();
    assert!(matches!(socket.step(SocketEvent::StreamFailed), Ok(SocketAction::Close)));
    assert_eq!(socket.fault(), Some(SocketFault::StreamFailed));
    assert!(matches!(socket.step(SocketEvent::Closed), Ok(SocketAction::Finish)));
    assert_eq!(socket.fault(), Some(SocketFault::StreamFailed));
}

#[test]
fn lost_consumer_ends_the_session() {
    let mut socket = connected();
    socket.step(SocketEvent::Received(SocketMessage::Binary(vec![1]))).unwrap();
    assert!(matches!(socket.step(SocketEvent::ConsumerGone), Ok(SocketAction::Close)));
    assert_eq!(socket.state(), State::Disconnecting);
    assert_eq!(socket.fault(), Some(SocketFault::ConsumerGone));
}

#[test]
fn reap_before_completion_changes_nothing() {
    let mut socket = connected();
    socket.request_cancel();
    assert!(!socket.reap());
    assert_eq!(socket.state(), State::Connected);
    assert!(socket.token().is_canceled());
    socket.step(SocketEvent::Timeout).unwrap();
    assert!(!socket.reap());
    assert_eq!(socket.state(), State::Disconnecting);
}

#[test]
fn session_can_start_again_after_reap() {
    let mut socket = connected();
    socket.request_cancel();
    socket.step(SocketEvent::StreamFailed).unwrap();
    socket.step(SocketEvent::Closed).unwrap();
    assert!(socket.reap());
    assert!(!socket.token().is_canceled());
    assert_eq!(socket.fault(), Some(SocketFault::StreamFailed));
    assert!(matches!(socket.step(SocketEvent::Start), Ok(SocketAction::Open)));
    assert_eq!(socket.fault(), None);
    assert!(matches!(socket.step(SocketEvent::Opened), Ok(SocketAction::Poll)));
}

#[test]
fn abandoned_session_is_completed_with_a_fault() {
    let mut socket = AudioSocket::new("a".to_string());
    assert!(socket.step(SocketEvent::Abandoned).is_err());
    let mut socket = connected();
    socket.step(SocketEvent::Received(SocketMessage::Binary(vec![1]))).unwrap();
    assert!(matches!(socket.step(SocketEvent::Abandoned), Ok(SocketAction::Finish)));
    assert_eq!(socket.state(), State::Disconnecting);
    assert!(socket.token().is_completed());
    assert_eq!(socket.fault(), Some(SocketFault::Abandoned));
    assert!(socket.step(SocketEvent::Abandoned).is_err());
    assert!(socket.reap());
    assert_eq!(socket.state(), State::Idle);
}
