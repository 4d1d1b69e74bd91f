use leierkasten_client::audio_client::PlayingInfo;
use leierkasten_client::audio_socket::{AudioSocket, SocketEvent, State, StreamStartMessage};
use leierkasten_client::gui::{
    buffer_len_to_ms, current, Player, PlayerState, Screen, BUFFER_HISTORY, DEFAULT_TARGET_BUFFER,
};
use leierkasten_client::token::{Cancelable, Completable};

fn item(start_us: u64, end_us: Option<u64>) -> StreamStartMessage {
    StreamStartMessage {
        name: "Track".to_string(),
        offset_samples: 0,
        start_timestamp_us: start_us,
        end_timestamp_us: end_us,
    }
}

#[test]
fn player_state_starts_buffering_with_default_target() {
    let state = PlayerState::new();
    assert!(state.state().item.is_none());
    assert!(state.state().buffering);
    assert_eq!(state.timestamp(), 0);
    assert_eq!(state.buffer(), 0);
    assert_eq!(state.target_buffer(), 50);
    assert_eq!(DEFAULT_TARGET_BUFFER, 50);
}

#[test]
fn player_state_setters_change_one_field() {
    let mut state = PlayerState::new();
    state.set_timestamp(4800);
    state.set_buffer(12);
    state.set_target_buffer(30);
    state.set_buffering(false);
    assert_eq!(state.timestamp(), 4800);
    assert_eq!(state.buffer(), 12);
    assert_eq!(state.target_buffer(), 30);
    assert!(!state.state().buffering);
    assert!(state.state().item.is_none());
    state.set_state(PlayingInfo { item: Some(item(1, None)), buffering: true });
    assert_eq!(state.state().item.as_ref().unwrap().name, "Track");
    assert!(state.state().buffering);
    assert_eq!(state.timestamp(), 4800);
    assert_eq!(state.buffer(), 12);
    assert_eq!(state.target_buffer(), 30);
}

#[test]
fn current_adds_played_time_to_the_start() {
    let now = current(48000, &item(2_000_000, Some(9_500_000)));
    assert_eq!(now.position_us, 3_000_000);
    assert_eq!(now.timestamp, 3);
    assert_eq!(now.duration_s, Some(9));
}

#[test]
fn current_rounds_down() {
    let now = current(1, &item(0, None));
    assert_eq!(now.position_us, 20);
    assert_eq!(now.timestamp, 0);
    assert_eq!(now.duration_s, None);
    let now = current(47999, &item(0, None));
    assert_eq!(now.position_us, 999_979);
    assert_eq!(now.timestamp, 0);
}

#[test]
fn current_takes_the_largest_inputs() {
    let now = current(u64::MAX, &item(u64::MAX, Some(u64::MAX)));
    let elapsed = u64::MAX as u128 * 1_000_000 / 48_000;
    assert_eq!(now.position_us, u64::MAX as u128 + elapsed);
    assert_eq!(now.timestamp as u128, now.position_us / 1_000_000);
    assert_eq!(now.duration_s, Some((u64::MAX / 1_000_000) as i64));
}

#[test]
fn buffer_length_in_milliseconds() {
    assert_eq!(buffer_len_to_ms(0), 0);
    assert_eq!(buffer_len_to_ms(1), 20);
    assert_eq!(buffer_len_to_ms(50), 1000);
    assert_eq!(buffer_len_to_ms(usize::MAX), usize::MAX as u128 * 20);
}

#[test]
fn history_slides() {
    let mut player: Player<u8> = Player::new();
    assert_eq!(BUFFER_HISTORY, 500);
    assert_eq!(player.max_buffer(), 0);
    player.record_buffer(7);
    player.record_buffer(3);
    assert_eq!(player.max_buffer(), 7);
    for _ in 0..(BUFFER_HISTORY - 2) {
        player.record_buffer(1);
    }
    assert_eq!(player.max_buffer(), 7);
    player.record_buffer(1);
    assert_eq!(player.max_buffer(), 3);
    player.record_buffer(1);
    assert_eq!(player.max_buffer(), 1);
}

#[test]
fn screen_follows_the_session() {
    let mut socket = AudioSocket::new("a".to_string());
    assert_eq!(Player::<u8>::screen(&socket), Screen::NotConnected);
    socket.step(SocketEvent::Start).unwrap();
    assert_eq!(Player::<u8>::screen(&socket), Screen::Connecting);
    socket.step(SocketEvent::Opened).unwrap();
    assert_eq!(Player::<u8>::screen(&socket), Screen::Playing);
    socket.request_cancel();
    assert_eq!(socket.state(), State::Connected);
    assert_eq!(Player::<u8>::screen(&socket), Screen::Disconnecting);
    socket.step(SocketEvent::Timeout).unwrap();
    assert_eq!(Player::<u8>::screen(&socket), Screen::Disconnecting);
}

#[test]
fn disconnect_cancels_and_clears_the_display() {
    let mut socket = AudioSocket::new("a".to_string());
    socket.step(SocketEvent::Start).unwrap();
    socket.step(SocketEvent::Opened).unwrap();
    let mut info = PlayingInfo { item: Some(item(0, None)), buffering: false };
    Player::<u8>::disconnect(&mut socket, &mut info);
    assert!(socket.token().is_canceled());
    assert!(!socket.token().is_completed());
    assert!(info.item.is_none());
    assert!(info.buffering);
}

#[test]
fn update_clears_the_session_once_the_task_has_ended() {
    let mut socket = AudioSocket::new("a".to_string());
    let mut player: Player<&str> = Player::new();
    socket.step(SocketEvent::Start).unwrap();
    player.attach("task");
    socket.step(SocketEvent::Opened).unwrap();
    player.update(&mut socket);
    assert_eq!(socket.state(), State::Connected);
    socket.request_cancel();
    socket.step(SocketEvent::Timeout).unwrap();
    player.update(&mut socket);
    assert_eq!(socket.state(), State::Disconnecting);
    socket.step(SocketEvent::Closed).unwrap();
    player.update(&mut socket);
    assert_eq!(socket.state(), State::Idle);
    assert!(!socket.token().is_canceled());
    assert!(!socket.token().is_completed());
}

#[test]
fn update_without_a_task_leaves_a_completed_session() {
    let mut socket = AudioSocket::new("a".to_string());
    let mut player: Player<u8> = Player::new();
    socket.step(SocketEvent::Start).unwrap();
    socket.step(SocketEvent::OpenFailed).unwrap();
    player.update(&mut socket);
    assert_eq!(socket.state(), State::Disconnecting);
    assert!(socket.token().is_completed());
    player.attach(1);
    player.update(&mut socket);
    assert_eq!(socket.state(), State::Idle);
}
