use leierkasten_client::single_buffer_sender::SingleBufferSender;
use tokio::sync::mpsc::channel;
use tokio::sync::mpsc::error::{TryRecvError, TrySendError};

#[test]
fn sends_while_there_is_room() {
    let (sender, mut receiver) = channel(2);
    let mut buffered = SingleBufferSender::new(sender);
    assert_eq!(buffered.send_or_store(1), Ok(true));
    assert_eq!(buffered.send_or_store(2), Ok(true));
    assert_eq!(receiver.try_recv(), Ok(1));
    assert_eq!(receiver.try_recv(), Ok(2));
}

#[test]
fn holds_back_what_does_not_fit_and_flushes_it_later() {
    let (sender, mut receiver) = channel(1);
    let mut buffered = SingleBufferSender::new(sender);
    assert_eq!(buffered.try_flush(), Ok(true));
    assert_eq!(buffered.send_or_store(1), Ok(true));
    assert_eq!(buffered.send_or_store(2), Ok(false));
    assert_eq!(buffered.try_flush(), Ok(false));
    assert_eq!(receiver.try_recv(), Ok(1));
    assert_eq!(buffered.try_flush(), Ok(true));
    assert_eq!(buffered.try_flush(), Ok(true));
    assert_eq!(receiver.try_recv(), Ok(2));
    assert_eq!(receiver.try_recv(), Err(TryRecvError::Empty));
}

#[test]
fn reports_a_lost_receiver() {
    let (sender, receiver) = channel(1);
    let mut buffered = SingleBufferSender::new(sender);
    drop(receiver);
    assert_eq!(buffered.send_or_store(1), Err(()));
    assert_eq!(buffered.try_flush(), Ok(true));
}

#[test]
fn settle_records_each_outcome() {
    let (sender, _receiver) = channel::<u8>(1);
    let mut buffered = SingleBufferSender::new(sender);
    assert_eq!(buffered.settle(Ok(())), Ok(true));
    assert_eq!(buffered.settle(Err(TrySendError::Full(5))), Ok(false));
    assert_eq!(buffered.settle(Err(TrySendError::Closed(6))), Err(()));
    assert_eq!(buffered.try_flush(), Ok(true));
}
