//! A sender that never waits: what the queue cannot take right now is held
//! back, one value at most, and offered again before anything new.

use vstd::prelude::*;

verus! {

/// `tokio::sync::mpsc::Sender`, the sending half of a bounded queue. It is
/// carried and never looked into.
#[verifier::external_type_specification]
#[verifier::external_body]
#[verifier::reject_recursive_types(T)]
pub struct ExSender<T>(tokio::sync::mpsc::Sender<T>);

/// `tokio::sync::mpsc::error::TrySendError`, with its two variants: the
/// queue is full, or its receiver is gone. Either holds the value that was
/// not sent.
#[verifier::external_type_specification]
#[verifier::reject_recursive_types(T)]
pub struct ExTrySendError<T>(tokio::sync::mpsc::error::TrySendError<T>);

/// `tokio::sync::mpsc::Sender::try_send` returns at once. Whether the queue
/// takes the value depends on the room in it and on the receiver; where it
/// does not, the error hands the same value back.
pub assume_specification<T>[ tokio::sync::mpsc::Sender::<T>::try_send ](
    sender: &mut tokio::sync::mpsc::Sender<T>,
    message: T,
) -> (res: Result<(), tokio::sync::mpsc::error::TrySendError<T>>)
    ensures
        res matches Err(tokio::sync::mpsc::error::TrySendError::Full(back)) ==> back == message,
        res matches Err(tokio::sync::mpsc::error::TrySendError::Closed(back)) ==> back == message,
;

/// The queue has lost its receiver.
pub type SenderClosed = ();

/// What becomes of the held-back value and what the caller is told, for
/// each way in which an attempt to send can end: sent, nothing is held; no
/// room, the value is held; no receiver, the value is dropped.
pub open spec fn settled<T>(outcome: Result<(), tokio::sync::mpsc::error::TrySendError<T>>) -> (
    Option<T>,
    Result<bool, SenderClosed>,
) {
    match outcome {
        Ok(_) => (None, Ok(true)),
        Err(tokio::sync::mpsc::error::TrySendError::Full(value)) => (Some(value), Ok(false)),
        Err(tokio::sync::mpsc::error::TrySendError::Closed(_)) => (None, Err(())),
    }
}

/// A sender with room for one value that the queue did not take.
#[verifier::reject_recursive_types(T)]
pub struct SingleBufferSender<T> {
    sender: tokio::sync::mpsc::Sender<T>,
    unsent: Option<T>,
}

impl<T> SingleBufferSender<T> {
    /// The value that is held back, if any.
    pub closed spec fn view(&self) -> Option<T> {
        self.unsent
    }

    pub fn new(sender: tokio::sync::mpsc::Sender<T>) -> (buffered: Self)
        ensures
            buffered@ is None,
    {
        SingleBufferSender { unsent: None, sender }
    }

    /// Records how an attempt to send ended.
    pub fn settle(
        &mut self,
        outcome: Result<(), tokio::sync::mpsc::error::TrySendError<T>>,
    ) -> (res: Result<bool, SenderClosed>)
        ensures
            (final(self)@, res) == settled(outcome),
    {
        match outcome {
            Ok(_) => {
                self.unsent = None;
                Ok(true)
            },
            Err(e) => match e {
                tokio::sync::mpsc::error::TrySendError::Full(value) => {
                    self.unsent = Some(value);
                    Ok(false)
                },
                tokio::sync::mpsc::error::TrySendError::Closed(_) => {
                    self.unsent = None;
                    Err(())
                },
            },
        }
    }

    /// Offers `value` to the queue and holds it back if there is no room.
    /// Returns whether it was sent, or an error if the receiver is gone.
    ///
    /// Nothing may be held back already. Whether the queue takes the value
    /// is the queue's doing; whatever it does, the value is either sent,
    /// held, or dropped with the error, and nothing else is ever held.
    pub fn send_or_store(&mut self, value: T) -> (res: Result<bool, SenderClosed>)
        requires
            old(self)@ is None,
        ensures
            res == Ok::<bool, SenderClosed>(true) ==> final(self)@ is None,
            res == Ok::<bool, SenderClosed>(false) ==> final(self)@ == Some(value),
            res is Err ==> final(self)@ is None,
    {
        let outcome = self.sender.try_send(value);
        self.settle(outcome)
    }

    /// Offers the value that is held back, if any, to the queue again.
    /// Returns whether nothing is held any more.
    pub fn try_flush(&mut self) -> (res: Result<bool, SenderClosed>)
        ensures
            old(self)@ is None ==> res == Ok::<bool, SenderClosed>(true) && final(self)@ is None,
            res == Ok::<bool, SenderClosed>(true) ==> final(self)@ is None,
            res == Ok::<bool, SenderClosed>(false) ==> final(self)@ == old(self)@,
            res is Err ==> final(self)@ is None,
    {
        match self.unsent.take() {
            None => Ok(true),
            Some(value) => self.send_or_store(value),
        }
    }
}

} // verus!
