//! The network task: what arrives from the transport, what is forwarded to
//! the jitter buffer, and the connection state machine.

use vstd::prelude::*;
use crate::token::Cancelable;
use crate::token::CommonToken;
use crate::token::Completable;
use crate::token::SessionToken;
use crate::token::lemma_flags_independent;
use crate::token::lemma_session_flags;
use crate::token::session_token;

verus! {

/// The token that a session shares with its controller.
pub type SocketToken = SessionToken<()>;

/// The longest that the task waits for the transport before it looks at
/// the cancel flag again, in milliseconds.
pub const POLL_INTERVAL_MS: u64 = 20;

/// Announces a new playable item and where on its timeline the audio that
/// follows begins.
#[derive(Clone, Debug)]
pub struct StreamStartMessage {
    /// Display name of the item.
    pub name: String,
    /// Position, in samples, at which the audio that follows starts.
    pub offset_samples: u64,
    /// Start of the item on the shared clock, in microseconds.
    pub start_timestamp_us: u64,
    /// End of the item on the shared clock, in microseconds, where known.
    pub end_timestamp_us: Option<u64>,
}

/// One unit handed from the network task to the jitter buffer.
#[derive(Clone, Debug)]
pub enum AudioMessage {
    /// The audio that follows belongs to a new item.
    NewResource(StreamStartMessage),
    /// One encoded audio frame.
    Audio(Vec<u8>),
}

/// Where the network task stands.
#[derive(Clone, Copy, Debug, PartialEq, Eq, Structural)]
pub enum State {
    /// No task runs.
    Idle,
    /// The task is opening the transport.
    Connecting,
    /// The transport is open and polled.
    Connected,
    /// The task has left its loop and closes the transport, or has ended and
    /// waits to be cleared.
    Disconnecting,
}

/// One unit received from the transport, as far as the task tells them
/// apart.
#[derive(Clone, Debug)]
pub enum SocketMessage {
    /// A structured message that announces a new item.
    ResourceChange(StreamStartMessage),
    /// A structured message that could not be read.
    Malformed,
    /// A binary message: one encoded audio frame.
    Binary(Vec<u8>),
    /// The peer announces that it closes the connection.
    Close,
    /// Anything else, such as a keep-alive.
    Other,
}

/// What the task does with a message.
#[derive(Clone, Debug)]
pub enum HandleMessageResult {
    /// Hand this to the jitter buffer, then go on.
    Forward(AudioMessage),
    /// Nothing to hand on; go on.
    Continue,
    /// Leave the loop.
    Exit,
}

/// What the task does with `message`: resource changes and audio frames are
/// forwarded, a close notification ends the loop, everything else is
/// dropped.
pub open spec fn dispatch(message: SocketMessage) -> HandleMessageResult {
    match message {
        SocketMessage::ResourceChange(info) => HandleMessageResult::Forward(
            AudioMessage::NewResource(info),
        ),
        SocketMessage::Binary(data) => HandleMessageResult::Forward(AudioMessage::Audio(data)),
        SocketMessage::Close => HandleMessageResult::Exit,
        SocketMessage::Malformed => HandleMessageResult::Continue,
        SocketMessage::Other => HandleMessageResult::Continue,
    }
}

/// What happened since the task was last told what to do.
#[derive(Clone, Debug)]
pub enum SocketEvent {
    /// The controller starts a session.
    Start,
    /// The transport is open.
    Opened,
    /// The transport could not be opened.
    OpenFailed,
    /// The poll interval passed and nothing arrived.
    Timeout,
    /// A message arrived.
    Received(SocketMessage),
    /// The transport has ended.
    StreamEnded,
    /// The transport reported an error.
    StreamFailed,
    /// The queue took the forwarded message.
    Delivered,
    /// The queue has lost its consumer.
    ConsumerGone,
    /// The transport is closed.
    Closed,
    /// Closing the transport failed.
    CloseFailed,
    /// The task is gone before the session came to its end.
    Abandoned,
}

/// What the task is to do next.
#[derive(Clone, Debug)]
pub enum SocketAction {
    /// Open the transport to the session's address, then report `Opened` or
    /// `OpenFailed`.
    Open,
    /// Wait for the transport, no longer than the poll interval, then report
    /// what came.
    Poll,
    /// Put this message into the queue, then report `Delivered` or
    /// `ConsumerGone`.
    Forward(AudioMessage),
    /// Close the transport, then report `Closed` or `CloseFailed`.
    Close,
    /// The task has ended and the token is completed.
    Finish,
}

/// Why a session ended other than by request or by the peer.
#[derive(Clone, Copy, Debug, PartialEq, Eq, Structural)]
pub enum SocketFault {
    OpenFailed,
    StreamFailed,
    ConsumerGone,
    CloseFailed,
    Abandoned,
}

/// The event does not belong to the state that the session is in.
#[derive(Clone, Copy, Debug, PartialEq, Eq, Structural)]
pub enum SocketError {
    Unexpected,
}

/// A session as a mathematical value.
pub struct SocketView {
    pub state: State,
    /// The controller asked the task to stop.
    pub canceled: bool,
    /// The task has ended.
    pub completed: bool,
    /// A message is on its way into the queue.
    pub forwarding: bool,
    /// Why the session went wrong, if it did.
    pub fault: Option<SocketFault>,
}

impl SocketView {
    /// A session with both flags lowered, not started.
    pub open spec fn idle() -> SocketView {
        SocketView {
            state: State::Idle,
            canceled: false,
            completed: false,
            forwarding: false,
            fault: None,
        }
    }

    /// Only a connected session forwards, only a session that has left its
    /// loop is completed, and a session with a fault has left its loop.
    pub open spec fn wf(self) -> bool {
        &&& self.forwarding ==> self.state == State::Connected
        &&& self.completed ==> self.state == State::Disconnecting
        &&& self.fault is Some ==> self.state == State::Disconnecting || self.state
            == State::Idle
    }

    /// The session after the controller cleared it: idle, with both flags
    /// lowered. The fault of the session that ended stays on record until
    /// the next one starts.
    pub open spec fn cleared(self) -> SocketView {
        SocketView {
            state: State::Idle,
            canceled: false,
            completed: false,
            forwarding: false,
            fault: self.fault,
        }
    }

    /// The session may take `event` now.
    pub open spec fn accepts(self, event: SocketEvent) -> bool {
        match event {
            SocketEvent::Start => self.state == State::Idle,
            SocketEvent::Opened | SocketEvent::OpenFailed => self.state == State::Connecting,
            SocketEvent::Timeout
            | SocketEvent::Received(_)
            | SocketEvent::StreamEnded
            | SocketEvent::StreamFailed => self.state == State::Connected && !self.forwarding,
            SocketEvent::Delivered | SocketEvent::ConsumerGone => self.state == State::Connected
                && self.forwarding,
            SocketEvent::Closed | SocketEvent::CloseFailed => self.state == State::Disconnecting
                && !self.completed,
            SocketEvent::Abandoned => self.state != State::Idle && !self.completed,
        }
    }

    /// The session after the transport opened: it is connected, whether or
    /// not the controller has canceled meanwhile, and polls. A canceled
    /// session leaves the loop when it next comes to the top of it.
    pub open spec fn enter(self) -> (SocketView, SocketAction) {
        (SocketView { state: State::Connected, forwarding: false, ..self }, SocketAction::Poll)
    }

    /// The top of the task's loop: a canceled session leaves it, any other
    /// polls again.
    pub open spec fn resume(self) -> (SocketView, SocketAction) {
        if self.canceled {
            (self.leave(None), SocketAction::Close)
        } else {
            (SocketView { state: State::Connected, forwarding: false, ..self }, SocketAction::Poll)
        }
    }

    /// The session after it left its loop, for the reason given if it is a
    /// fault.
    pub open spec fn leave(self, fault: Option<SocketFault>) -> SocketView {
        SocketView { state: State::Disconnecting, forwarding: false, fault, ..self }
    }

    /// The session after the task has ended, with the fault given if it did
    /// not end well.
    pub open spec fn end(self, fault: Option<SocketFault>) -> SocketView {
        SocketView {
            state: State::Disconnecting,
            forwarding: false,
            completed: true,
            fault: if fault is Some {
                fault
            } else {
                self.fault
            },
            ..self
        }
    }

    /// The session after `event`, and what the task is to do next. It says
    /// nothing of an event that the session does not accept.
    pub open spec fn step(self, event: SocketEvent) -> (SocketView, SocketAction) {
        match event {
            SocketEvent::Start => (
                SocketView { state: State::Connecting, fault: None, ..self },
                SocketAction::Open,
            ),
            SocketEvent::Opened => self.enter(),
            SocketEvent::OpenFailed => (
                self.end(Some(SocketFault::OpenFailed)),
                SocketAction::Finish,
            ),
            SocketEvent::Timeout => self.resume(),
            SocketEvent::Received(message) => match dispatch(message) {
                HandleMessageResult::Forward(forwarded) => (
                    SocketView { forwarding: true, ..self },
                    SocketAction::Forward(forwarded),
                ),
                HandleMessageResult::Continue => self.resume(),
                HandleMessageResult::Exit => (self.leave(None), SocketAction::Close),
            },
            SocketEvent::StreamEnded => (self.leave(None), SocketAction::Close),
            SocketEvent::StreamFailed => (
                self.leave(Some(SocketFault::StreamFailed)),
                SocketAction::Close,
            ),
            SocketEvent::Delivered => self.resume(),
            SocketEvent::ConsumerGone => (
                self.leave(Some(SocketFault::ConsumerGone)),
                SocketAction::Close,
            ),
            SocketEvent::Closed => (self.end(None), SocketAction::Finish),
            SocketEvent::CloseFailed => (
                self.end(Some(SocketFault::CloseFailed)),
                SocketAction::Finish,
            ),
            SocketEvent::Abandoned => (
                self.end(Some(SocketFault::Abandoned)),
                SocketAction::Finish,
            ),
        }
    }
}

/// The network task's side of a session, together with the token and the
/// connection state that the controller watches.
pub struct AudioSocket {
    address: String,
    token: SocketToken,
    updates: State,
    forwarding: bool,
    fault: Option<SocketFault>,
}

impl AudioSocket {
    pub closed spec fn view(&self) -> SocketView {
        SocketView {
            state: self.updates,
            canceled: self.token.canceled(),
            completed: self.token.completed(),
            forwarding: self.forwarding,
            fault: self.fault,
        }
    }

    /// Where the session connects to.
    pub closed spec fn target(&self) -> Seq<char> {
        self.address@
    }

    /// A session for `address`, not started.
    pub fn new(address: String) -> (socket: Self)
        ensures
            socket@ == SocketView::idle(),
            socket@.wf(),
            socket.target() == address@,
    {
        AudioSocket {
            address,
            token: session_token(()),
            updates: State::Idle,
            forwarding: false,
            fault: None,
        }
    }

    /// What the task does with `message`.
    pub fn handle_message(message: SocketMessage) -> (result: HandleMessageResult)
        ensures
            result == dispatch(message),
    {
        match message {
            SocketMessage::ResourceChange(info) => HandleMessageResult::Forward(
                AudioMessage::NewResource(info),
            ),
            SocketMessage::Binary(data) => HandleMessageResult::Forward(AudioMessage::Audio(data)),
            SocketMessage::Close => HandleMessageResult::Exit,
            SocketMessage::Malformed => HandleMessageResult::Continue,
            SocketMessage::Other => HandleMessageResult::Continue,
        }
    }

    fn leave(&mut self, fault: Option<SocketFault>) -> (action: SocketAction)
        ensures
            final(self)@ == old(self)@.leave(fault),
            final(self).target() == old(self).target(),
            action == SocketAction::Close,
    {
        self.updates = State::Disconnecting;
        self.forwarding = false;
        self.fault = fault;
        SocketAction::Close
    }

    fn enter(&mut self) -> (action: SocketAction)
        ensures
            (final(self)@, action) == old(self)@.enter(),
            final(self).target() == old(self).target(),
    {
        self.updates = State::Connected;
        self.forwarding = false;
        SocketAction::Poll
    }

    fn resume(&mut self) -> (action: SocketAction)
        ensures
            (final(self)@, action) == old(self)@.resume(),
            final(self).target() == old(self).target(),
    {
        if self.token.is_canceled() {
            self.leave(None)
        } else {
            self.updates = State::Connected;
            self.forwarding = false;
            SocketAction::Poll
        }
    }

    fn end(&mut self, fault: Option<SocketFault>) -> (action: SocketAction)
        ensures
            final(self)@ == old(self)@.end(fault),
            final(self).target() == old(self).target(),
            action == SocketAction::Finish,
    {
        let ghost before = self.token;
        self.token.complete();
        proof {
            lemma_flags_independent(before, self.token);
        }
        self.updates = State::Disconnecting;
        self.forwarding = false;
        if fault.is_some() {
            self.fault = fault;
        }
        SocketAction::Finish
    }

    /// Whether the session may take `event` now.
    pub fn accepts(&self, event: &SocketEvent) -> (ok: bool)
        ensures
            ok == self@.accepts(*event),
    {
        match event {
            SocketEvent::Start => self.updates == State::Idle,
            SocketEvent::Opened | SocketEvent::OpenFailed => self.updates == State::Connecting,
            SocketEvent::Timeout
            | SocketEvent::Received(_)
            | SocketEvent::StreamEnded
            | SocketEvent::StreamFailed => self.updates == State::Connected && !self.forwarding,
            SocketEvent::Delivered | SocketEvent::ConsumerGone => self.updates == State::Connected
                && self.forwarding,
            SocketEvent::Closed | SocketEvent::CloseFailed => self.updates == State::Disconnecting
                && !self.token.is_completed(),
            SocketEvent::Abandoned => self.updates != State::Idle && !self.token.is_completed(),
        }
    }

    /// Takes `event` and says what the task is to do next. An event that
    /// does not belong to the state of the session is refused and leaves the
    /// session as it is.
    pub fn step(&mut self, event: SocketEvent) -> (res: Result<SocketAction, SocketError>)
        ensures
            res is Ok <==> old(self)@.accepts(event),
            res matches Ok(action) ==> (final(self)@, action) == old(self)@.step(event),
            res is Err ==> final(self)@ == old(self)@,
            final(self).target() == old(self).target(),
            old(self)@.wf() ==> final(self)@.wf(),
    {
        if !self.accepts(&event) {
            return Err(SocketError::Unexpected);
        }
        let action = match event {
            SocketEvent::Start => {
                self.updates = State::Connecting;
                self.fault = None;
                SocketAction::Open
            },
            SocketEvent::Opened => self.enter(),
            SocketEvent::OpenFailed => self.end(Some(SocketFault::OpenFailed)),
            SocketEvent::Timeout => self.resume(),
            SocketEvent::Received(message) => match Self::handle_message(message) {
                HandleMessageResult::Forward(forwarded) => {
                    self.forwarding = true;
                    SocketAction::Forward(forwarded)
                },
                HandleMessageResult::Continue => self.resume(),
                HandleMessageResult::Exit => self.leave(None),
            },
            SocketEvent::StreamEnded => self.leave(None),
            SocketEvent::StreamFailed => self.leave(Some(SocketFault::StreamFailed)),
            SocketEvent::Delivered => self.resume(),
            SocketEvent::ConsumerGone => self.leave(Some(SocketFault::ConsumerGone)),
            SocketEvent::Closed => self.end(None),
            SocketEvent::CloseFailed => self.end(Some(SocketFault::CloseFailed)),
            SocketEvent::Abandoned => self.end(Some(SocketFault::Abandoned)),
        };
        Ok(action)
    }

    /// Asks the task to stop. It does so when it next looks, which is no
    /// later than one poll interval from now.
    pub fn request_cancel(&mut self)
        ensures
            final(self)@ == (SocketView { canceled: true, ..old(self)@ }),
            final(self).target() == old(self).target(),
            old(self)@.wf() ==> final(self)@.wf(),
    {
        let ghost before = self.token;
        self.token.cancel();
        proof {
            lemma_flags_independent(before, self.token);
        }
    }

    /// Whether a session is under way: started and not yet cleared.
    pub fn is_session_active(&self) -> (active: bool)
        ensures
            active == (self@.state != State::Idle),
    {
        self.updates != State::Idle
    }

    /// Clears a session whose task has ended, so that the next can start.
    /// A session whose task has not ended is left as it is.
    pub fn reap(&mut self) -> (cleared: bool)
        ensures
            cleared == old(self)@.completed,
            cleared ==> final(self)@ == old(self)@.cleared(),
            !cleared ==> final(self)@ == old(self)@,
            final(self).target() == old(self).target(),
            old(self)@.wf() ==> final(self)@.wf(),
    {
        proof {
            lemma_session_flags(self.token);
        }
        match self.token.reset() {
            Ok(()) => {
                proof {
                    lemma_session_flags(self.token);
                }
                self.updates = State::Idle;
                self.forwarding = false;
                true
            },
            Err(_) => false,
        }
    }

    pub fn state(&self) -> (state: State)
        ensures
            state == self@.state,
    {
        self.updates
    }

    pub fn fault(&self) -> (fault: Option<SocketFault>)
        ensures
            fault == self@.fault,
    {
        self.fault
    }

    pub fn token(&self) -> (token: &SocketToken)
        ensures
            token.canceled() == self@.canceled,
            token.completed() == self@.completed,
    {
        &self.token
    }

    pub fn address(&self) -> (address: &String)
        ensures
            address@ == self.target(),
    {
        &self.address
    }
}

/// Every step that a well-formed session accepts leaves it well formed,
/// and none lowers the cancel flag.
pub proof fn lemma_step_keeps_wf(session: SocketView, event: SocketEvent)
    requires
        session.wf(),
        session.accepts(event),
    ensures
        session.step(event).0.wf(),
        session.step(event).0.canceled == session.canceled,
{
}

/// How far a session has come: each state counts one more than the state
/// before it.
pub open spec fn progress(state: State) -> nat {
    match state {
        State::Idle => 0,
        State::Connecting => 1,
        State::Connected => 2,
        State::Disconnecting => 3,
    }
}

/// The states of a session follow one another in one order. No step takes
/// a session back, and none makes it idle. The start makes it connecting.
/// The open transport makes it connected, whether or not the controller
/// has canceled, and nothing else does. A session becomes disconnecting
/// from connected, or from connecting when the transport did not open or
/// the task is gone.
pub proof fn lemma_states_in_order(session: SocketView, event: SocketEvent)
    requires
        session.accepts(event),
    ensures
        ({
            let after = session.step(event).0.state;
            &&& after != State::Idle
            &&& progress(session.state) <= progress(after)
            &&& event is Start ==> after == State::Connecting
            &&& event is Opened ==> after == State::Connected && session.step(event).1
                == SocketAction::Poll
            &&& session.state == State::Connecting && after == State::Connected ==> event is Opened
            &&& session.state == State::Connecting && after == State::Disconnecting ==> event
                is OpenFailed || event is Abandoned
        }),
{
}

/// A session that is canceled while it connects is connected once the
/// transport is open, and leaves the loop with the step after that: it
/// closes the transport, or delivers the message that the poll brought and
/// closes then.
pub proof fn lemma_cancel_while_connecting(session: SocketView, next: SocketEvent)
    requires
        session.wf(),
        session.canceled,
        session.accepts(SocketEvent::Opened),
        session.step(SocketEvent::Opened).0.accepts(next),
    ensures
        ({
            let opened = session.step(SocketEvent::Opened).0;
            let (after, action) = opened.step(next);
            &&& opened.state == State::Connected
            &&& opened.canceled
            &&& {
                ||| after.state == State::Disconnecting && action == SocketAction::Close
                ||| after.state == State::Disconnecting && after.completed
                ||| after.state == State::Connected && after.forwarding && action is Forward
            }
        }),
{
    lemma_step_keeps_wf(session, SocketEvent::Opened);
    lemma_cancel_leaves_loop(session.step(SocketEvent::Opened).0, next);
}

/// A structured message that cannot be read is dropped: the session goes
/// on as if the poll had brought nothing, nothing is forwarded, and unless
/// the controller has canceled, the session is what it was.
pub proof fn lemma_malformed_is_dropped(session: SocketView)
    requires
        session.wf(),
        session.accepts(SocketEvent::Received(SocketMessage::Malformed)),
    ensures
        session.step(SocketEvent::Received(SocketMessage::Malformed)) == session.step(
            SocketEvent::Timeout,
        ),
        !(session.step(SocketEvent::Received(SocketMessage::Malformed)).1 is Forward),
        !session.canceled ==> session.step(SocketEvent::Received(SocketMessage::Malformed)) == (
            session,
            SocketAction::Poll,
        ),
{
}

/// Once the controller has canceled, the task leaves its loop the next time
/// it comes to the top of it: every event that a connected, canceled
/// session accepts either takes it out of the loop at once, to close the
/// transport or, where the task is gone, to its end, or is a message to
/// forward, after whose delivery it leaves.
pub proof fn lemma_cancel_leaves_loop(session: SocketView, event: SocketEvent)
    requires
        session.wf(),
        session.canceled,
        session.state == State::Connected,
        session.accepts(event),
    ensures
        ({
            let (after, action) = session.step(event);
            ||| after.state == State::Disconnecting && action == SocketAction::Close
            ||| after.state == State::Disconnecting && after.completed
            ||| !session.forwarding && after.state == State::Connected && after.forwarding
                && action is Forward
        }),
{
}

/// A session that has left its loop ends with the next step: the token is
/// completed, whether or not the transport closed well.
pub proof fn lemma_leaving_completes(session: SocketView, event: SocketEvent)
    requires
        session.wf(),
        session.state == State::Disconnecting,
        session.accepts(event),
    ensures
        session.step(event).0.completed,
        session.step(event).1 == SocketAction::Finish,
{
}

/// From cancellation to completion. A connected session that is canceled
/// is completed after at most three steps, whatever the events are: at most
/// one delivery that was under way or began, the close, and the end.
pub proof fn lemma_cancel_completes(
    session: SocketView,
    first: SocketEvent,
    second: SocketEvent,
    third: SocketEvent,
)
    requires
        session.wf(),
        session.canceled,
        session.state == State::Connected,
        session.accepts(first),
        session.step(first).0.accepts(second),
    ensures
        ({
            let one = session.step(first).0;
            let two = one.step(second).0;
            &&& one.state == State::Disconnecting ==> two.completed
            &&& one.state != State::Disconnecting ==> two.state == State::Disconnecting && (
            two.completed || (two.accepts(third) ==> two.step(third).0.completed))
        }),
{
    lemma_cancel_leaves_loop(session, first);
    lemma_step_keeps_wf(session, first);
    let one = session.step(first).0;
    if one.state == State::Disconnecting {
        lemma_leaving_completes(one, second);
    } else {
        lemma_cancel_leaves_loop(one, second);
        lemma_step_keeps_wf(one, second);
        let two = one.step(second).0;
        if !two.completed && two.accepts(third) {
            lemma_leaving_completes(two, third);
        }
    }
}

} // verus!
