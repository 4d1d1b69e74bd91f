//! What the observer sees of a session, and what it may ask of it.

use vstd::prelude::*;
use std::collections::VecDeque;
use crate::audio_client::PlayingInfo;
use crate::audio_client::SAMPLES_PER_FRAME;
use crate::audio_client::SAMPLE_RATE;
use crate::audio_client::TIME_BASE;
use crate::audio_socket::AudioSocket;
use crate::audio_socket::SocketView;
use crate::audio_socket::State;
use crate::audio_socket::StreamStartMessage;
use crate::token::Cancelable;

verus! {

/// Backlog depth at which playback starts unless the observer says otherwise.
pub const DEFAULT_TARGET_BUFFER: usize = 50;

/// The playback state as a mathematical value.
pub struct PlayerStateView {
    pub item: Option<StreamStartMessage>,
    pub buffering: bool,
    pub timestamp: u64,
    pub buffer: usize,
    pub target_buffer: usize,
}

/// The record of playback that the jitter buffer writes and the observer
/// reads: current item, buffering flag, position in samples, backlog depth,
/// and the depth at which playback starts.
pub struct PlayerState {
    state: PlayingInfo,
    timestamp: u64,
    buffer: usize,
    target_buffer: usize,
}

impl PlayerState {
    pub closed spec fn view(&self) -> PlayerStateView {
        PlayerStateView {
            item: self.state.item,
            buffering: self.state.buffering,
            timestamp: self.timestamp,
            buffer: self.buffer,
            target_buffer: self.target_buffer,
        }
    }

    /// Nothing plays, nothing is buffered, and playback waits for the
    /// default depth.
    pub fn new() -> (fresh: Self)
        ensures
            fresh@ == (PlayerStateView {
                item: None,
                buffering: true,
                timestamp: 0,
                buffer: 0,
                target_buffer: DEFAULT_TARGET_BUFFER,
            }),
    {
        PlayerState {
            state: PlayingInfo { item: None, buffering: true },
            timestamp: 0,
            buffer: 0,
            target_buffer: DEFAULT_TARGET_BUFFER,
        }
    }

    pub fn state(&self) -> (info: &PlayingInfo)
        ensures
            info.item == self@.item,
            info.buffering == self@.buffering,
    {
        &self.state
    }

    pub fn timestamp(&self) -> (timestamp: u64)
        ensures
            timestamp == self@.timestamp,
    {
        self.timestamp
    }

    pub fn buffer(&self) -> (buffer: usize)
        ensures
            buffer == self@.buffer,
    {
        self.buffer
    }

    pub fn target_buffer(&self) -> (target_buffer: usize)
        ensures
            target_buffer == self@.target_buffer,
    {
        self.target_buffer
    }

    pub fn set_timestamp(&mut self, timestamp: u64)
        ensures
            final(self)@ == (PlayerStateView { timestamp, ..old(self)@ }),
    {
        self.timestamp = timestamp;
    }

    pub fn set_buffer(&mut self, buffer: usize)
        ensures
            final(self)@ == (PlayerStateView { buffer, ..old(self)@ }),
    {
        self.buffer = buffer;
    }

    pub fn set_target_buffer(&mut self, target_buffer: usize)
        ensures
            final(self)@ == (PlayerStateView { target_buffer, ..old(self)@ }),
    {
        self.target_buffer = target_buffer;
    }

    /// Replaces the current item and the buffering flag together.
    pub fn set_state(&mut self, info: PlayingInfo)
        ensures
            final(self)@ == (PlayerStateView {
                item: info.item,
                buffering: info.buffering,
                ..old(self)@
            }),
    {
        self.state = info;
    }

    pub fn set_buffering(&mut self, buffering: bool)
        ensures
            final(self)@ == (PlayerStateView { buffering, ..old(self)@ }),
    {
        self.state.buffering = buffering;
    }
}

/// How many backlog depths the history holds: ten seconds of ticks of
/// twenty milliseconds.
pub const BUFFER_HISTORY: usize = 500;

/// Microseconds of audio in `samples` samples, rounded down.
pub open spec fn samples_to_us(samples: int) -> int {
    samples * TIME_BASE as int / SAMPLE_RATE as int
}

/// Where playback stands within the current item.
#[derive(Clone, Copy, Debug, PartialEq, Eq, Structural)]
pub struct Current {
    /// The position on the shared clock, in microseconds.
    pub position_us: u128,
    /// The position on the shared clock, in whole seconds.
    pub timestamp: i64,
    /// The end of the item on the shared clock, in whole seconds, where
    /// known.
    pub duration_s: Option<i64>,
}

/// Where playback stands when `timestamp` samples of `item` have played:
/// the item's start plus the time that the samples take.
pub open spec fn current_of(timestamp: u64, item: StreamStartMessage) -> Current {
    let position_us = item.start_timestamp_us + samples_to_us(timestamp as int);
    Current {
        position_us: position_us as u128,
        timestamp: (position_us / TIME_BASE as int) as i64,
        duration_s: match item.end_timestamp_us {
            Some(end) => Some((end / TIME_BASE) as i64),
            None => None,
        },
    }
}

/// Computes where playback stands when `timestamp` samples of `item` have
/// played.
pub fn current(timestamp: u64, item: &StreamStartMessage) -> (current: Current)
    ensures
        current == current_of(timestamp, *item),
        current.position_us == item.start_timestamp_us + samples_to_us(timestamp as int),
        current.timestamp == current.position_us / TIME_BASE as u128,
{
    assert(TIME_BASE == 1000000 && SAMPLE_RATE == 48000);
    assert(timestamp * 1000000 <= u64::MAX * 1000000);
    let elapsed_us: u128 = timestamp as u128 * TIME_BASE as u128 / SAMPLE_RATE as u128;
    assert(elapsed_us == (timestamp * 1000000) / 48000);
    assert(timestamp <= 0xffff_ffff_ffff_ffff);
    assert(elapsed_us <= 400_000_000_000_000_000_000u128);
    let position_us: u128 = item.start_timestamp_us as u128 + elapsed_us;
    let seconds: u128 = position_us / TIME_BASE as u128;
    assert(seconds <= i64::MAX);
    let duration_s = match item.end_timestamp_us {
        Some(end) => Some((end / TIME_BASE) as i64),
        None => None,
    };
    Current { position_us, timestamp: seconds as i64, duration_s }
}

/// Milliseconds of audio in a backlog of `buffer` frames.
pub fn buffer_len_to_ms(buffer: usize) -> (ms: u128)
    ensures
        ms == buffer * SAMPLES_PER_FRAME * 1000 / SAMPLE_RATE as int,
        ms == buffer * 20,
{
    assert(SAMPLES_PER_FRAME == 960 && SAMPLE_RATE == 48000);
    assert(buffer * 960 * 1000 <= usize::MAX * 960000);
    let ms = buffer as u128 * SAMPLES_PER_FRAME as u128 * 1000 / SAMPLE_RATE as u128;
    assert(ms == (buffer * 960000) / 48000);
    assert(buffer * 960000 == 48000 * (buffer * 20));
    ms
}

/// Which panel the observer is shown.
#[derive(Clone, Copy, Debug, PartialEq, Eq, Structural)]
pub enum Screen {
    /// No session: offer to connect.
    NotConnected,
    Connecting,
    /// The session plays: show the item, the position and the backlog, and
    /// offer to disconnect.
    Playing,
    Disconnecting,
}

/// The panel for a session: a connected session that the controller has
/// canceled already shows as disconnecting.
pub open spec fn screen_of(session: SocketView) -> Screen {
    match session.state {
        State::Idle => Screen::NotConnected,
        State::Connecting => Screen::Connecting,
        State::Connected => if session.canceled {
            Screen::Disconnecting
        } else {
            Screen::Playing
        },
        State::Disconnecting => Screen::Disconnecting,
    }
}

/// The largest of `depths`, or zero where there is none.
pub open spec fn largest(depths: Seq<usize>) -> usize
    decreases depths.len(),
{
    if depths.len() == 0 {
        0
    } else {
        let rest = largest(depths.drop_last());
        if depths.last() > rest {
            depths.last()
        } else {
            rest
        }
    }
}

/// The largest of a sequence is no smaller than any entry, and it is one of
/// them unless there is none.
pub proof fn lemma_largest(depths: Seq<usize>)
    ensures
        forall|i: int| 0 <= i < depths.len() ==> depths[i] <= largest(depths),
        depths.len() > 0 ==> exists|i: int| 0 <= i < depths.len() && depths[i] == largest(depths),
    decreases depths.len(),
{
    if depths.len() > 0 {
        let front = depths.drop_last();
        lemma_largest(front);
        assert forall|i: int| 0 <= i < depths.len() implies depths[i] <= largest(depths) by {
            if i < front.len() {
                assert(front[i] == depths[i]);
            }
        }
        if depths.last() > largest(front) || front.len() == 0 {
            assert(depths[depths.len() - 1] == largest(depths));
        } else {
            let i = choose|i: int| 0 <= i < front.len() && front[i] == largest(front);
            assert(depths[i] == largest(depths));
        }
    }
}

/// The controller's side of a session: the handle of the running task and a
/// history of backlog depths.
pub struct Player<H> {
    handle: Option<H>,
    buffer_sizes: VecDeque<usize>,
}

impl<H> Player<H> {
    /// The history always holds its full number of depths.
    pub closed spec fn wf(&self) -> bool {
        self.buffer_sizes@.len() == BUFFER_HISTORY
    }

    /// The handle of the task, while one is held.
    pub closed spec fn task(&self) -> Option<H> {
        self.handle
    }

    /// The history of backlog depths, oldest first.
    pub closed spec fn history(&self) -> Seq<usize> {
        self.buffer_sizes@
    }

    /// A player without a task, with a history of zeros.
    pub fn new() -> (player: Self)
        ensures
            player.wf(),
            player.task() is None,
            player.history() == Seq::new(BUFFER_HISTORY as nat, |i: int| 0usize),
    {
        let mut buffer_sizes: VecDeque<usize> = VecDeque::with_capacity(BUFFER_HISTORY);
        let mut i: usize = 0;
        while i < BUFFER_HISTORY
            invariant
                i <= BUFFER_HISTORY,
                buffer_sizes@ == Seq::new(i as nat, |k: int| 0usize),
            decreases BUFFER_HISTORY - i,
        {
            buffer_sizes.push_back(0);
            i = i + 1;
            assert(buffer_sizes@ =~= Seq::new(i as nat, |k: int| 0usize));
        }
        Player { handle: None, buffer_sizes }
    }

    /// Keeps the handle of the task that was started for the session.
    pub fn attach(&mut self, handle: H)
        ensures
            final(self).task() == Some(handle),
            final(self).history() == old(self).history(),
    {
        self.handle = Some(handle);
    }

    /// Looks after the session: once the task that the player holds has
    /// ended, the session is cleared and the handle let go.
    pub fn update(&mut self, socket: &mut AudioSocket)
        ensures
            final(self).history() == old(self).history(),
            final(socket).target() == old(socket).target(),
            old(self).task() is Some && old(socket)@.completed ==> {
                &&& final(self).task() is None
                &&& final(socket)@ == old(socket)@.cleared()
            },
            !(old(self).task() is Some && old(socket)@.completed) ==> {
                &&& final(self).task() == old(self).task()
                &&& final(socket)@ == old(socket)@
            },
    {
        let handle = self.handle.take();
        self.handle = match handle {
            None => None,
            Some(handle) => {
                if socket.reap() {
                    None
                } else {
                    Some(handle)
                }
            },
        };
    }

    /// Which panel to show for the session.
    pub fn screen(socket: &AudioSocket) -> (screen: Screen)
        ensures
            screen == screen_of(socket@),
    {
        match socket.state() {
            State::Idle => Screen::NotConnected,
            State::Connecting => Screen::Connecting,
            State::Connected => {
                if socket.token().is_canceled() {
                    Screen::Disconnecting
                } else {
                    Screen::Playing
                }
            },
            State::Disconnecting => Screen::Disconnecting,
        }
    }

    /// The observer asks to disconnect: the task is asked to stop, and the
    /// display forgets the item and shows buffering.
    pub fn disconnect(socket: &mut AudioSocket, info: &mut PlayingInfo)
        ensures
            final(socket)@ == (SocketView { canceled: true, ..old(socket)@ }),
            final(socket).target() == old(socket).target(),
            final(info).item is None,
            final(info).buffering,
    {
        socket.request_cancel();
        info.item = None;
        info.buffering = true;
    }

    /// Adds the latest backlog depth to the history and drops the oldest.
    pub fn record_buffer(&mut self, depth: usize)
        requires
            old(self).wf(),
        ensures
            final(self).wf(),
            final(self).history() == old(self).history().skip(1).push(depth),
            final(self).task() == old(self).task(),
    {
        let _ = self.buffer_sizes.pop_front();
        self.buffer_sizes.push_back(depth);
    }

    /// The largest backlog depth in the history.
    pub fn max_buffer(&self) -> (max: usize)
        requires
            self.wf(),
        ensures
            max == largest(self.history()),
    {
        let mut max: usize = 0;
        let mut i: usize = 0;
        while i < self.buffer_sizes.len()
            invariant
                i <= self.buffer_sizes@.len(),
                max == largest(self.buffer_sizes@.take(i as int)),
            decreases self.buffer_sizes@.len() - i,
        {
            let depth = self.buffer_sizes[i];
            assert(self.buffer_sizes@.take(i + 1).drop_last() =~= self.buffer_sizes@.take(
                i as int,
            ));
            if depth > max {
                max = depth;
            }
            i = i + 1;
        }
        assert(self.buffer_sizes@.take(i as int) =~= self.buffer_sizes@);
        max
    }
}

} // verus!
