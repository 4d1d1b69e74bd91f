//! The jitter buffer: it takes what the network task queued, holds it in
//! order, decides when playback starts and stops, and hands out one encoded
//! frame per pull.

use vstd::prelude::*;
use std::collections::VecDeque;
use crate::audio_socket::AudioMessage;
use crate::audio_socket::StreamStartMessage;
use crate::gui::PlayerState;

verus! {

/// Samples per channel in one frame.
pub const SAMPLES_PER_FRAME: u64 = 960;

/// Samples per channel in one second.
pub const SAMPLE_RATE: u64 = 48000;

/// Microseconds in one second.
pub const TIME_BASE: u64 = 1000000;

/// Room that the backlog is given when it is made. It grows beyond that
/// when more arrives.
pub const BACKLOG_CAPACITY: usize = 50;

/// The item that plays, if any, and whether playback waits for the backlog
/// to fill.
#[derive(Clone, Debug)]
pub struct PlayingInfo {
    pub item: Option<StreamStartMessage>,
    pub buffering: bool,
}

/// The jitter buffer as a mathematical value.
pub struct JitterView {
    /// What was queued and not yet consumed, oldest first.
    pub backlog: Seq<AudioMessage>,
    /// Playback waits for the backlog to fill.
    pub buffering: bool,
    /// Position of playback, in samples.
    pub timestamp: u64,
    /// The item that the audio belongs to.
    pub item: Option<StreamStartMessage>,
    /// Backlog depth at which playback starts.
    pub target: usize,
}

/// The position one frame after `timestamp`. The count stops at the largest
/// position there is.
pub open spec fn frame_end(timestamp: u64) -> u64 {
    if timestamp + SAMPLES_PER_FRAME <= u64::MAX {
        (timestamp + SAMPLES_PER_FRAME) as u64
    } else {
        u64::MAX
    }
}

/// How many resource changes stand at the head of `backlog`, before the
/// first audio frame or the end.
pub open spec fn leading_resources(backlog: Seq<AudioMessage>) -> nat
    decreases backlog.len(),
{
    if backlog.len() == 0 || backlog[0] is Audio {
        0
    } else {
        1 + leading_resources(backlog.skip(1))
    }
}

impl JitterView {
    /// While it plays, the backlog holds something.
    pub open spec fn wf(self) -> bool {
        !self.buffering ==> self.backlog.len() > 0
    }

    /// The state after `message` arrived: it joins the backlog at the back,
    /// and a buffer that waited starts to play once the backlog has reached
    /// the target depth.
    pub open spec fn enqueue(self, message: AudioMessage) -> JitterView {
        JitterView {
            backlog: self.backlog.push(message),
            buffering: self.buffering && self.backlog.len() + 1 < self.target,
            ..self
        }
    }

    /// The state after each of `messages` arrived, in order.
    pub open spec fn enqueue_all(self, messages: Seq<AudioMessage>) -> JitterView
        decreases messages.len(),
    {
        if messages.len() == 0 {
            self
        } else {
            self.enqueue_all(messages.drop_last()).enqueue(messages.last())
        }
    }

    /// The item in force after the first `count` entries of the backlog,
    /// all of them resource changes, were consumed.
    pub open spec fn item_after(self, count: nat) -> Option<StreamStartMessage> {
        if count > 0 {
            Some(self.backlog[count - 1]->NewResource_0)
        } else {
            self.item
        }
    }

    /// The position after the first `count` entries of the backlog, all of
    /// them resource changes, were consumed: the anchor of the last one.
    pub open spec fn anchor_after(self, count: nat) -> u64 {
        if count > 0 {
            (self.backlog[count - 1]->NewResource_0).offset_samples
        } else {
            self.timestamp
        }
    }

    /// The state after one pull, and the frame it hands out.
    ///
    /// A buffer that waits hands out nothing and stays as it is. One that
    /// plays consumes the resource changes at the head of its backlog, each
    /// of which replaces the item and moves the position to its anchor, and
    /// then one audio frame, which moves the position on by one frame. It
    /// goes back to waiting when that leaves the backlog empty.
    pub open spec fn pull(self) -> (JitterView, Option<Vec<u8>>) {
        if self.buffering {
            (self, None)
        } else {
            let count = leading_resources(self.backlog);
            if count < self.backlog.len() {
                (
                    JitterView {
                        backlog: self.backlog.skip(count as int + 1),
                        buffering: count + 1 == self.backlog.len(),
                        timestamp: frame_end(self.anchor_after(count)),
                        item: self.item_after(count),
                        target: self.target,
                    },
                    Some(self.backlog[count as int]->Audio_0),
                )
            } else {
                (
                    JitterView {
                        backlog: Seq::empty(),
                        buffering: true,
                        timestamp: self.anchor_after(count),
                        item: self.item_after(count),
                        target: self.target,
                    },
                    None,
                )
            }
        }
    }
}

/// `count` is the number of leading resource changes of `backlog` when the
/// entries before it are resource changes and the one at it, if any, is not.
pub proof fn lemma_leading_resources(backlog: Seq<AudioMessage>, count: nat)
    requires
        count <= backlog.len(),
        forall|i: int| 0 <= i < count ==> backlog[i] is NewResource,
        count == backlog.len() || backlog[count as int] is Audio,
    ensures
        leading_resources(backlog) == count,
    decreases count,
{
    if count > 0 {
        let rest = backlog.skip(1);
        assert forall|i: int| 0 <= i < count - 1 implies rest[i] is NewResource by {
            assert(rest[i] == backlog[i + 1]);
        }
        lemma_leading_resources(rest, (count - 1) as nat);
    }
}

/// The messages that carry `frames`, one audio message each.
pub open spec fn audio_messages(frames: Seq<Vec<u8>>) -> Seq<AudioMessage> {
    Seq::new(frames.len(), |i: int| AudioMessage::Audio(frames[i]))
}

/// The item in force after the first `count` entries of `backlog` were
/// consumed: that of the last resource change among them, or `item` where
/// there is none.
pub open spec fn item_in_force(
    item: Option<StreamStartMessage>,
    backlog: Seq<AudioMessage>,
    count: nat,
) -> Option<StreamStartMessage>
    decreases count,
{
    if count == 0 {
        item
    } else if backlog[count - 1] is NewResource {
        Some(backlog[count - 1]->NewResource_0)
    } else {
        item_in_force(item, backlog, (count - 1) as nat)
    }
}

impl JitterView {
    /// The state after `pulls` pulls in a row.
    pub open spec fn pull_n(self, pulls: nat) -> JitterView
        decreases pulls,
    {
        if pulls == 0 {
            self
        } else {
            self.pull_n((pulls - 1) as nat).pull().0
        }
    }

    /// How many of `pulls` pulls in a row hand out a frame.
    pub open spec fn frames_emitted(self, pulls: nat) -> nat
        decreases pulls,
    {
        if pulls == 0 {
            0
        } else {
            let before = self.pull_n((pulls - 1) as nat);
            self.frames_emitted((pulls - 1) as nat) + if before.pull().1 is Some {
                1nat
            } else {
                0nat
            }
        }
    }
}

/// Taking in messages appends them to the backlog in order and touches
/// neither the position nor the item. A buffer that waited still waits
/// exactly if the backlog stays below the target depth.
pub proof fn lemma_enqueue_all(start: JitterView, messages: Seq<AudioMessage>)
    ensures
        start.enqueue_all(messages) == (JitterView {
            backlog: start.backlog + messages,
            buffering: start.buffering && (messages.len() == 0 || start.backlog.len()
                + messages.len() < start.target),
            ..start
        }),
        start.wf() ==> start.enqueue_all(messages).wf(),
    decreases messages.len(),
{
    if messages.len() == 0 {
        assert(start.backlog + messages =~= start.backlog);
    } else {
        lemma_enqueue_all(start, messages.drop_last());
        assert(start.backlog + messages =~= (start.backlog + messages.drop_last()).push(
            messages.last(),
        ));
    }
}

/// A pull keeps the buffer well formed, consumes a prefix of the backlog and
/// leaves the target depth alone.
pub proof fn lemma_pull_consumes_prefix(start: JitterView)
    requires
        start.wf(),
    ensures
        start.pull().0.wf(),
        start.pull().0.target == start.target,
        start.pull().0.backlog.len() <= start.backlog.len(),
        start.pull().0.backlog == start.backlog.skip(
            start.backlog.len() - start.pull().0.backlog.len(),
        ),
{
    let count = leading_resources(start.backlog);
    lemma_leading_resources_bound(start.backlog);
    if start.buffering {
        assert(start.backlog.skip(0) =~= start.backlog);
    } else if count < start.backlog.len() {
    } else {
        assert(start.backlog.skip(start.backlog.len() as int) =~= Seq::empty());
    }
}

/// The leading resource changes are entries of the backlog, and the entry
/// after them, if any, is audio.
pub proof fn lemma_leading_resources_bound(backlog: Seq<AudioMessage>)
    ensures
        leading_resources(backlog) <= backlog.len(),
        forall|i: int| 0 <= i < leading_resources(backlog) ==> backlog[i] is NewResource,
        leading_resources(backlog) < backlog.len() ==> backlog[leading_resources(
            backlog,
        ) as int] is Audio,
    decreases backlog.len(),
{
    if backlog.len() == 0 || backlog[0] is Audio {
    } else {
        let rest = backlog.skip(1);
        lemma_leading_resources_bound(rest);
        assert forall|i: int| 0 <= i < leading_resources(backlog) implies backlog[i] is NewResource by {
            if i > 0 {
                assert(rest[i - 1] == backlog[i]);
            }
        }
        if leading_resources(backlog) < backlog.len() {
            assert(rest[leading_resources(rest) as int] == backlog[leading_resources(backlog) as int]);
        }
    }
}

/// Every frame that a pull hands out moves the position on by exactly one
/// frame from the anchor then in force, and a pull that hands out none
/// leaves the position at that anchor. The anchor is that of the last
/// resource change consumed by the pull, or the position before it.
pub proof fn lemma_pull_advances_by_frame(start: JitterView)
    requires
        start.wf(),
        !start.buffering,
    ensures
        ({
            let count = leading_resources(start.backlog);
            let anchor = start.anchor_after(count);
            let (after, frame) = start.pull();
            &&& frame is Some ==> after.timestamp == frame_end(anchor)
            &&& frame is None ==> after.timestamp == anchor
            &&& anchor + SAMPLES_PER_FRAME <= u64::MAX ==> frame_end(anchor) == anchor
                + SAMPLES_PER_FRAME
        }),
{
}

/// Over any number of pulls from a backlog that holds audio only, the
/// position moves by one frame's samples for each frame handed out, as
/// long as it stays within the range of positions.
pub proof fn lemma_timestamp_counts_frames(start: JitterView, pulls: nat)
    requires
        start.wf(),
        forall|i: int| 0 <= i < start.backlog.len() ==> start.backlog[i] is Audio,
        start.timestamp + SAMPLES_PER_FRAME * start.frames_emitted(pulls) <= u64::MAX,
    ensures
        start.pull_n(pulls).timestamp == start.timestamp + SAMPLES_PER_FRAME
            * start.frames_emitted(pulls),
        start.pull_n(pulls).wf(),
        start.pull_n(pulls).item == start.item,
        start.pull_n(pulls).backlog.len() <= start.backlog.len(),
        start.pull_n(pulls).backlog == start.backlog.skip(
            start.backlog.len() - start.pull_n(pulls).backlog.len(),
        ),
        start.frames_emitted(pulls) == start.backlog.len() - start.pull_n(pulls).backlog.len(),
    decreases pulls,
{
    if pulls == 0 {
        assert(start.backlog.skip(0) =~= start.backlog);
    } else {
        let before = start.pull_n((pulls - 1) as nat);
        lemma_timestamp_counts_frames(start, (pulls - 1) as nat);
        lemma_pull_consumes_prefix(before);
        let shift = start.backlog.len() - before.backlog.len();
        if !before.buffering {
            assert(before.backlog[0] == start.backlog[shift]);
            assert(leading_resources(before.backlog) == 0);
            assert(before.pull().0.backlog =~= start.backlog.skip(shift + 1));
        }
    }
}

/// Hysteresis. An empty buffer that waits, fed one frame less than its
/// target depth, still waits, and a pull hands out nothing. One frame more
/// and it plays: the pulls that follow hand out the frames in the order
/// in which they came, and the buffer goes back to waiting with the pull
/// that takes the last one.
pub proof fn lemma_buffering_hysteresis(start: JitterView, frames: Seq<Vec<u8>>, pulls: nat)
    requires
        start.buffering,
        start.backlog.len() == 0,
        start.target >= 1,
        frames.len() == start.target,
        pulls < frames.len(),
    ensures
        ({
            let short = start.enqueue_all(audio_messages(frames.drop_last()));
            &&& short.buffering
            &&& short.pull() == (short, None::<Vec<u8>>)
        }),
        ({
            let full = start.enqueue_all(audio_messages(frames));
            &&& !full.buffering
            &&& full.pull_n(pulls).pull().1 == Some(frames[pulls as int])
            &&& !full.pull_n(pulls).buffering
            &&& full.pull_n(pulls + 1).buffering == (pulls + 1 == frames.len())
            &&& full.pull_n(pulls + 1).backlog.len() == frames.len() - pulls - 1
        }),
{
    lemma_enqueue_all(start, audio_messages(frames.drop_last()));
    lemma_enqueue_all(start, audio_messages(frames));
    let full = start.enqueue_all(audio_messages(frames));
    assert(full.backlog =~= audio_messages(frames));
    lemma_playout(full, frames, pulls);
}

/// A buffer that plays a backlog of audio only hands out its frames in
/// order, one per pull.
pub proof fn lemma_playout(full: JitterView, frames: Seq<Vec<u8>>, pulls: nat)
    requires
        !full.buffering,
        full.backlog == audio_messages(frames),
        pulls < frames.len(),
    ensures
        full.pull_n(pulls).backlog == full.backlog.skip(pulls as int),
        !full.pull_n(pulls).buffering,
        full.pull_n(pulls).pull().1 == Some(frames[pulls as int]),
        full.pull_n(pulls + 1).backlog == full.backlog.skip(pulls as int + 1),
        full.pull_n(pulls + 1).buffering == (pulls + 1 == frames.len()),
    decreases pulls,
{
    if pulls == 0 {
        assert(full.backlog.skip(0) =~= full.backlog);
    } else {
        lemma_playout(full, frames, (pulls - 1) as nat);
    }
    let before = full.pull_n(pulls);
    assert(before.backlog[0] == full.backlog[pulls as int]);
    assert(leading_resources(before.backlog) == 0);
    assert(before.pull().0.backlog =~= full.backlog.skip(pulls as int + 1));
    assert(full.pull_n(pulls + 1) == before.pull().0);
}

/// A resource change is in force before any audio behind it is handed out.
/// Whatever frame a pull hands out, the item after the pull is that of the
/// last resource change that stood before the frame in the backlog, and the
/// position is one frame past that change's anchor; where no change stood
/// before it, the item is unchanged.
pub proof fn lemma_resource_change_precedes_audio(start: JitterView)
    requires
        start.wf(),
    ensures
        ({
            let (after, frame) = start.pull();
            let consumed = (start.backlog.len() - after.backlog.len()) as nat;
            &&& after.item == item_in_force(start.item, start.backlog, consumed)
            &&& frame is Some ==> {
                &&& consumed >= 1
                &&& start.backlog[consumed - 1] == AudioMessage::Audio(frame->Some_0)
                &&& forall|i: int| 0 <= i < consumed - 1 ==> start.backlog[i] is NewResource
                &&& consumed >= 2 ==> {
                    &&& after.item == Some(start.backlog[consumed - 2]->NewResource_0)
                    &&& after.timestamp == frame_end(
                        (start.backlog[consumed - 2]->NewResource_0).offset_samples,
                    )
                }
            }
        }),
{
    let count = leading_resources(start.backlog);
    lemma_leading_resources_bound(start.backlog);
    if !start.buffering {
        lemma_item_in_force_after_resources(start.item, start.backlog, count);
        if count < start.backlog.len() {
            assert(start.backlog.skip(count as int + 1).len() == start.backlog.len() - count - 1);
        }
    }
}

/// After a run of resource changes the item in force is that of the last.
pub proof fn lemma_item_in_force_after_resources(
    item: Option<StreamStartMessage>,
    backlog: Seq<AudioMessage>,
    count: nat,
)
    requires
        count <= backlog.len(),
        forall|i: int| 0 <= i < count ==> backlog[i] is NewResource,
    ensures
        item_in_force(item, backlog, count) == (if count > 0 {
            Some(backlog[count - 1]->NewResource_0)
        } else {
            item
        }),
        count < backlog.len() && backlog[count as int] is Audio ==> item_in_force(
            item,
            backlog,
            count + 1,
        ) == item_in_force(item, backlog, count),
{
}

/// `tokio::sync::mpsc::Receiver`, the receiving half of a bounded queue. It
/// is carried and never looked into.
#[verifier::external_type_specification]
#[verifier::external_body]
#[verifier::reject_recursive_types(T)]
pub struct ExReceiver<T>(tokio::sync::mpsc::Receiver<T>);

/// `tokio::sync::mpsc::error::TryRecvError`, with its two variants: the
/// queue is empty for now, or its sending half is closed.
#[verifier::external_type_specification]
pub struct ExTryRecvError(tokio::sync::mpsc::error::TryRecvError);

/// `tokio::sync::mpsc::Receiver::try_recv` returns at once: the oldest
/// queued value, or why there is none. What it returns depends on what the
/// senders have done, so nothing is claimed of it.
pub assume_specification<T>[ tokio::sync::mpsc::Receiver::<T>::try_recv ](
    receiver: &mut tokio::sync::mpsc::Receiver<T>,
) -> (res: Result<T, tokio::sync::mpsc::error::TryRecvError>)
;

/// The consuming end of the queue, with its backlog and the playback state
/// that it keeps.
pub struct AudioClient {
    timestamp: u64,
    buffer: VecDeque<AudioMessage>,
    buffering: bool,
    receiver: tokio::sync::mpsc::Receiver<AudioMessage>,
    context: PlayerState,
    source_closed: bool,
}

impl AudioClient {
    pub closed spec fn view(&self) -> JitterView {
        JitterView {
            backlog: self.buffer@,
            buffering: self.buffering,
            timestamp: self.timestamp,
            item: self.context@.item,
            target: self.context@.target_buffer,
        }
    }

    /// The sending side of the queue was seen closed.
    pub closed spec fn source_closed(&self) -> bool {
        self.source_closed
    }

    /// The playback state shows what the buffer holds, and a buffer that
    /// plays is not empty.
    pub closed spec fn wf(&self) -> bool {
        &&& self.context@.timestamp == self.timestamp
        &&& self.context@.buffer == self.buffer@.len()
        &&& self.context@.buffering == self.buffering
        &&& self@.wf()
    }

    /// A well-formed buffer has a well-formed view, and its backlog is no
    /// longer than a depth can say.
    pub proof fn lemma_wf(&self)
        requires
            self.wf(),
        ensures
            self@.wf(),
            self@.backlog.len() <= usize::MAX,
    {
    }

    /// An empty buffer that waits, at position zero. The item and the target
    /// depth are those of `context`.
    pub fn new(receiver: tokio::sync::mpsc::Receiver<AudioMessage>, context: PlayerState) -> (client:
        Self)
        ensures
            client.wf(),
            !client.source_closed(),
            client@ == (JitterView {
                backlog: Seq::empty(),
                buffering: true,
                timestamp: 0,
                item: context@.item,
                target: context@.target_buffer,
            }),
    {
        let mut context = context;
        context.set_timestamp(0);
        context.set_buffer(0);
        context.set_buffering(true);
        AudioClient {
            receiver,
            timestamp: 0,
            buffer: VecDeque::with_capacity(BACKLOG_CAPACITY),
            buffering: true,
            context,
            source_closed: false,
        }
    }

    fn update_timestamp(&mut self, timestamp: u64)
        requires
            old(self).context@.buffer == old(self).buffer@.len(),
            old(self).context@.buffering == old(self).buffering,
        ensures
            final(self).timestamp == timestamp,
            final(self).context@.timestamp == timestamp,
            final(self).context@.buffer == final(self).buffer@.len(),
            final(self).context@.buffering == final(self).buffering,
            final(self)@ == (JitterView { timestamp, ..old(self)@ }),
            final(self).source_closed == old(self).source_closed,
    {
        self.timestamp = timestamp;
        self.context.set_timestamp(self.timestamp);
    }

    fn set_context_buffering(&mut self)
        ensures
            final(self).context@.buffering == final(self).buffering,
            final(self).context@.timestamp == old(self).context@.timestamp,
            final(self).context@.buffer == old(self).context@.buffer,
            final(self).timestamp == old(self).timestamp,
            final(self).buffer == old(self).buffer,
            final(self)@ == old(self)@,
            final(self).source_closed == old(self).source_closed,
    {
        self.context.set_buffering(self.buffering);
    }

    fn handle_new_resource(&mut self, message: StreamStartMessage)
        requires
            old(self).context@.buffer == old(self).buffer@.len(),
        ensures
            final(self).context@.timestamp == final(self).timestamp,
            final(self).context@.buffer == final(self).buffer@.len(),
            final(self).context@.buffering == final(self).buffering,
            final(self)@ == (JitterView {
                item: Some(message),
                timestamp: message.offset_samples,
                ..old(self)@
            }),
            final(self).source_closed == old(self).source_closed,
    {
        let offset_sample = message.offset_samples;
        self.context.set_state(PlayingInfo { item: Some(message), buffering: self.buffering });
        self.update_timestamp(offset_sample);
    }

    /// Takes one message into the backlog.
    pub fn enqueue(&mut self, message: AudioMessage)
        requires
            old(self).wf(),
            old(self)@.backlog.len() < usize::MAX,
        ensures
            final(self).wf(),
            final(self)@ == old(self)@.enqueue(message),
            final(self).source_closed() == old(self).source_closed(),
    {
        self.buffer.push_back(message);
        self.context.set_buffer(self.buffer.len());
        if self.buffering {
            self.buffering = self.buffer.len() < self.context.target_buffer();
            if !self.buffering {
                self.set_context_buffering();
            }
        }
    }

    /// Moves everything that the queue holds right now into the backlog,
    /// without waiting. Returns whether the sending side is still there.
    ///
    /// Which messages arrive is the senders' doing; whatever they are, the
    /// buffer ends as if they had been taken in one by one.
    pub fn receive_all(&mut self) -> (open: bool)
        requires
            old(self).wf(),
        ensures
            final(self).wf(),
            exists|arrived: Seq<AudioMessage>| final(self)@ == old(self)@.enqueue_all(arrived),
            open == !final(self).source_closed(),
    {
        let ghost mut arrived: Seq<AudioMessage> = Seq::empty();
        self.source_closed = false;
        while self.buffer.len() < usize::MAX
            invariant
                self.wf(),
                !self.source_closed,
                self@ == old(self)@.enqueue_all(arrived),
            decreases usize::MAX - self.buffer.len(),
        {
            match self.receiver.try_recv() {
                Ok(m) => {
                    proof {
                        assert(arrived.push(m).drop_last() =~= arrived);
                        arrived = arrived.push(m);
                    }
                    self.enqueue(m);
                },
                Err(e) => {
                    match e {
                        tokio::sync::mpsc::error::TryRecvError::Empty => {},
                        tokio::sync::mpsc::error::TryRecvError::Closed => {
                            self.source_closed = true;
                        },
                    }
                    return !self.source_closed;
                },
            }
        }
        true
    }

    /// Hands out the next frame to decode, if the buffer plays and holds one.
    pub fn take_frame(&mut self) -> (frame: Option<Vec<u8>>)
        requires
            old(self).wf(),
        ensures
            final(self).wf(),
            (final(self)@, frame) == old(self)@.pull(),
            final(self).source_closed() == old(self).source_closed(),
    {
        if self.buffering {
            return None;
        }
        let ghost start = self@;
        let ghost mut count: nat = 0;
        loop
            invariant
                self.context@.timestamp == self.timestamp,
                self.context@.buffer == self.buffer@.len(),
                self.context@.buffering == self.buffering,
                self.source_closed == old(self).source_closed,
                start == old(self)@,
                !start.buffering,
                start.backlog.len() > 0,
                count <= start.backlog.len(),
                forall|i: int| 0 <= i < count ==> start.backlog[i] is NewResource,
                self@.backlog == start.backlog.skip(count as int),
                self@.buffering == (count == start.backlog.len()),
                self@.timestamp == start.anchor_after(count),
                self@.item == start.item_after(count),
                self@.target == start.target,
            decreases self.buffer.len(),
        {
            match self.buffer.pop_front() {
                None => {
                    proof {
                        assert(count == start.backlog.len());
                        lemma_leading_resources(start.backlog, count);
                        assert(self@.backlog =~= Seq::empty());
                        assert(self@ == start.pull().0);
                    }
                    return None;
                },
                Some(message) => {
                    assert(message == start.backlog[count as int]);
                    assert(self.buffer@ =~= start.backlog.skip(count as int + 1));
                    self.context.set_buffer(self.buffer.len());
                    if self.buffer.len() == 0 {
                        self.buffering = true;
                        self.set_context_buffering();
                    }
                    match message {
                        AudioMessage::NewResource(info) => {
                            self.handle_new_resource(info);
                            proof {
                                count = count + 1;
                            }
                        },
                        AudioMessage::Audio(data) => {
                            proof {
                                lemma_leading_resources(start.backlog, count);
                            }
                            let next = self.timestamp.saturating_add(SAMPLES_PER_FRAME);
                            self.update_timestamp(next);
                            assert(next == frame_end(start.anchor_after(count)));
                            assert(self@ == start.pull().0);
                            return Some(data);
                        },
                    }
                },
            }
        }
    }

    /// One pull: takes in what the queue holds, then hands out the next
    /// frame to decode, if there is one to play.
    pub fn next(&mut self) -> (frame: Option<Vec<u8>>)
        requires
            old(self).wf(),
        ensures
            final(self).wf(),
            exists|arrived: Seq<AudioMessage>|
                (final(self)@, frame) == old(self)@.enqueue_all(arrived).pull(),
    {
        self.receive_all();
        self.take_frame()
    }

    /// The playback state as this buffer keeps it: the item, the buffering
    /// flag and the position of the buffer, the depth of its backlog, and
    /// the target depth.
    pub fn context(&self) -> (context: &PlayerState)
        requires
            self.wf(),
        ensures
            context@.item == self@.item,
            context@.buffering == self@.buffering,
            context@.timestamp == self@.timestamp,
            context@.buffer == self@.backlog.len(),
            context@.target_buffer == self@.target,
    {
        &self.context
    }

    /// Sets the backlog depth at which playback starts. A buffer that plays
    /// goes on playing; the depth counts from the next time that it waits.
    pub fn set_target_buffer(&mut self, target_buffer: usize)
        requires
            old(self).wf(),
        ensures
            final(self).wf(),
            final(self)@ == (JitterView { target: target_buffer, ..old(self)@ }),
            final(self).source_closed() == old(self).source_closed(),
    {
        self.context.set_target_buffer(target_buffer);
    }

    /// Whether the sending side of the queue was closed when the buffer
    /// last took from it.
    pub fn is_source_closed(&self) -> (closed: bool)
        ensures
            closed == self.source_closed(),
    {
        self.source_closed
    }
}

/// Room, in samples of all channels together, that a decoder is given for
/// one frame.
pub const MAX_BLOCK_SAMPLES: usize = 6144;

/// Channels in the decoded audio, interleaved.
pub const CHANNELS: usize = 2;

/// How many samples of a block of `len` count when the decoder reports
/// `samples_per_channel` for each channel: all channels' worth, and no more
/// than the block holds.
pub open spec fn block_len(len: nat, samples_per_channel: nat) -> nat {
    if CHANNELS * samples_per_channel <= len {
        (CHANNELS * samples_per_channel) as nat
    } else {
        len
    }
}

/// Cuts a decoder's output down to the samples that it reported.
pub fn decoded_block<T>(buffer: Vec<T>, samples_per_channel: usize) -> (block: Vec<T>)
    ensures
        block@ == buffer@.take(block_len(buffer@.len(), samples_per_channel as nat) as int),
{
    let mut block = buffer;
    if samples_per_channel <= block.len() / CHANNELS {
        block.truncate(samples_per_channel * CHANNELS);
    } else {
        assert(block@.take(block@.len() as int) =~= block@);
    }
    block
}

} // verus!
