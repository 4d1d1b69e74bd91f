//! The bridge between the jitter buffer and the audio device: it fills the
//! device's blocks from the chunks that a source hands out, keeps what does
//! not fit for the next block, and writes silence when the source has
//! nothing.

use vstd::prelude::*;

verus! {

/// A block of samples of which a front part was already played.
pub struct Chunk<T> {
    data: Vec<T>,
    offset: usize,
}

impl<T> Chunk<T> {
    /// The played part lies within the block.
    pub closed spec fn wf(&self) -> bool {
        self.offset <= self.data@.len()
    }

    /// The samples that remain to be played.
    pub closed spec fn view(&self) -> Seq<T> {
        self.data@.skip(self.offset as int)
    }

    pub fn new(data: Vec<T>) -> (chunk: Self)
        ensures
            chunk.wf(),
            chunk@ == data@,
    {
        assert(data@.skip(0) =~= data@);
        Chunk { data, offset: 0 }
    }

    pub fn remaining_slice(&self) -> (rest: &[T])
        requires
            self.wf(),
        ensures
            rest@ == self@,
    {
        vstd::slice::slice_subrange(self.data.as_slice(), self.offset, self.data.len())
    }
}

/// Hands out blocks of samples, one per call, or nothing when none is
/// ready. It never waits.
pub trait AudioSource<T>: Send {
    fn next(&mut self) -> Option<Vec<T>>;
}

/// What a source answered, as a mathematical value.
pub open spec fn answer_of<T>(pulled: Option<Vec<T>>) -> Option<Seq<T>> {
    match pulled {
        Some(chunk) => Some(chunk@),
        None => None,
    }
}

/// What a block's rendering means for the log.
#[derive(Clone, Copy, Debug, PartialEq, Eq, Structural)]
pub enum RenderEvent {
    /// Nothing changed since the block before.
    Steady,
    /// The source ran dry in this block after keeping up in the one before.
    Underrun,
    /// The source filled this block after running dry in the one before.
    Recovered,
}

/// The log event for a block, from whether the source kept up in the block
/// before and in this one.
pub open spec fn render_event(kept_up: bool, keeps_up: bool) -> RenderEvent {
    if kept_up && !keeps_up {
        RenderEvent::Underrun
    } else if !kept_up && keeps_up {
        RenderEvent::Recovered
    } else {
        RenderEvent::Steady
    }
}

/// One block while it is filled.
pub struct Rendering<T> {
    /// The samples written so far.
    pub out: Seq<T>,
    /// What the last chunk had left when the block was full.
    pub retained: Seq<T>,
    /// The source had nothing, and the block was padded with silence.
    pub starved: bool,
}

impl<T> Rendering<T> {
    /// A block of `len` samples begins with what the block before left over.
    pub open spec fn begin(retained: Seq<T>, len: nat) -> Rendering<T> {
        let taken = if retained.len() <= len {
            retained.len()
        } else {
            len
        };
        Rendering { out: retained.take(taken as int), retained: retained.skip(taken as int), starved: false }
    }

    /// The block holds all of its `len` samples.
    pub open spec fn complete(self, len: nat) -> bool {
        self.out.len() == len
    }

    /// The block after the source was asked once more and answered `pulled`.
    ///
    /// A complete block is left alone. A chunk goes in as far as there is
    /// room, and its rest is retained. No chunk, or an empty one, pads the
    /// block with `silence`.
    pub open spec fn absorb(self, len: nat, silence: T, pulled: Option<Seq<T>>) -> Rendering<T> {
        if self.out.len() >= len {
            self
        } else if pulled is Some && pulled->Some_0.len() > 0 {
            let chunk = pulled->Some_0;
            let room = len - self.out.len();
            let taken = if chunk.len() <= room {
                chunk.len() as int
            } else {
                room
            };
            Rendering { out: self.out + chunk.take(taken), retained: chunk.skip(taken), starved: false }
        } else {
            Rendering {
                out: self.out + Seq::new((len - self.out.len()) as nat, |i: int| silence),
                retained: Seq::empty(),
                starved: true,
            }
        }
    }

    /// The block after each of `pulls` was absorbed, in order.
    pub open spec fn absorb_all(self, len: nat, silence: T, pulls: Seq<Option<Seq<T>>>) -> Rendering<
        T,
    >
        decreases pulls.len(),
    {
        if pulls.len() == 0 {
            self
        } else {
            self.absorb_all(len, silence, pulls.drop_last()).absorb(len, silence, pulls.last())
        }
    }
}

/// The bridge as a mathematical value.
pub struct BridgeView<T> {
    /// Samples pulled for an earlier block and not yet played.
    pub retained: Seq<T>,
    /// The source filled the last block.
    pub keeping_up: bool,
}

/// What one tick of the device leaves behind.
pub struct Tick<T> {
    pub bridge: BridgeView<T>,
    /// The block handed to the device.
    pub out: Seq<T>,
    pub event: RenderEvent,
}

impl<T> BridgeView<T> {
    /// One tick for a block of `len` samples, during which the source
    /// answered `pulls`.
    pub open spec fn tick(self, len: nat, silence: T, pulls: Seq<Option<Seq<T>>>) -> Tick<T> {
        let block = Rendering::begin(self.retained, len).absorb_all(len, silence, pulls);
        Tick {
            bridge: BridgeView { retained: block.retained, keeping_up: !block.starved },
            out: block.out,
            event: render_event(self.keeping_up, !block.starved),
        }
    }
}

impl<T> BridgeView<T> {
    /// The bridge after `ticks` ticks in a row, each for a block of `len`
    /// samples, in which the source had nothing.
    pub open spec fn dry_ticks(self, len: nat, silence: T, ticks: nat) -> BridgeView<T>
        decreases ticks,
    {
        if ticks == 0 {
            self
        } else {
            self.dry_ticks(len, silence, (ticks - 1) as nat).tick(len, silence, seq![None]).bridge
        }
    }
}

/// A bridge that retains nothing and meets a source that has nothing.
/// Every block is silence from end to end. The underrun is reported with
/// the first such block, if the bridge kept up until then, and with none of
/// those that follow. The first block after them that the source fills is
/// reported as the recovery, and a filled block after that is not reported.
pub proof fn lemma_underrun_reported_once<T>(
    bridge: BridgeView<T>,
    len: nat,
    silence: T,
    dry: nat,
    pulls: Seq<Option<Seq<T>>>,
    later: Seq<Option<Seq<T>>>,
)
    requires
        bridge.retained.len() == 0,
        len > 0,
    ensures
        ({
            let before = bridge.dry_ticks(len, silence, dry);
            let tick = before.tick(len, silence, seq![None]);
            &&& before.retained.len() == 0
            &&& dry > 0 ==> !before.keeping_up
            &&& tick.out == Seq::new(len, |i: int| silence)
            &&& tick.event == if dry == 0 && bridge.keeping_up {
                RenderEvent::Underrun
            } else {
                RenderEvent::Steady
            }
        }),
        ({
            let before = bridge.dry_ticks(len, silence, dry);
            let filled = before.tick(len, silence, pulls);
            let next = filled.bridge.tick(len, silence, later);
            dry > 0 && filled.bridge.keeping_up ==> {
                &&& filled.event == RenderEvent::Recovered
                &&& next.bridge.keeping_up ==> next.event == RenderEvent::Steady
            }
        }),
    decreases dry,
{
    if dry > 0 {
        lemma_underrun_reported_once(bridge, len, silence, (dry - 1) as nat, pulls, later);
        lemma_dry_tick(bridge.dry_ticks(len, silence, (dry - 1) as nat), len, silence);
    }
    lemma_dry_tick(bridge.dry_ticks(len, silence, dry), len, silence);
}

/// One block from a bridge that retains nothing, with a source that has
/// nothing: silence from end to end, nothing retained, not keeping up.
pub proof fn lemma_dry_tick<T>(bridge: BridgeView<T>, len: nat, silence: T)
    requires
        bridge.retained.len() == 0,
        len > 0,
    ensures
        bridge.tick(len, silence, seq![None]) == (Tick {
            bridge: BridgeView { retained: Seq::empty(), keeping_up: false },
            out: Seq::new(len, |i: int| silence),
            event: render_event(bridge.keeping_up, false),
        }),
{
    let nothing = seq![None::<Seq<T>>];
    assert(nothing.drop_last() =~= Seq::<Option<Seq<T>>>::empty());
    assert(bridge.retained.take(0) =~= Seq::<T>::empty());
    assert(bridge.retained.skip(0) =~= Seq::<T>::empty());
    let begun = Rendering::begin(bridge.retained, len);
    assert(begun.absorb_all(len, silence, nothing) == begun.absorb_all(
        len,
        silence,
        nothing.drop_last(),
    ).absorb(len, silence, nothing.last()));
    assert(begun.absorb_all(len, silence, nothing.drop_last()) == begun);
    assert(bridge.tick(len, silence, nothing).out =~= Seq::new(len, |i: int| silence));
}

/// Fills the audio device's blocks.
pub struct RenderBridge<T> {
    current_chunk: Option<Chunk<T>>,
    last_keep_up: bool,
}

impl<T: Copy> RenderBridge<T> {
    /// A retained chunk is well formed and has samples left.
    pub closed spec fn wf(&self) -> bool {
        self.current_chunk matches Some(chunk) ==> chunk.wf() && chunk@.len() > 0
    }

    pub closed spec fn view(&self) -> BridgeView<T> {
        BridgeView {
            retained: match self.current_chunk {
                Some(chunk) => chunk@,
                None => Seq::empty(),
            },
            keeping_up: self.last_keep_up,
        }
    }

    /// A bridge that retains nothing and has kept up so far.
    pub fn new() -> (bridge: Self)
        ensures
            bridge.wf(),
            bridge@ == (BridgeView { retained: Seq::<T>::empty(), keeping_up: true }),
    {
        RenderBridge { current_chunk: None, last_keep_up: true }
    }

    /// Copies from `chunk` into `data` from `filled` on, as far as there is
    /// room, and retains what is left of the chunk.
    fn play_chunk(&mut self, chunk: Chunk<T>, data: &mut [T], filled: usize) -> (end: usize)
        requires
            chunk.wf(),
            chunk@.len() > 0,
            filled < old(data)@.len(),
        ensures
            final(self).wf(),
            final(self).last_keep_up == old(self).last_keep_up,
            final(data)@.len() == old(data)@.len(),
            filled < end <= final(data)@.len(),
            end - filled <= chunk@.len(),
            end == final(data)@.len() || end - filled == chunk@.len(),
            final(data)@.take(end as int) == old(data)@.take(filled as int) + chunk@.take(
                end - filled,
            ),
            final(self)@.retained == chunk@.skip(end - filled),
    {
        let mut chunk = chunk;
        let ghost samples = chunk@;
        let len = data.len();
        let room = len - filled;
        let left = chunk.data.len() - chunk.offset;
        let split_point = if left <= room {
            left
        } else {
            room
        };
        let mut i: usize = 0;
        while i < split_point
            invariant
                i <= split_point,
                split_point <= left,
                chunk.offset + left == chunk.data@.len(),
                chunk.data@.len() <= usize::MAX,
                filled + split_point <= len,
                data@.len() == len,
                len == old(data)@.len(),
                samples == chunk.data@.skip(chunk.offset as int),
                data@.take(filled + i) == old(data)@.take(filled as int) + samples.take(i as int),
            decreases split_point - i,
        {
            let sample = chunk.data[chunk.offset + i];
            assert(sample == samples[i as int]);
            let ghost before = data@;
            data[filled + i] = sample;
            assert(data@ == before.update(filled + i, sample));
            assert(data@.take(filled + i + 1) =~= before.take(filled + i).push(sample));
            assert(samples.take(i + 1) =~= samples.take(i as int).push(sample));
            assert(data@.take(filled + i + 1) =~= old(data)@.take(filled as int) + samples.take(
                i + 1,
            ));
            i = i + 1;
        }
        if split_point < left {
            chunk.offset = chunk.offset + split_point;
            assert(chunk@ =~= samples.skip(split_point as int));
            self.current_chunk = Some(chunk);
        } else {
            self.current_chunk = None;
            assert(samples.skip(split_point as int) =~= Seq::empty());
        }
        filled + split_point
    }

    /// Writes `silence` into `data` from `filled` to its end.
    fn play_silence(data: &mut [T], filled: usize, silence: T)
        requires
            filled <= old(data)@.len(),
        ensures
            final(data)@.len() == old(data)@.len(),
            final(data)@ == old(data)@.take(filled as int) + Seq::new(
                (old(data)@.len() - filled) as nat,
                |i: int| silence,
            ),
    {
        let len = data.len();
        let mut i: usize = filled;
        while i < len
            invariant
                filled <= i <= len,
                data@.len() == len,
                len == old(data)@.len(),
                data@.take(i as int) == old(data)@.take(filled as int) + Seq::new(
                    (i - filled) as nat,
                    |k: int| silence,
                ),
            decreases len - i,
        {
            let ghost before = data@;
            data[i] = silence;
            assert(data@.take(i + 1) =~= before.take(i as int).push(silence));
            assert(data@.take(i + 1) =~= old(data)@.take(filled as int) + Seq::new(
                (i + 1 - filled) as nat,
                |k: int| silence,
            ));
            i = i + 1;
        }
        assert(data@.take(len as int) =~= data@);
    }

    /// Continues a block that has room from `filled` on with what the source
    /// answered, and returns how far the block is filled then. A chunk with
    /// samples goes in as far as there is room; anything else ends the block
    /// in silence.
    pub fn absorb(&mut self, pulled: Option<Vec<T>>, data: &mut [T], filled: usize, silence: T) -> (end:
        usize)
        requires
            old(self).wf(),
            old(self)@.retained.len() == 0,
            filled < old(data)@.len(),
        ensures
            final(self).wf(),
            final(data)@.len() == old(data)@.len(),
            filled < end <= final(data)@.len(),
            ({
                let before = Rendering {
                    out: old(data)@.take(filled as int),
                    retained: Seq::empty(),
                    starved: false,
                };
                let after = before.absorb(old(data)@.len(), silence, answer_of(pulled));
                &&& final(data)@.take(end as int) == after.out
                &&& final(self)@.retained == after.retained
                &&& final(self)@.keeping_up == (old(self)@.keeping_up && !after.starved)
                &&& after.starved ==> end == final(data)@.len()
                &&& end < final(data)@.len() ==> after.retained.len() == 0
            }),
    {
        match pulled {
            Some(samples) if samples.len() > 0 => {
                self.play_chunk(Chunk::new(samples), data, filled)
            },
            _ => {
                Self::play_silence(data, filled, silence);
                self.current_chunk = None;
                self.last_keep_up = false;
                assert(data@.take(data@.len() as int) =~= data@);
                data.len()
            },
        }
    }

    /// Fills one block for the device, pulling from `source` as often as the
    /// block needs and never after it is full.
    ///
    /// What the source answers is its own doing; whatever it is, the block,
    /// what is retained and the event are those of `tick` on these answers.
    pub fn render<F: AudioSource<T>>(&mut self, source: &mut F, data: &mut [T], silence: T) -> (event:
        RenderEvent)
        requires
            old(self).wf(),
        ensures
            final(self).wf(),
            final(data)@.len() == old(data)@.len(),
            exists|pulls: Seq<Option<Seq<T>>>| #[trigger]
                old(self)@.tick(old(data)@.len(), silence, pulls) == (Tick {
                    bridge: final(self)@,
                    out: final(data)@,
                    event,
                }),
    {
        let kept_up = self.last_keep_up;
        let len = data.len();
        let mut filled: usize = 0;
        let ghost start = self@;
        let ghost mut pulls: Seq<Option<Seq<T>>> = Seq::empty();
        if len > 0 {
            match self.current_chunk.take() {
                Some(chunk) => {
                    self.last_keep_up = true;
                    filled = self.play_chunk(chunk, data, 0);
                    assert(data@.take(filled as int) =~= start.retained.take(filled as int));
                },
                None => {
                    assert(start.retained.take(0) =~= Seq::<T>::empty());
                    assert(start.retained.skip(0) =~= Seq::<T>::empty());
                },
            }
        } else {
            assert(start.retained.take(0) =~= Seq::<T>::empty());
            assert(start.retained.skip(0) =~= start.retained);
        }
        self.last_keep_up = true;
        assert(data@.take(filled as int) =~= Rendering::begin(start.retained, len as nat).out);
        loop
            invariant
                self.wf(),
                self.last_keep_up,
                data@.len() == len,
                len == old(data)@.len(),
                filled <= len,
                start == old(self)@,
                kept_up == start.keeping_up,
                data@.take(filled as int) == Rendering::begin(start.retained, len as nat).absorb_all(
                    len as nat,
                    silence,
                    pulls,
                ).out,
                self@.retained == Rendering::begin(start.retained, len as nat).absorb_all(
                    len as nat,
                    silence,
                    pulls,
                ).retained,
                !Rendering::begin(start.retained, len as nat).absorb_all(
                    len as nat,
                    silence,
                    pulls,
                ).starved,
                filled < len ==> self@.retained.len() == 0,
            decreases len - filled,
        {
            let ghost block = Rendering::begin(start.retained, len as nat).absorb_all(
                len as nat,
                silence,
                pulls,
            );
            if filled == len {
                assert(data@.take(len as int) =~= data@);
                assert(start.tick(len as nat, silence, pulls) == (Tick {
                    bridge: self@,
                    out: data@,
                    event: render_event(kept_up, true),
                }));
                return if kept_up {
                    RenderEvent::Steady
                } else {
                    RenderEvent::Recovered
                };
            }
            let pulled = source.next();
            let ghost answer = answer_of(pulled);
            let ghost before = Rendering {
                out: data@.take(filled as int),
                retained: Seq::<T>::empty(),
                starved: false,
            };
            proof {
                assert(self@.retained =~= Seq::<T>::empty());
                assert(block == before);
                assert(pulls.push(answer).drop_last() =~= pulls);
                pulls = pulls.push(answer);
            }
            filled = self.absorb(pulled, data, filled, silence);
            assert(Rendering::begin(start.retained, len as nat).absorb_all(
                len as nat,
                silence,
                pulls,
            ) == before.absorb(len as nat, silence, answer));
            if !self.last_keep_up {
                assert(data@.take(len as int) =~= data@);
                assert(start.tick(len as nat, silence, pulls) == (Tick {
                    bridge: self@,
                    out: data@,
                    event: render_event(kept_up, false),
                }));
                return if kept_up {
                    RenderEvent::Underrun
                } else {
                    RenderEvent::Steady
                };
            }
        }
    }
}

} // verus!
