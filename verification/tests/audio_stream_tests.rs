use leierkasten_client::audio_stream::{AudioSource, Chunk, RenderBridge, RenderEvent};

struct Script {
    answers: Vec<Option<Vec<f32>>>,
    pulls: usize,
}

impl Script {
    fn new(answers: Vec<Option<Vec<f32>>>) -> Self {
        Script { answers, pulls: 0 }
    }
}

impl AudioSource<f32> for Script {
    fn next(&mut self) -> Option<Vec<f32>> {
        self.pulls += 1;
        if self.answers.is_empty() {
            None
        } else {
            self.answers.remove(0)
        }
    }
}

#[test]
fn chunk_starts_with_everything_remaining() {
    let chunk = Chunk::new(vec![1.0f32, 2.0, 3.0]);
    assert_eq!(chunk.remaining_slice(), &[1.0, 2.0, 3.0]);
    let empty: Chunk<f32> = Chunk::new(Vec::new());
    assert!(empty.remaining_slice().is_empty());
}

#[test]
fn underrun_fills_block_with_silence() {
    let mut bridge = RenderBridge::new();
    let mut source = Script::new(vec![]);
    let mut block = [9.0f32; 8];
    let event = bridge.render(&mut source, &mut block, 0.0);
    assert_eq!(block, [0.0; 8]);
    assert_eq!(event, RenderEvent::Underrun);
    assert_eq!(source.pulls, 1);
}

#[test]
fn underrun_is_reported_once_and_recovery_once() {
    let mut bridge = RenderBridge::new();
    let mut dry = Script::new(vec![]);
    let mut events = Vec::new();
    for _ in 0..5 {
        let mut block = [7.0f32; 4];
        events.push(bridge.render(&mut dry, &mut block, 0.0));
        assert_eq!(block, [0.0; 4]);
    }
    assert_eq!(
        events,
        vec![
            RenderEvent::Underrun,
            RenderEvent::Steady,
            RenderEvent::Steady,
            RenderEvent::Steady,
            RenderEvent::Steady
        ]
    );

    let mut wet = Script::new(vec![Some(vec![1.0; 4]), Some(vec![2.0; 4])]);
    let mut block = [0.0f32; 4];
    assert_eq!(bridge.render(&mut wet, &mut block, 0.0), RenderEvent::Recovered);
    assert_eq!(block, [1.0; 4]);
    assert_eq!(bridge.render(&mut wet, &mut block, 0.0), RenderEvent::Steady);
    assert_eq!(block, [2.0; 4]);
}

#[test]
fn chunks_are_joined_to_fill_a_block() {
    let mut bridge = RenderBridge::new();
    let mut source = Script::new(vec![Some(vec![1.0, 2.0]), Some(vec![3.0]), Some(vec![4.0, 5.0])]);
    let mut block = [0.0f32; 5];
    assert_eq!(bridge.render(&mut source, &mut block, 0.0), RenderEvent::Steady);
    assert_eq!(block, [1.0, 2.0, 3.0, 4.0, 5.0]);
    assert_eq!(source.pulls, 3);
}

#[test]
fn leftover_is_kept_for_the_next_block() {
    let mut bridge = RenderBridge::new();
    let mut source = Script::new(vec![Some(vec![1.0, 2.0, 3.0, 4.0, 5.0, 6.0, 7.0])]);
    let mut block = [0.0f32; 3];
    assert_eq!(bridge.render(&mut source, &mut block, 0.0), RenderEvent::Steady);
    assert_eq!(block, [1.0, 2.0, 3.0]);
    assert_eq!(source.pulls, 1);
    assert_eq!(bridge.render(&mut source, &mut block, 0.0), RenderEvent::Steady);
    assert_eq!(block, [4.0, 5.0, 6.0]);
    assert_eq!(source.pulls, 1);
    assert_eq!(bridge.render(&mut source, &mut block, -1.0), RenderEvent::Underrun);
    assert_eq!(block, [7.0, -1.0, -1.0]);
    assert_eq!(source.pulls, 2);
}

#[test]
fn source_is_not_asked_once_the_block_is_full() {
    let mut bridge = RenderBridge::new();
    let mut source = Script::new(vec![Some(vec![1.0, 2.0]), Some(vec![3.0, 4.0])]);
    let mut block = [0.0f32; 2];
    bridge.render(&mut source, &mut block, 0.0);
    assert_eq!(source.pulls, 1);
    assert_eq!(block, [1.0, 2.0]);
}

#[test]
fn data_then_nothing_pads_the_rest() {
    let mut bridge = RenderBridge::new();
    let mut source = Script::new(vec![Some(vec![1.0, 2.0]), None, Some(vec![3.0])]);
    let mut block = [5.0f32; 4];
    assert_eq!(bridge.render(&mut source, &mut block, 0.0), RenderEvent::Underrun);
    assert_eq!(block, [1.0, 2.0, 0.0, 0.0]);
    assert_eq!(source.pulls, 2);
}

#[test]
fn empty_chunk_counts_as_no_data() {
    let mut bridge = RenderBridge::new();
    let mut source = Script::new(vec![Some(vec![]), Some(vec![1.0, 1.0])]);
    let mut block = [5.0f32; 2];
    assert_eq!(bridge.render(&mut source, &mut block, 0.0), RenderEvent::Underrun);
    assert_eq!(block, [0.0, 0.0]);
    assert_eq!(source.pulls, 1);
}

#[test]
fn empty_block_asks_nothing_and_keeps_the_leftover() {
    let mut bridge = RenderBridge::new();
    let mut source = Script::new(vec![Some(vec![1.0, 2.0, 3.0])]);
    let mut block = [0.0f32; 2];
    bridge.render(&mut source, &mut block, 0.0);
    let mut nothing: [f32; 0] = [];
    assert_eq!(bridge.render(&mut source, &mut nothing, 0.0), RenderEvent::Steady);
    assert_eq!(source.pulls, 1);
    let mut one = [0.0f32; 1];
    assert_eq!(bridge.render(&mut source, &mut one, 0.0), RenderEvent::Steady);
    assert_eq!(one, [3.0]);
    assert_eq!(source.pulls, 1);
}

#[test]
fn absorb_places_a_chunk_after_what_is_filled() {
    let mut bridge = RenderBridge::new();
    let mut block = [9i16; 5];
    let end = bridge.absorb(Some(vec![1, 2]), &mut block, 1, 0);
    assert_eq!(end, 3);
    assert_eq!(block, [9, 1, 2, 9, 9]);
    let end = bridge.absorb(None, &mut block, end, 0);
    assert_eq!(end, 5);
    assert_eq!(block, [9, 1, 2, 0, 0]);
}

#[test]
fn bridge_works_with_integer_samples() {
    let mut bridge: RenderBridge<i16> = RenderBridge::new();
    struct Ones;
    impl AudioSource<i16> for Ones {
        fn next(&mut self) -> Option<Vec<i16>> {
            Some(vec![1, 1, 1])
        }
    }
    let mut block = [0i16; 7];
    assert_eq!(bridge.render(&mut Ones, &mut block, 0), RenderEvent::Steady);
    assert_eq!(block, [1; 7]);
}
