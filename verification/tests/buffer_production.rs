use ndi_audio_src::adapter::{establish_epoch, NdiAudioSrc};
use ndi_audio_src::frame::FrameEvent;
use ndi_audio_src::produce::ProduceError;
use ndi_audio_src::registry::ReceiverRegistry;

fn audio(timestamp: u64, sample_count: u32) -> FrameEvent {
    FrameEvent::Audio { timestamp, sample_rate: 48000, channel_count: 2, sample_count }
}

/// A registry with one connected receiver whose epoch is already `epoch`,
/// and an adapter started on it with the given loss threshold.
fn connected_adapter(epoch: u64, loss_threshold: u32) -> (NdiAudioSrc, ReceiverRegistry) {
    let mut reg = ReceiverRegistry::new();
    let id = reg.register_connection(&String::from("10.0.0.1"), &String::from("cam"), 1);
    if epoch != 0 {
        assert!(reg.observe_timestamp(id, epoch));
    }
    let mut src = NdiAudioSrc::new();
    src.set_loss_threshold(loss_threshold);
    assert!(src.start(id));
    assert!(src.set_caps(48000, 2));
    (src, reg)
}

#[test]
fn create_before_negotiation_is_not_ready() {
    let mut reg = ReceiverRegistry::new();
    let id = reg.register_connection(&String::from("ip"), &String::from("s"), 1);
    let mut src = NdiAudioSrc::new();
    assert!(src.start(id));
    let events = vec![audio(2000, 480)];
    let mut cursor = 0usize;
    let r = src.produce_next_buffer(&reg, &events, &mut cursor);
    assert!(matches!(r, Err(ProduceError::NotNegotiated)));
    assert_eq!(cursor, 0);
}

#[test]
fn accepted_frame_is_stamped_exactly() {
    let (mut src, reg) = connected_adapter(1000, 40000);
    let events = vec![audio(1500, 480)];
    let mut cursor = 0usize;
    let b = src.produce_next_buffer(&reg, &events, &mut cursor).expect("a real buffer");
    // 500 ticks of 100 ns ahead of the epoch.
    assert_eq!(b.pts, 50_000);
    // 480 samples at 48 kHz.
    assert_eq!(b.duration, 10_000_000);
    assert_eq!(b.offset, 0);
    assert_eq!(b.offset_end, 480);
    // Interleaved 16-bit PCM: 2 bytes x 2 channels x 480 samples.
    assert_eq!(b.data.len(), 1920);
    assert!(b.data.iter().all(|&x| x == 0));
    assert_eq!(cursor, 1);
}

#[test]
fn zero_threshold_misses_yield_silence_and_never_fail() {
    let (mut src, reg) = connected_adapter(1000, 0);
    let events = vec![FrameEvent::NoFrame, FrameEvent::ErrorFrame, FrameEvent::NoFrame];
    let mut cursor = 0usize;
    for _ in 0..3 {
        let b = src.produce_next_buffer(&reg, &events, &mut cursor).expect("silence, not an error");
        assert_eq!(b.data.len(), 0);
    }
    assert_eq!(cursor, 3);
}

#[test]
fn losses_below_threshold_are_tolerated_and_reset_by_audio() {
    // Threshold 3: two misses give two silence buffers, then audio resets.
    let (mut src, reg) = connected_adapter(1000, 3);
    let events = vec![
        FrameEvent::NoFrame,
        FrameEvent::ErrorFrame,
        audio(1200, 480),
        FrameEvent::NoFrame,
        FrameEvent::NoFrame,
    ];
    let mut cursor = 0usize;
    let s1 = src.produce_next_buffer(&reg, &events, &mut cursor).expect("first silence");
    assert_eq!(s1.data.len(), 0);
    let s2 = src.produce_next_buffer(&reg, &events, &mut cursor).expect("second silence");
    assert_eq!(s2.data.len(), 0);
    // The third call returns a real buffer and the miss count is back at 0,
    // so two more misses are tolerated again instead of failing.
    let b = src.produce_next_buffer(&reg, &events, &mut cursor).expect("a real buffer");
    assert_eq!(b.pts, 20_000);
    assert_ne!(b.data.len(), 0);
    assert!(src.produce_next_buffer(&reg, &events, &mut cursor).is_ok());
    assert!(src.produce_next_buffer(&reg, &events, &mut cursor).is_ok());
}

#[test]
fn loss_at_threshold_closes_the_source_until_restart() {
    // Threshold 2: the second consecutive miss is fatal.
    let (mut src, reg) = connected_adapter(1000, 2);
    let events = vec![FrameEvent::NoFrame, FrameEvent::NoFrame, audio(1500, 480)];
    let mut cursor = 0usize;
    let s1 = src.produce_next_buffer(&reg, &events, &mut cursor).expect("one silence first");
    assert_eq!(s1.data.len(), 0);
    let r = src.produce_next_buffer(&reg, &events, &mut cursor);
    assert!(matches!(r, Err(ProduceError::SourceClosed)));
    assert_eq!(cursor, 2);
    // Latched: no further buffer is attempted, not even with audio pending.
    let r2 = src.produce_next_buffer(&reg, &events, &mut cursor);
    assert!(matches!(r2, Err(ProduceError::SourceClosed)));
    assert_eq!(cursor, 2);
    // A fresh start clears the latch.
    let id = src.stop();
    assert!(src.start(id));
    assert!(src.set_caps(48000, 2));
    let b = src.produce_next_buffer(&reg, &events, &mut cursor).expect("a real buffer");
    assert_eq!(b.pts, 50_000);
}

#[test]
fn error_frames_count_against_the_threshold() {
    let (mut src, reg) = connected_adapter(1000, 1);
    let events = vec![FrameEvent::ErrorFrame];
    let mut cursor = 0usize;
    let r = src.produce_next_buffer(&reg, &events, &mut cursor);
    assert!(matches!(r, Err(ProduceError::SourceClosed)));
}

#[test]
fn pre_epoch_frames_are_discarded_without_a_loss_tick() {
    // Threshold 1: a single miss would be fatal, but pre-epoch frames are
    // not misses; they are skipped and the next good frame is produced.
    let (mut src, reg) = connected_adapter(1000, 1);
    let events = vec![audio(900, 480), audio(1000, 480), audio(1600, 480)];
    let mut cursor = 0usize;
    let b = src.produce_next_buffer(&reg, &events, &mut cursor).expect("a real buffer");
    assert_eq!(b.pts, 60_000);
    assert_eq!(b.offset, 0);
    assert_eq!(b.offset_end, 480);
    assert_eq!(cursor, 3);
}

#[test]
fn unset_epoch_discards_audio_frames() {
    // No epoch was established: every audio frame counts as pre-epoch.
    let (mut src, reg) = connected_adapter(0, 5);
    let events = vec![audio(100, 480), audio(200, 480)];
    let mut cursor = 0usize;
    let r = src.produce_next_buffer(&reg, &events, &mut cursor);
    assert!(matches!(r, Err(ProduceError::Starved)));
    assert_eq!(cursor, 2);
}

#[test]
fn video_and_metadata_frames_are_skipped() {
    let (mut src, reg) = connected_adapter(1000, 1);
    let events = vec![FrameEvent::Video, FrameEvent::Metadata, audio(1200, 120)];
    let mut cursor = 0usize;
    let b = src.produce_next_buffer(&reg, &events, &mut cursor).expect("a real buffer");
    assert_eq!(b.pts, 20_000);
    assert_eq!(b.data.len(), 480);
    assert_eq!(cursor, 3);
}

#[test]
fn exhausted_events_starve_the_call() {
    let (mut src, reg) = connected_adapter(1000, 5);
    let events: Vec<FrameEvent> = Vec::new();
    let mut cursor = 0usize;
    let r = src.produce_next_buffer(&reg, &events, &mut cursor);
    assert!(matches!(r, Err(ProduceError::Starved)));
}

#[test]
fn offsets_of_produced_buffers_chain_across_silence() {
    let (mut src, reg) = connected_adapter(1000, 10);
    let events = vec![
        audio(1100, 480),
        FrameEvent::NoFrame,
        audio(1200, 360),
        FrameEvent::Video,
        audio(1300, 240),
    ];
    let mut cursor = 0usize;
    let b1 = src.produce_next_buffer(&reg, &events, &mut cursor).expect("first buffer");
    let s = src.produce_next_buffer(&reg, &events, &mut cursor).expect("silence between");
    assert_eq!(s.data.len(), 0);
    let b2 = src.produce_next_buffer(&reg, &events, &mut cursor).expect("second buffer");
    let b3 = src.produce_next_buffer(&reg, &events, &mut cursor).expect("third buffer");
    assert_eq!(b1.offset, 0);
    assert_eq!(b1.offset_end, 480);
    assert_eq!(b2.offset, b1.offset_end);
    assert_eq!(b2.offset_end, 840);
    assert_eq!(b3.offset, b2.offset_end);
    assert_eq!(b3.offset_end, 1080);
}

#[test]
fn pts_are_nonnegative_and_nondecreasing_in_order() {
    let (mut src, reg) = connected_adapter(1000, 0);
    let events = vec![audio(1001, 10), audio(1500, 10), audio(1500, 10), audio(9000, 10)];
    let mut cursor = 0usize;
    let mut last: u64 = 0;
    for _ in 0..3 {
        let b = src.produce_next_buffer(&reg, &events, &mut cursor).expect("a real buffer");
        assert!(b.pts >= last);
        last = b.pts;
    }
    // The third frame repeats a timestamp; it is still ahead of the epoch,
    // so it is produced with an equal pts.
    assert_eq!(last, 50_000);
}

#[test]
fn establish_epoch_uses_first_audio_frame() {
    let mut reg = ReceiverRegistry::new();
    let id = reg.register_connection(&String::from("ip"), &String::from("s"), 1);
    let events = vec![FrameEvent::NoFrame, FrameEvent::Video, audio(5000, 480), audio(100, 480)];
    let mut cursor = 0usize;
    assert!(establish_epoch(&mut reg, id, &events, &mut cursor));
    assert_eq!(reg.initial_timestamp_of(id), Some(5000));
    assert_eq!(cursor, 3);
    // A second pass sees an earlier frame and moves the epoch backward.
    assert!(establish_epoch(&mut reg, id, &events, &mut cursor));
    assert_eq!(reg.initial_timestamp_of(id), Some(100));
    // Exhaustion without an audio frame reports false.
    assert!(!establish_epoch(&mut reg, id, &events, &mut cursor));
}
