use ndi_audio_src::adapter::{NdiAudioSrc, DEFAULT_LOSS_THRESHOLD, MAX_LOSS_THRESHOLD};
use ndi_audio_src::frame::FrameEvent;

#[test]
fn fresh_adapter_has_documented_defaults() {
    let src = NdiAudioSrc::new();
    assert_eq!(src.stream_name(), "Fixed ndi stream name");
    assert_eq!(src.ip(), "");
    assert_eq!(src.loss_threshold(), DEFAULT_LOSS_THRESHOLD);
    assert_eq!(src.loss_threshold(), 40000);
    assert_eq!(src.id_receiver(), 0);
    assert_eq!(src.latency_query(), None);
}

#[test]
fn property_setters_round_trip() {
    let mut src = NdiAudioSrc::new();
    src.set_stream_name(String::from("studio feed"));
    src.set_ip(String::from("127.0.0.1:5961"));
    src.set_loss_threshold(12);
    assert_eq!(src.stream_name(), "studio feed");
    assert_eq!(src.ip(), "127.0.0.1:5961");
    assert_eq!(src.loss_threshold(), 12);
    src.set_loss_threshold(0);
    assert_eq!(src.loss_threshold(), 0);
    src.set_loss_threshold(MAX_LOSS_THRESHOLD);
    assert_eq!(src.loss_threshold(), 200000);
}

#[test]
fn start_succeeds_exactly_on_nonzero_receiver_id() {
    let mut src = NdiAudioSrc::new();
    assert!(!src.start(0));
    assert_eq!(src.id_receiver(), 0);
    assert!(src.start(7));
    assert_eq!(src.id_receiver(), 7);
}

#[test]
fn stop_clears_connection_and_is_idempotent() {
    let mut src = NdiAudioSrc::new();
    assert!(src.start(3));
    assert!(src.set_caps(48000, 2));
    assert_eq!(src.stop(), 3);
    assert_eq!(src.id_receiver(), 0);
    assert_eq!(src.latency_query(), None);
    assert_eq!(src.stop(), 0);
}

#[test]
fn set_caps_rejects_degenerate_formats() {
    let mut src = NdiAudioSrc::new();
    assert!(!src.set_caps(0, 2));
    assert!(!src.set_caps(44100, 0));
    assert!(src.set_caps(44100, 2));
}

#[test]
fn negotiate_format_takes_first_audio_frame_and_derives_latency() {
    let mut src = NdiAudioSrc::new();
    let events = vec![
        FrameEvent::Video,
        FrameEvent::Metadata,
        FrameEvent::NoFrame,
        FrameEvent::Audio { timestamp: 10, sample_rate: 48000, channel_count: 2, sample_count: 1601 },
        FrameEvent::Audio { timestamp: 20, sample_rate: 44100, channel_count: 1, sample_count: 441 },
    ];
    let mut cursor = 0usize;
    let format = src.negotiate_format(&events, &mut cursor).expect("audio frame present");
    assert_eq!(format.sample_rate, 48000);
    assert_eq!(format.channel_count, 2);
    assert_eq!(cursor, 4);
    // 1601 samples at 48 kHz: 33_354_166.6.. ns, truncated.
    assert!(src.set_caps(format.sample_rate, format.channel_count));
    assert_eq!(src.latency_query(), Some(33_354_166));
}

#[test]
fn negotiate_format_reports_exhaustion() {
    let mut src = NdiAudioSrc::new();
    let events = vec![FrameEvent::NoFrame, FrameEvent::Video];
    let mut cursor = 0usize;
    assert_eq!(src.negotiate_format(&events, &mut cursor), None);
    assert_eq!(cursor, 2);
    assert_eq!(src.latency_query(), None);
}

#[test]
fn latency_query_needs_negotiated_format() {
    let mut src = NdiAudioSrc::new();
    let events = vec![FrameEvent::Audio {
        timestamp: 10,
        sample_rate: 48000,
        channel_count: 2,
        sample_count: 480,
    }];
    let mut cursor = 0usize;
    src.negotiate_format(&events, &mut cursor).expect("audio frame present");
    // Latency is derived, but the format is not fixed yet: not ready.
    assert_eq!(src.latency_query(), None);
    assert!(src.set_caps(48000, 2));
    assert_eq!(src.latency_query(), Some(10_000_000));
}
