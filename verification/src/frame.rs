//! Captured frames and the per-frame quantities derived from them.
//!
//! A receiver yields one `FrameEvent` per poll: an audio frame with its
//! source timestamp and layout, a non-audio frame, no data within the
//! timeout, or an error. Timestamps are in ticks of 100 nanoseconds on the
//! source clock; presentation timestamps are offsets from a per-receiver
//! epoch, scaled to nanoseconds.

use vstd::prelude::*;

verus! {

/// Nanoseconds per tick of the source clock.
pub const TICK_NS: u64 = 100;

/// Nanoseconds per second, for duration and latency arithmetic.
pub const NANOS_PER_SEC: u64 = 1_000_000_000;

/// Largest source timestamp whose presentation timestamp still fits in a
/// 64-bit nanosecond count.
pub const MAX_TIMESTAMP: u64 = u64::MAX / TICK_NS;

/// The result of polling a receiver once.
#[derive(Clone, Copy, Debug, PartialEq, Eq, Structural)]
pub enum FrameEvent {
    /// An audio frame: its source timestamp (100 ns ticks) and layout.
    Audio { timestamp: u64, sample_rate: u32, channel_count: u32, sample_count: u32 },
    /// A video frame; the audio path discards it.
    Video,
    /// A metadata frame; the audio path discards it.
    Metadata,
    /// No frame arrived within the poll timeout.
    NoFrame,
    /// The receiver reported an error.
    ErrorFrame,
}

/// An audio frame the machine can work with: its rate divides, its
/// presentation timestamp and its payload size fit the machine's integers.
pub open spec fn event_valid(e: FrameEvent) -> bool {
    e matches FrameEvent::Audio { timestamp, sample_rate, channel_count, sample_count } ==> {
        &&& sample_rate > 0
        &&& timestamp <= MAX_TIMESTAMP
        &&& 2 * (sample_count as int) * (channel_count as int) <= usize::MAX
    }
}

/// Whether a receiver's epoch is established; `0` means "not yet set".
pub open spec fn epoch_established(initial_timestamp: u64) -> bool {
    initial_timestamp != 0
}

/// Whether a frame timestamp is accepted against a receiver epoch: the epoch
/// must be established and the frame must be strictly ahead of it.
pub open spec fn accepts(initial_timestamp: u64, timestamp: u64) -> bool {
    epoch_established(initial_timestamp) && timestamp > initial_timestamp
}

/// Presentation timestamp of an accepted frame, in nanoseconds: the distance
/// from the epoch, scaled from ticks.
pub open spec fn pts_of(timestamp: u64, initial_timestamp: u64) -> int {
    (timestamp - initial_timestamp) * TICK_NS
}

/// Duration of a frame in nanoseconds, truncated: samples over rate.
pub open spec fn duration_of(sample_count: u32, sample_rate: u32) -> int {
    (sample_count * NANOS_PER_SEC) / (sample_rate as int)
}

/// Byte size of a frame's payload as interleaved 16-bit PCM.
pub open spec fn payload_bytes(sample_count: u32, channel_count: u32) -> int {
    2 * sample_count * channel_count
}

/// The position of the first audio frame at or after `i`, if any: what a
/// blocking poll loop that discards every non-audio frame stops at.
pub open spec fn first_audio(events: Seq<FrameEvent>, i: int) -> Option<int>
    decreases events.len() - i,
{
    if i < 0 || i >= events.len() {
        None
    } else if events[i] is Audio {
        Some(i)
    } else {
        first_audio(events, i + 1)
    }
}

} // verus!
