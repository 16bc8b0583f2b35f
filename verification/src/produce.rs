//! The frame-acquisition state machine: one decision per polled frame, and
//! the per-call loop that turns a run of polled frames into one produced
//! buffer, one silence signal, or a fatal "source closed" failure.

use vstd::prelude::*;

use crate::frame::{
    accepts, duration_of, event_valid, payload_bytes, pts_of, FrameEvent, NANOS_PER_SEC, TICK_NS,
};
use crate::adapter::NdiAudioSrc;
use crate::registry::{has_id, index_of_id, ReceiverRegistry};

verus! {

/// Per-adapter counters: the running sample offset stamped on produced
/// buffers, and the count of consecutive missed polls since the last
/// accepted audio frame.
#[derive(Clone, Copy, Debug, PartialEq, Eq, Structural)]
pub struct TimestampCounters {
    pub running_sample_offset: u64,
    pub consecutive_missing_count: u32,
}

impl TimestampCounters {
    /// Fresh counters: offset zero, no misses.
    pub fn new() -> (c: TimestampCounters)
        ensures
            c == TimestampCounters::zero(),
    {
        TimestampCounters { running_sample_offset: 0, consecutive_missing_count: 0 }
    }

    /// The counters a fresh start begins with.
    pub open spec fn zero() -> TimestampCounters {
        TimestampCounters { running_sample_offset: 0, consecutive_missing_count: 0 }
    }
}

/// What the acquisition loop does with one polled frame.
#[derive(Clone, Copy, Debug, PartialEq, Eq, Structural)]
pub enum CaptureStep {
    /// Tolerable loss: emit a zero-length buffer and return.
    EmitSilence,
    /// Loss reached the threshold: fail the call, the source closed.
    SourceClosed,
    /// Non-audio or pre-epoch frame: poll again, no state change.
    Discard,
    /// An accepted audio frame, with its stamped quantities.
    Accept { pts: u64, duration: u64, sample_rate: u32, channel_count: u32, sample_count: u32 },
}

/// The decision and counter update for one polled frame.
///
/// A missing or errored poll under a zero loss threshold is always tolerated
/// and counts nothing. Under a positive threshold it increments the miss
/// count; the poll that brings the count up to the threshold fails instead.
/// Non-audio frames and audio frames not strictly ahead of the established
/// epoch are discarded untouched. An accepted audio frame resets the miss
/// count and advances the running sample offset.
pub open spec fn spec_step(
    e: FrameEvent,
    loss_threshold: u32,
    initial_timestamp: u64,
    c: TimestampCounters,
) -> (CaptureStep, TimestampCounters) {
    match e {
        FrameEvent::Audio { timestamp, sample_rate, channel_count, sample_count } => {
            if accepts(initial_timestamp, timestamp) {
                (
                    CaptureStep::Accept {
                        pts: pts_of(timestamp, initial_timestamp) as u64,
                        duration: duration_of(sample_count, sample_rate) as u64,
                        sample_rate,
                        channel_count,
                        sample_count,
                    },
                    TimestampCounters {
                        running_sample_offset: (c.running_sample_offset + sample_count) as u64,
                        consecutive_missing_count: 0,
                    },
                )
            } else {
                (CaptureStep::Discard, c)
            }
        },
        FrameEvent::Video => (CaptureStep::Discard, c),
        FrameEvent::Metadata => (CaptureStep::Discard, c),
        FrameEvent::NoFrame | FrameEvent::ErrorFrame => {
            if loss_threshold == 0 {
                (CaptureStep::EmitSilence, c)
            } else if c.consecutive_missing_count + 1 >= loss_threshold {
                (CaptureStep::SourceClosed, c)
            } else {
                (
                    CaptureStep::EmitSilence,
                    TimestampCounters {
                        running_sample_offset: c.running_sample_offset,
                        consecutive_missing_count: (c.consecutive_missing_count + 1) as u32,
                    },
                )
            }
        },
    }
}

/// Classify one polled frame and update the counters accordingly.
pub fn process_event(
    e: &FrameEvent,
    loss_threshold: u32,
    initial_timestamp: u64,
    counters: &mut TimestampCounters,
) -> (r: CaptureStep)
    requires
        event_valid(*e),
        (*e matches FrameEvent::Audio { sample_count, .. } ==> old(
            counters,
        ).running_sample_offset + sample_count <= u64::MAX),
    ensures
        (r, *final(counters)) == spec_step(*e, loss_threshold, initial_timestamp, *old(counters)),
{
    match *e {
        FrameEvent::Audio { timestamp, sample_rate, channel_count, sample_count } => {
            if initial_timestamp != 0 && timestamp > initial_timestamp {
                assert((timestamp - initial_timestamp) * TICK_NS <= u64::MAX) by {
                    assert(timestamp <= u64::MAX / TICK_NS);
                    assert((u64::MAX / TICK_NS) * TICK_NS <= u64::MAX) by (nonlinear_arith);
                    assert((timestamp - initial_timestamp) * TICK_NS <= timestamp * TICK_NS) by (
                    nonlinear_arith)
                        requires
                            0 < initial_timestamp <= timestamp,
                    ;
                    assert(timestamp * TICK_NS <= (u64::MAX / TICK_NS) * TICK_NS) by (
                    nonlinear_arith)
                        requires
                            timestamp <= u64::MAX / TICK_NS,
                    ;
                }
                let pts: u64 = (timestamp - initial_timestamp) * TICK_NS;
                let duration: u64 = (sample_count as u64) * NANOS_PER_SEC / (sample_rate as u64);
                counters.running_sample_offset = counters.running_sample_offset + (
                sample_count as u64);
                counters.consecutive_missing_count = 0;
                CaptureStep::Accept { pts, duration, sample_rate, channel_count, sample_count }
            } else {
                CaptureStep::Discard
            }
        },
        FrameEvent::Video => CaptureStep::Discard,
        FrameEvent::Metadata => CaptureStep::Discard,
        FrameEvent::NoFrame | FrameEvent::ErrorFrame => {
            if loss_threshold == 0 {
                CaptureStep::EmitSilence
            } else if counters.consecutive_missing_count >= loss_threshold - 1 {
                CaptureStep::SourceClosed
            } else {
                counters.consecutive_missing_count = counters.consecutive_missing_count + 1;
                CaptureStep::EmitSilence
            }
        },
    }
}

/// How many samples an event contributes to the running sample offset.
pub open spec fn sample_weight(e: FrameEvent) -> int {
    match e {
        FrameEvent::Audio { sample_count, .. } => sample_count as int,
        _ => 0,
    }
}

/// The samples contributed by the events from position `i` on: a bound on
/// how far the running sample offset can advance over them.
pub open spec fn total_samples(events: Seq<FrameEvent>, i: int) -> int
    decreases events.len() - i,
{
    if i < 0 || i >= events.len() {
        0
    } else {
        sample_weight(events[i]) + total_samples(events, i + 1)
    }
}

pub proof fn lemma_total_samples_nonneg(events: Seq<FrameEvent>, i: int)
    ensures
        total_samples(events, i) >= 0,
    decreases events.len() - i,
{
    if 0 <= i < events.len() {
        lemma_total_samples_nonneg(events, i + 1);
    }
}

/// The result of one buffer-producing call.
#[derive(Clone, Copy, Debug, PartialEq, Eq, Structural)]
pub enum RunOutcome {
    /// A real buffer was produced, with these stamps.
    Produced {
        pts: u64,
        duration: u64,
        offset: u64,
        offset_end: u64,
        sample_rate: u32,
        channel_count: u32,
        sample_count: u32,
    },
    /// Tolerable loss: a zero-length buffer stands for silence.
    Silence,
    /// Loss reached the threshold: the source counts as closed.
    Closed,
    /// The supplied polled frames were exhausted while discarding.
    Starved,
}

/// One buffer-producing call over the polled frames from position `i` on:
/// step per frame, looping past discards, until a frame produces a buffer,
/// silence or failure, or the frames run out. Yields the outcome, the
/// position after the consumed frames, and the counters after the call.
pub open spec fn spec_run(
    events: Seq<FrameEvent>,
    i: int,
    loss_threshold: u32,
    initial_timestamp: u64,
    c: TimestampCounters,
) -> (RunOutcome, int, TimestampCounters)
    decreases events.len() - i,
{
    if i < 0 || i >= events.len() {
        (RunOutcome::Starved, events.len() as int, c)
    } else {
        let (step, c2) = spec_step(events[i], loss_threshold, initial_timestamp, c);
        match step {
            CaptureStep::Discard => spec_run(events, i + 1, loss_threshold, initial_timestamp, c2),
            CaptureStep::EmitSilence => (RunOutcome::Silence, i + 1, c2),
            CaptureStep::SourceClosed => (RunOutcome::Closed, i + 1, c2),
            CaptureStep::Accept { pts, duration, sample_rate, channel_count, sample_count } => (
                RunOutcome::Produced {
                    pts,
                    duration,
                    offset: c.running_sample_offset,
                    offset_end: c2.running_sample_offset,
                    sample_rate,
                    channel_count,
                    sample_count,
                },
                i + 1,
                c2,
            ),
        }
    }
}

/// An output buffer: zeroed storage for the converted interleaved 16-bit
/// PCM, and the stamps the host puts on it. A zero-length buffer signals
/// silence for one interval.
pub struct AudioBuffer {
    /// Destination bytes, sized for the frame and handed to the opaque PCM
    /// conversion by the host; zero-length for silence.
    pub data: Vec<u8>,
    /// Presentation timestamp in nanoseconds from the receiver epoch.
    pub pts: u64,
    /// Duration in nanoseconds.
    pub duration: u64,
    /// Running sample offset before this buffer.
    pub offset: u64,
    /// Running sample offset after this buffer.
    pub offset_end: u64,
}

/// Why a buffer-producing call failed.
#[derive(Clone, Copy, Debug, PartialEq, Eq, Structural)]
pub enum ProduceError {
    /// No format negotiated yet; negotiate and retry.
    NotNegotiated,
    /// Loss reached the threshold or the source already closed: fatal, stop
    /// the adapter.
    SourceClosed,
    /// The supplied polled frames were exhausted while discarding; poll
    /// again.
    Starved,
}

/// A zero-filled byte buffer of the given length.
fn zeroed_buffer(len: usize) -> (v: Vec<u8>)
    ensures
        v@.len() == len,
        forall|q: int| 0 <= q < v@.len() ==> v@[q] == 0,
{
    let mut v: Vec<u8> = Vec::new();
    let mut k: usize = 0;
    while k < len
        invariant
            k <= len,
            v@.len() == k,
            forall|q: int| 0 <= q < v@.len() ==> v@[q] == 0,
        decreases len - k,
    {
        v.push(0);
        k = k + 1;
    }
    v
}

impl NdiAudioSrc {
    /// Produce the next buffer from the polled frames, one call per emitted
    /// buffer.
    ///
    /// The call fails with `NotNegotiated` before a format is fixed and with
    /// `SourceClosed` forever once loss has reached the threshold. Otherwise
    /// it consumes polled frames as `spec_run` says: non-audio and pre-epoch
    /// frames are discarded; a missed poll yields a zero-length silence
    /// buffer while tolerated and a fatal failure at the threshold; an
    /// accepted audio frame yields a zeroed buffer sized for its interleaved
    /// 16-bit PCM payload, stamped with its presentation timestamp, duration
    /// and the running sample offsets. `Starved` reports that the supplied
    /// frames ran out while discarding: poll more and call again.
    pub fn produce_next_buffer(
        &mut self,
        registry: &ReceiverRegistry,
        events: &Vec<FrameEvent>,
        cursor: &mut usize,
    ) -> (r: Result<AudioBuffer, ProduceError>)
        requires
            registry.wf(),
            !old(self).source_closed && old(self).format is Some ==> has_id(
                registry.entries@,
                old(self).settings.id_receiver,
            ),
            *old(cursor) <= events@.len(),
            forall|j: int|
                *old(cursor) <= j < events@.len() ==> event_valid(#[trigger] events@[j]),
            old(self).counters.running_sample_offset + total_samples(
                events@,
                *old(cursor) as int,
            ) <= u64::MAX,
        ensures
            final(self).settings == old(self).settings,
            final(self).format == old(self).format,
            old(self).source_closed ==> {
                &&& r == Err::<AudioBuffer, ProduceError>(ProduceError::SourceClosed)
                &&& final(self).counters == old(self).counters
                &&& final(self).source_closed
                &&& *final(cursor) == *old(cursor)
            },
            !old(self).source_closed && old(self).format is None ==> {
                &&& r == Err::<AudioBuffer, ProduceError>(ProduceError::NotNegotiated)
                &&& final(self).counters == old(self).counters
                &&& !final(self).source_closed
                &&& *final(cursor) == *old(cursor)
            },
            !old(self).source_closed && old(self).format is Some ==> {
                let initial_timestamp = registry.entries@[index_of_id(
                    registry.entries@,
                    old(self).settings.id_receiver,
                )].initial_timestamp;
                let (outcome, j, c2) = spec_run(
                    events@,
                    *old(cursor) as int,
                    old(self).settings.loss_threshold,
                    initial_timestamp,
                    old(self).counters,
                );
                &&& *final(cursor) == j
                &&& final(self).counters == c2
                &&& (outcome is Silence ==> {
                    &&& (r matches Ok(b) && b.data@.len() == 0 && b.pts == 0 && b.duration == 0
                        && b.offset == 0 && b.offset_end == 0)
                    &&& !final(self).source_closed
                })
                &&& (outcome matches RunOutcome::Produced {
                    pts,
                    duration,
                    offset,
                    offset_end,
                    sample_count,
                    channel_count,
                    ..
                } ==> {
                    &&& (r matches Ok(b) && b.pts == pts && b.duration == duration && b.offset
                        == offset && b.offset_end == offset_end && b.data@.len() == payload_bytes(
                        sample_count,
                        channel_count,
                    ) && (forall|q: int| 0 <= q < b.data@.len() ==> b.data@[q] == 0))
                    &&& !final(self).source_closed
                })
                &&& (outcome is Closed ==> r == Err::<AudioBuffer, ProduceError>(
                    ProduceError::SourceClosed,
                ) && final(self).source_closed)
                &&& (outcome is Starved ==> r == Err::<AudioBuffer, ProduceError>(
                    ProduceError::Starved,
                ) && !final(self).source_closed)
            },
    {
        if self.source_closed {
            return Err(ProduceError::SourceClosed);
        }
        if self.format.is_none() {
            return Err(ProduceError::NotNegotiated);
        }
        let initial_timestamp: u64 = match registry.initial_timestamp_of(
            self.settings.id_receiver,
        ) {
            Some(t) => t,
            None => {
                proof {
                    assert(false);
                }
                0
            },
        };
        let loss_threshold = self.settings.loss_threshold;
        let n = events.len();
        while *cursor < n
            invariant
                n == events@.len(),
                *cursor <= n,
                *old(cursor) <= *cursor,
                self.settings == old(self).settings,
                self.format == old(self).format,
                self.format is Some,
                !self.source_closed,
                !old(self).source_closed,
                old(self).format is Some,
                loss_threshold == old(self).settings.loss_threshold,
                initial_timestamp == registry.entries@[index_of_id(
                    registry.entries@,
                    old(self).settings.id_receiver,
                )].initial_timestamp,
                forall|j: int| *cursor <= j < events@.len() ==> event_valid(#[trigger] events@[j]),
                self.counters.running_sample_offset + total_samples(events@, *cursor as int)
                    <= u64::MAX,
                spec_run(
                    events@,
                    *old(cursor) as int,
                    loss_threshold,
                    initial_timestamp,
                    old(self).counters,
                ) == spec_run(
                    events@,
                    *cursor as int,
                    loss_threshold,
                    initial_timestamp,
                    self.counters,
                ),
            decreases n - *cursor,
        {
            let ghost cur0 = *cursor as int;
            let ghost c0 = self.counters;
            let e = events[*cursor];
            proof {
                lemma_total_samples_nonneg(events@, cur0 + 1);
            }
            let offset_before = self.counters.running_sample_offset;
            let step = process_event(&e, loss_threshold, initial_timestamp, &mut self.counters);
            *cursor = *cursor + 1;
            proof {
                assert(total_samples(events@, cur0) == sample_weight(events@[cur0])
                    + total_samples(events@, cur0 + 1));
                assert((step, self.counters) == spec_step(
                    events@[cur0],
                    loss_threshold,
                    initial_timestamp,
                    c0,
                ));
            }
            match step {
                CaptureStep::Discard => {},
                CaptureStep::EmitSilence => {
                    return Ok(
                        AudioBuffer {
                            data: Vec::new(),
                            pts: 0,
                            duration: 0,
                            offset: 0,
                            offset_end: 0,
                        },
                    );
                },
                CaptureStep::SourceClosed => {
                    self.source_closed = true;
                    return Err(ProduceError::SourceClosed);
                },
                CaptureStep::Accept {
                    pts,
                    duration,
                    sample_rate: _,
                    channel_count,
                    sample_count,
                } => {
                    assert(2 * (sample_count as int) * (channel_count as int) <= usize::MAX);
                    let bytes64: u64 = 2u64 * (sample_count as u64) * (channel_count as u64);
                    let len: usize = bytes64 as usize;
                    let data = zeroed_buffer(len);
                    return Ok(
                        AudioBuffer {
                            data,
                            pts,
                            duration,
                            offset: offset_before,
                            offset_end: self.counters.running_sample_offset,
                        },
                    );
                },
            }
        }
        Err(ProduceError::Starved)
    }
}

} // verus!
