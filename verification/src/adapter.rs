//! One audio source adapter instance: its settings, its negotiated output
//! format, and its lifecycle.
//!
//! The host owns the SDK connection calls; the adapter decides. `start`
//! records the receiver id the host obtained from the registry; `stop` hands
//! it back for release. Format negotiation scans polled frames for the first
//! audio frame and derives rate, channel count and latency from it.

use vstd::prelude::*;

use crate::frame::{duration_of, event_valid, first_audio, FrameEvent, NANOS_PER_SEC};
use crate::produce::TimestampCounters;
use crate::registry::{epoch_update, has_id, index_of_id, ReceiverEntry, ReceiverRegistry};

verus! {

/// Default loss threshold: consecutive missed polls tolerated before the
/// source counts as closed.
pub const DEFAULT_LOSS_THRESHOLD: u32 = 40000;

/// Largest settable loss threshold.
pub const MAX_LOSS_THRESHOLD: u32 = 200000;

/// Per-adapter configuration. A zero `id_receiver` means "not connected".
pub struct Settings {
    /// Name of the streaming device.
    pub stream_name: String,
    /// Address of the streaming device; empty means name-based discovery.
    pub ip: String,
    /// Consecutive missed polls tolerated before failing; `0` never fails.
    pub loss_threshold: u32,
    /// Registry id of the receiver this adapter is attached to.
    pub id_receiver: u64,
    /// Latency derived at negotiation, in nanoseconds.
    pub latency: Option<u64>,
}

impl Default for Settings {
    /// The configuration a fresh adapter starts with.
    fn default() -> (s: Settings)
        ensures
            s.stream_name@ == "Fixed ndi stream name"@,
            s.ip@ == ""@,
            s.loss_threshold == DEFAULT_LOSS_THRESHOLD,
            s.id_receiver == 0,
            s.latency is None,
    {
        Settings {
            stream_name: "Fixed ndi stream name".to_owned(),
            ip: "".to_owned(),
            loss_threshold: DEFAULT_LOSS_THRESHOLD,
            id_receiver: 0,
            latency: None,
        }
    }
}

/// The output format fixed at negotiation: interleaved 16-bit signed PCM at
/// this rate and channel count.
#[derive(Clone, Copy, Debug, PartialEq, Eq, Structural)]
pub struct AudioFormat {
    pub sample_rate: u32,
    pub channel_count: u32,
}

/// One pull-based audio source adapter.
pub struct NdiAudioSrc {
    /// The adapter's configuration.
    pub settings: Settings,
    /// The negotiated format; `None` means "not ready", and buffer
    /// production fails until it is set.
    pub format: Option<AudioFormat>,
    /// The running sample offset and the consecutive-miss count.
    pub counters: TimestampCounters,
    /// Latched once loss reaches the threshold; no buffer is produced after.
    pub source_closed: bool,
}

impl NdiAudioSrc {
    /// A fresh adapter with default settings, not negotiated, counters at
    /// zero.
    pub fn new() -> (s: NdiAudioSrc)
        ensures
            s.settings.stream_name@ == "Fixed ndi stream name"@,
            s.settings.ip@ == ""@,
            s.settings.loss_threshold == DEFAULT_LOSS_THRESHOLD,
            s.settings.id_receiver == 0,
            s.settings.latency is None,
            s.format is None,
            s.counters == TimestampCounters::zero(),
            !s.source_closed,
    {
        NdiAudioSrc {
            settings: Default::default(),
            format: None,
            counters: TimestampCounters::new(),
            source_closed: false,
        }
    }

    /// Set the stream name; takes effect on the next start.
    pub fn set_stream_name(&mut self, stream_name: String)
        ensures
            final(self).settings.stream_name == stream_name,
            final(self).settings.ip == old(self).settings.ip,
            final(self).settings.loss_threshold == old(self).settings.loss_threshold,
            final(self).settings.id_receiver == old(self).settings.id_receiver,
            final(self).settings.latency == old(self).settings.latency,
            final(self).format == old(self).format,
            final(self).counters == old(self).counters,
            final(self).source_closed == old(self).source_closed,
    {
        self.settings.stream_name = stream_name;
    }

    /// Set the device address; takes effect on the next start.
    pub fn set_ip(&mut self, ip: String)
        ensures
            final(self).settings.ip == ip,
            final(self).settings.stream_name == old(self).settings.stream_name,
            final(self).settings.loss_threshold == old(self).settings.loss_threshold,
            final(self).settings.id_receiver == old(self).settings.id_receiver,
            final(self).settings.latency == old(self).settings.latency,
            final(self).format == old(self).format,
            final(self).counters == old(self).counters,
            final(self).source_closed == old(self).source_closed,
    {
        self.settings.ip = ip;
    }

    /// Set the loss threshold; takes effect on the next start.
    pub fn set_loss_threshold(&mut self, loss_threshold: u32)
        requires
            loss_threshold <= MAX_LOSS_THRESHOLD,
        ensures
            final(self).settings.loss_threshold == loss_threshold,
            final(self).settings.stream_name == old(self).settings.stream_name,
            final(self).settings.ip == old(self).settings.ip,
            final(self).settings.id_receiver == old(self).settings.id_receiver,
            final(self).settings.latency == old(self).settings.latency,
            final(self).format == old(self).format,
            final(self).counters == old(self).counters,
            final(self).source_closed == old(self).source_closed,
    {
        self.settings.loss_threshold = loss_threshold;
    }

    /// The configured stream name.
    pub fn stream_name(&self) -> (r: String)
        ensures
            r@ == self.settings.stream_name@,
    {
        self.settings.stream_name.clone()
    }

    /// The configured device address.
    pub fn ip(&self) -> (r: String)
        ensures
            r@ == self.settings.ip@,
    {
        self.settings.ip.clone()
    }

    /// The configured loss threshold.
    pub fn loss_threshold(&self) -> (r: u32)
        ensures
            r == self.settings.loss_threshold,
    {
        self.settings.loss_threshold
    }

    /// The receiver id of the current connection; `0` when not connected.
    pub fn id_receiver(&self) -> (r: u64)
        ensures
            r == self.settings.id_receiver,
    {
        self.settings.id_receiver
    }

    /// Begin a fresh start with the receiver id the host obtained (`0` when
    /// the connection failed). Clears the negotiated format and the
    /// counters; succeeds exactly when the id names a receiver.
    pub fn start(&mut self, id_receiver: u64) -> (ok: bool)
        ensures
            ok == (id_receiver != 0),
            final(self).settings.id_receiver == id_receiver,
            final(self).settings.stream_name == old(self).settings.stream_name,
            final(self).settings.ip == old(self).settings.ip,
            final(self).settings.loss_threshold == old(self).settings.loss_threshold,
            final(self).settings.latency == old(self).settings.latency,
            final(self).format is None,
            final(self).counters == TimestampCounters::zero(),
            !final(self).source_closed,
    {
        self.format = None;
        self.counters = TimestampCounters::new();
        self.source_closed = false;
        self.settings.id_receiver = id_receiver;
        id_receiver != 0
    }

    /// Stop the adapter: clear the negotiated format, the counters and the
    /// connection, and hand back the receiver id for the host to release.
    /// Always succeeds and is idempotent.
    pub fn stop(&mut self) -> (id_receiver: u64)
        ensures
            id_receiver == old(self).settings.id_receiver,
            final(self).settings.id_receiver == 0,
            final(self).settings.stream_name == old(self).settings.stream_name,
            final(self).settings.ip == old(self).settings.ip,
            final(self).settings.loss_threshold == old(self).settings.loss_threshold,
            final(self).settings.latency == old(self).settings.latency,
            final(self).format is None,
            final(self).counters == TimestampCounters::zero(),
            !final(self).source_closed,
    {
        let id = self.settings.id_receiver;
        self.settings.id_receiver = 0;
        self.format = None;
        self.counters = TimestampCounters::new();
        self.source_closed = false;
        id
    }

    /// Fix the output format the host negotiated. Accepts exactly the
    /// formats with a dividing rate and at least one channel.
    pub fn set_caps(&mut self, sample_rate: u32, channel_count: u32) -> (ok: bool)
        ensures
            ok == (sample_rate > 0 && channel_count > 0),
            ok ==> final(self).format == Some(AudioFormat { sample_rate, channel_count }),
            !ok ==> final(self).format == old(self).format,
            final(self).settings == old(self).settings,
            final(self).counters == old(self).counters,
            final(self).source_closed == old(self).source_closed,
    {
        if sample_rate > 0 && channel_count > 0 {
            self.format = Some(AudioFormat { sample_rate, channel_count });
            true
        } else {
            false
        }
    }

    /// Answer a latency query: the derived latency, once the format is
    /// negotiated and the latency is known.
    pub fn latency_query(&self) -> (r: Option<u64>)
        ensures
            r == if self.format is Some {
                self.settings.latency
            } else {
                None::<u64>
            },
    {
        if self.format.is_some() {
            self.settings.latency
        } else {
            None
        }
    }

    /// Derive the output format from the live stream: discard polled frames
    /// until the first audio frame, then take its rate and channel count and
    /// set the latency to one frame's duration. Returns `None` when the
    /// polled frames ran out first.
    pub fn negotiate_format(&mut self, events: &Vec<FrameEvent>, cursor: &mut usize) -> (r: Option<
        AudioFormat,
    >)
        requires
            *old(cursor) <= events@.len(),
            forall|j: int|
                *old(cursor) <= j < events@.len() ==> event_valid(#[trigger] events@[j]),
        ensures
            first_audio(events@, *old(cursor) as int) matches Some(j) ==> {
                &&& events@[j] matches FrameEvent::Audio {
                    sample_rate,
                    channel_count,
                    sample_count,
                    ..
                }
                &&& r == Some(AudioFormat { sample_rate, channel_count })
                &&& *final(cursor) == j + 1
                &&& final(self).settings.latency == Some(
                    duration_of(sample_count, sample_rate) as u64,
                )
            },
            first_audio(events@, *old(cursor) as int) is None ==> {
                &&& r is None
                &&& *final(cursor) == events@.len()
                &&& final(self).settings.latency == old(self).settings.latency
            },
            final(self).settings.stream_name == old(self).settings.stream_name,
            final(self).settings.ip == old(self).settings.ip,
            final(self).settings.loss_threshold == old(self).settings.loss_threshold,
            final(self).settings.id_receiver == old(self).settings.id_receiver,
            final(self).format == old(self).format,
            final(self).counters == old(self).counters,
            final(self).source_closed == old(self).source_closed,
    {
        let n = events.len();
        while *cursor < n
            invariant
                *cursor <= n,
                n == events@.len(),
                *self == *old(self),
                first_audio(events@, *old(cursor) as int) == first_audio(events@, *cursor as int),
                forall|j: int| *cursor <= j < events@.len() ==> event_valid(#[trigger] events@[j]),
            decreases n - *cursor,
        {
            let e = events[*cursor];
            *cursor = *cursor + 1;
            match e {
                FrameEvent::Audio { timestamp: _, sample_rate, channel_count, sample_count } => {
                    let latency: u64 = (sample_count as u64) * NANOS_PER_SEC / (
                    sample_rate as u64);
                    self.settings.latency = Some(latency);
                    return Some(AudioFormat { sample_rate, channel_count });
                },
                _ => {},
            }
        }
        None
    }
}

/// Establish a receiver's epoch ahead of the hot path, as the transition to
/// playing does: discard polled frames until the first audio frame, then
/// fold its timestamp into the receiver's epoch. Returns `false` when the
/// polled frames ran out first.
pub fn establish_epoch(
    registry: &mut ReceiverRegistry,
    id_receiver: u64,
    events: &Vec<FrameEvent>,
    cursor: &mut usize,
) -> (r: bool)
    requires
        old(registry).wf(),
        has_id(old(registry).entries@, id_receiver),
        *old(cursor) <= events@.len(),
    ensures
        final(registry).wf(),
        final(registry).next_id == old(registry).next_id,
        first_audio(events@, *old(cursor) as int) matches Some(j) ==> {
            &&& events@[j] matches FrameEvent::Audio { timestamp, .. }
            &&& r == true
            &&& *final(cursor) == j + 1
            &&& ({
                let i = index_of_id(old(registry).entries@, id_receiver);
                final(registry).entries@ == old(registry).entries@.update(
                    i,
                    ReceiverEntry {
                        initial_timestamp: epoch_update(
                            old(registry).entries@[i].initial_timestamp,
                            timestamp,
                        ),
                        ..old(registry).entries@[i]
                    },
                )
            })
        },
        first_audio(events@, *old(cursor) as int) is None ==> {
            &&& r == false
            &&& *final(cursor) == events@.len()
            &&& final(registry).entries@ == old(registry).entries@
        },
{
    let n = events.len();
    while *cursor < n
        invariant
            *cursor <= n,
            n == events@.len(),
            *registry == *old(registry),
            registry.wf(),
            has_id(registry.entries@, id_receiver),
            first_audio(events@, *old(cursor) as int) == first_audio(events@, *cursor as int),
        decreases n - *cursor,
    {
        let e = events[*cursor];
        *cursor = *cursor + 1;
        match e {
            FrameEvent::Audio { timestamp, .. } => {
                let found = registry.observe_timestamp(id_receiver, timestamp);
                return found;
            },
            _ => {},
        }
    }
    false
}

} // verus!
