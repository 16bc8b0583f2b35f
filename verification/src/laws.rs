//! The library's stated laws: what holds of the acquisition state machine
//! and the receiver registry across calls, proved once and for all.

use vstd::prelude::*;

use crate::frame::{accepts, pts_of, FrameEvent};
use crate::produce::{spec_run, spec_step, CaptureStep, RunOutcome, TimestampCounters};
use crate::registry::{
    attach_transition, release_last_transition, release_shared_transition, ReceiverEntry,
};

verus! {

/// The cursor and counters after `m` buffer-producing calls from position
/// `i`, each consuming frames as `spec_run` says.
pub open spec fn after_calls(
    events: Seq<FrameEvent>,
    i: int,
    loss_threshold: u32,
    initial_timestamp: u64,
    c: TimestampCounters,
    m: nat,
) -> (int, TimestampCounters)
    decreases m,
{
    if m == 0 {
        (i, c)
    } else {
        let (outcome, j, c2) = spec_run(events, i, loss_threshold, initial_timestamp, c);
        after_calls(events, j, loss_threshold, initial_timestamp, c2, (m - 1) as nat)
    }
}

/// The outcome of call number `m` (counting from zero) in a run of
/// buffer-producing calls from position `i`.
pub open spec fn call_outcome(
    events: Seq<FrameEvent>,
    i: int,
    loss_threshold: u32,
    initial_timestamp: u64,
    c: TimestampCounters,
    m: nat,
) -> RunOutcome {
    let (j, c2) = after_calls(events, i, loss_threshold, initial_timestamp, c, m);
    spec_run(events, j, loss_threshold, initial_timestamp, c2).0
}

/// Presentation timestamps against a fixed receiver epoch are non-negative,
/// and frames in timestamp order map to presentation timestamps in order.
pub proof fn lemma_pts_nonnegative_monotonic(initial_timestamp: u64, t1: u64, t2: u64)
    requires
        accepts(initial_timestamp, t1),
        accepts(initial_timestamp, t2),
        t1 <= t2,
    ensures
        0 <= pts_of(t1, initial_timestamp),
        pts_of(t1, initial_timestamp) <= pts_of(t2, initial_timestamp),
{
}

/// Under a zero loss threshold, a missed or errored poll yields silence and
/// changes nothing: it is never fatal.
pub proof fn lemma_zero_threshold_tolerates_loss(
    e: FrameEvent,
    initial_timestamp: u64,
    c: TimestampCounters,
)
    requires
        e is NoFrame || e is ErrorFrame,
    ensures
        spec_step(e, 0, initial_timestamp, c) == (CaptureStep::EmitSilence, c),
{
}

/// A frame whose timestamp is not ahead of the established epoch is
/// discarded without affecting the running sample offset or the
/// consecutive-miss count.
pub proof fn lemma_pre_epoch_discard(
    e: FrameEvent,
    loss_threshold: u32,
    initial_timestamp: u64,
    c: TimestampCounters,
)
    requires
        e matches FrameEvent::Audio { timestamp, .. } && !accepts(initial_timestamp, timestamp),
    ensures
        spec_step(e, loss_threshold, initial_timestamp, c) == (CaptureStep::Discard, c),
{
}

/// Under a positive loss threshold, a run of `m` missed or errored polls
/// with `m` short of the threshold yields `m` silence outcomes, counts the
/// misses, and leaves the running sample offset alone.
pub proof fn lemma_loss_tolerated_below_threshold(
    events: Seq<FrameEvent>,
    i: int,
    loss_threshold: u32,
    initial_timestamp: u64,
    c: TimestampCounters,
    m: nat,
)
    requires
        loss_threshold > 0,
        c.consecutive_missing_count + m < loss_threshold,
        0 <= i,
        i + m <= events.len(),
        forall|j: int| i <= j < i + m ==> (events[j] is NoFrame || events[j] is ErrorFrame),
    ensures
        forall|q: nat|
            q < m ==> call_outcome(events, i, loss_threshold, initial_timestamp, c, q)
                is Silence,
        after_calls(events, i, loss_threshold, initial_timestamp, c, m) == (
            i + m,
            TimestampCounters {
                running_sample_offset: c.running_sample_offset,
                consecutive_missing_count: (c.consecutive_missing_count + m) as u32,
            },
        ),
    decreases m,
{
    if m == 0 {
        assert(after_calls(events, i, loss_threshold, initial_timestamp, c, 0) == (i, c));
        assert(c == TimestampCounters {
            running_sample_offset: c.running_sample_offset,
            consecutive_missing_count: (c.consecutive_missing_count + 0) as u32,
        });
    } else {
        let (o1, j1, c1) = spec_run(events, i, loss_threshold, initial_timestamp, c);
        assert(o1 is Silence && j1 == i + 1 && c1 == TimestampCounters {
            running_sample_offset: c.running_sample_offset,
            consecutive_missing_count: (c.consecutive_missing_count + 1) as u32,
        });
        lemma_loss_tolerated_below_threshold(
            events,
            i + 1,
            loss_threshold,
            initial_timestamp,
            c1,
            (m - 1) as nat,
        );
        assert forall|q: nat|
            q < m implies call_outcome(events, i, loss_threshold, initial_timestamp, c, q)
            is Silence by {
            if q == 0 {
                assert(after_calls(events, i, loss_threshold, initial_timestamp, c, 0) == (i, c));
                assert(call_outcome(events, i, loss_threshold, initial_timestamp, c, 0) == o1);
            } else {
                assert(after_calls(events, i, loss_threshold, initial_timestamp, c, q)
                    == after_calls(
                    events,
                    j1,
                    loss_threshold,
                    initial_timestamp,
                    c1,
                    (q - 1) as nat,
                ));
                assert(call_outcome(
                    events,
                    j1,
                    loss_threshold,
                    initial_timestamp,
                    c1,
                    (q - 1) as nat,
                ) is Silence);
                assert(call_outcome(events, i, loss_threshold, initial_timestamp, c, q)
                    == call_outcome(
                    events,
                    j1,
                    loss_threshold,
                    initial_timestamp,
                    c1,
                    (q - 1) as nat,
                ));
            }
        }
        assert(after_calls(events, i, loss_threshold, initial_timestamp, c, m) == after_calls(
            events,
            j1,
            loss_threshold,
            initial_timestamp,
            c1,
            (m - 1) as nat,
        ));
    }
}

/// An audio frame accepted against the epoch produces a real buffer and
/// resets the consecutive-miss count to zero.
pub proof fn lemma_accepted_audio_produces(
    events: Seq<FrameEvent>,
    i: int,
    loss_threshold: u32,
    initial_timestamp: u64,
    c: TimestampCounters,
)
    requires
        0 <= i < events.len(),
        events[i] matches FrameEvent::Audio { timestamp, .. } && accepts(
            initial_timestamp,
            timestamp,
        ),
    ensures
        spec_run(events, i, loss_threshold, initial_timestamp, c).0 is Produced,
        spec_run(events, i, loss_threshold, initial_timestamp, c).1 == i + 1,
        spec_run(
            events,
            i,
            loss_threshold,
            initial_timestamp,
            c,
        ).2.consecutive_missing_count == 0,
{
}

/// With loss threshold `N > 0`, a run of `N - 1` missed polls followed by
/// one accepted audio frame gives exactly `N - 1` silence outcomes; the next
/// call produces a real buffer and the consecutive-miss count is back at
/// zero.
pub proof fn lemma_loss_run_then_audio(
    events: Seq<FrameEvent>,
    i: int,
    loss_threshold: u32,
    initial_timestamp: u64,
    c: TimestampCounters,
)
    requires
        loss_threshold > 0,
        c.consecutive_missing_count == 0,
        0 <= i,
        i + loss_threshold <= events.len(),
        forall|j: int|
            i <= j < i + loss_threshold - 1 ==> (events[j] is NoFrame || events[j] is ErrorFrame),
        events[i + loss_threshold - 1] matches FrameEvent::Audio { timestamp, .. } && accepts(
            initial_timestamp,
            timestamp,
        ),
    ensures
        forall|q: nat|
            q < loss_threshold - 1 ==> call_outcome(
                events,
                i,
                loss_threshold,
                initial_timestamp,
                c,
                q,
            ) is Silence,
        call_outcome(
            events,
            i,
            loss_threshold,
            initial_timestamp,
            c,
            (loss_threshold - 1) as nat,
        ) is Produced,
        after_calls(
            events,
            i,
            loss_threshold,
            initial_timestamp,
            c,
            loss_threshold as nat,
        ).1.consecutive_missing_count == 0,
{
    let m = (loss_threshold - 1) as nat;
    lemma_loss_tolerated_below_threshold(events, i, loss_threshold, initial_timestamp, c, m);
    let (jm, cm) = after_calls(events, i, loss_threshold, initial_timestamp, c, m);
    lemma_accepted_audio_produces(events, jm, loss_threshold, initial_timestamp, cm);
    assert(after_calls(events, i, loss_threshold, initial_timestamp, c, (m + 1) as nat)
        == after_calls(
        events,
        spec_run(events, jm, loss_threshold, initial_timestamp, cm).1,
        loss_threshold,
        initial_timestamp,
        spec_run(events, jm, loss_threshold, initial_timestamp, cm).2,
        0,
    )) by {
        reveal_with_fuel(after_calls, 2);
        lemma_after_calls_snoc(events, i, loss_threshold, initial_timestamp, c, m);
    }
}

/// Unrolling one call off the end of `after_calls`.
proof fn lemma_after_calls_snoc(
    events: Seq<FrameEvent>,
    i: int,
    loss_threshold: u32,
    initial_timestamp: u64,
    c: TimestampCounters,
    m: nat,
)
    ensures
        ({
            let (jm, cm) = after_calls(events, i, loss_threshold, initial_timestamp, c, m);
            let (o, j2, c2) = spec_run(events, jm, loss_threshold, initial_timestamp, cm);
            after_calls(events, i, loss_threshold, initial_timestamp, c, (m + 1) as nat) == (
                j2,
                c2,
            )
        }),
    decreases m,
{
    let (o1, j1, c1) = spec_run(events, i, loss_threshold, initial_timestamp, c);
    if m == 0 {
        assert(after_calls(events, i, loss_threshold, initial_timestamp, c, 0) == (i, c));
        assert(after_calls(events, i, loss_threshold, initial_timestamp, c, 1) == after_calls(
            events,
            j1,
            loss_threshold,
            initial_timestamp,
            c1,
            0,
        ));
        assert(after_calls(events, j1, loss_threshold, initial_timestamp, c1, 0) == (j1, c1));
    } else {
        lemma_after_calls_snoc(events, j1, loss_threshold, initial_timestamp, c1, (m - 1) as nat);
        assert(after_calls(events, i, loss_threshold, initial_timestamp, c, m) == after_calls(
            events,
            j1,
            loss_threshold,
            initial_timestamp,
            c1,
            (m - 1) as nat,
        ));
        assert(after_calls(events, i, loss_threshold, initial_timestamp, c, (m + 1) as nat)
            == after_calls(events, j1, loss_threshold, initial_timestamp, c1, m));
    }
}

/// With loss threshold `N > 0`, a run of `N` missed or errored polls gives
/// `N - 1` silence outcomes and then a fatal "source closed" outcome on the
/// `N`th call.
pub proof fn lemma_loss_run_hits_threshold(
    events: Seq<FrameEvent>,
    i: int,
    loss_threshold: u32,
    initial_timestamp: u64,
    c: TimestampCounters,
)
    requires
        loss_threshold > 0,
        c.consecutive_missing_count == 0,
        0 <= i,
        i + loss_threshold <= events.len(),
        forall|j: int|
            i <= j < i + loss_threshold ==> (events[j] is NoFrame || events[j] is ErrorFrame),
    ensures
        forall|q: nat|
            q < loss_threshold - 1 ==> call_outcome(
                events,
                i,
                loss_threshold,
                initial_timestamp,
                c,
                q,
            ) is Silence,
        call_outcome(
            events,
            i,
            loss_threshold,
            initial_timestamp,
            c,
            (loss_threshold - 1) as nat,
        ) is Closed,
{
    let m = (loss_threshold - 1) as nat;
    lemma_loss_tolerated_below_threshold(events, i, loss_threshold, initial_timestamp, c, m);
}

/// A call that does not produce a buffer leaves the running sample offset
/// alone.
pub proof fn lemma_offset_preserved_without_production(
    events: Seq<FrameEvent>,
    i: int,
    loss_threshold: u32,
    initial_timestamp: u64,
    c: TimestampCounters,
)
    ensures
        !(spec_run(events, i, loss_threshold, initial_timestamp, c).0 is Produced) ==> spec_run(
            events,
            i,
            loss_threshold,
            initial_timestamp,
            c,
        ).2.running_sample_offset == c.running_sample_offset,
    decreases events.len() - i,
{
    if 0 <= i < events.len() {
        let (step, c2) = spec_step(events[i], loss_threshold, initial_timestamp, c);
        if step is Discard {
            lemma_offset_preserved_without_production(
                events,
                i + 1,
                loss_threshold,
                initial_timestamp,
                c2,
            );
        }
    }
}

/// A produced buffer's offset is the running sample offset before the call,
/// and its offset_end is the running sample offset after it.
pub proof fn lemma_produced_offsets(
    events: Seq<FrameEvent>,
    i: int,
    loss_threshold: u32,
    initial_timestamp: u64,
    c: TimestampCounters,
)
    ensures
        spec_run(events, i, loss_threshold, initial_timestamp, c).0 matches RunOutcome::Produced {
            offset,
            offset_end,
            ..
        } ==> offset == c.running_sample_offset && offset_end == spec_run(
            events,
            i,
            loss_threshold,
            initial_timestamp,
            c,
        ).2.running_sample_offset,
    decreases events.len() - i,
{
    if 0 <= i < events.len() {
        let (step, c2) = spec_step(events[i], loss_threshold, initial_timestamp, c);
        if step is Discard {
            lemma_produced_offsets(events, i + 1, loss_threshold, initial_timestamp, c2);
        }
    }
}

/// Silence calls leave the running sample offset where it was.
proof fn lemma_silence_calls_preserve_offset(
    events: Seq<FrameEvent>,
    i: int,
    loss_threshold: u32,
    initial_timestamp: u64,
    c: TimestampCounters,
    m: nat,
)
    requires
        forall|q: nat|
            q < m ==> call_outcome(events, i, loss_threshold, initial_timestamp, c, q)
                is Silence,
    ensures
        after_calls(
            events,
            i,
            loss_threshold,
            initial_timestamp,
            c,
            m,
        ).1.running_sample_offset == c.running_sample_offset,
    decreases m,
{
    if m > 0 {
        let (o1, j1, c1) = spec_run(events, i, loss_threshold, initial_timestamp, c);
        assert(o1 == call_outcome(events, i, loss_threshold, initial_timestamp, c, 0)) by {
            assert(after_calls(events, i, loss_threshold, initial_timestamp, c, 0) == (i, c));
        }
        lemma_offset_preserved_without_production(
            events,
            i,
            loss_threshold,
            initial_timestamp,
            c,
        );
        assert forall|q: nat|
            q < m - 1 implies call_outcome(events, j1, loss_threshold, initial_timestamp, c1, q)
            is Silence by {
            assert(after_calls(events, i, loss_threshold, initial_timestamp, c, (q + 1) as nat)
                == after_calls(events, j1, loss_threshold, initial_timestamp, c1, q));
            assert(call_outcome(events, i, loss_threshold, initial_timestamp, c, (q + 1) as nat)
                is Silence);
        }
        lemma_silence_calls_preserve_offset(
            events,
            j1,
            loss_threshold,
            initial_timestamp,
            c1,
            (m - 1) as nat,
        );
    }
}

/// For two buffers produced in order — any number of silence calls between
/// them — the first buffer's offset_end equals the second buffer's offset:
/// the sample offsets of produced buffers chain without gaps.
pub proof fn lemma_offset_chain(
    events: Seq<FrameEvent>,
    i: int,
    loss_threshold: u32,
    initial_timestamp: u64,
    c: TimestampCounters,
    m: nat,
)
    requires
        spec_run(events, i, loss_threshold, initial_timestamp, c).0 is Produced,
        forall|q: nat|
            q < m ==> call_outcome(
                events,
                spec_run(events, i, loss_threshold, initial_timestamp, c).1,
                loss_threshold,
                initial_timestamp,
                spec_run(events, i, loss_threshold, initial_timestamp, c).2,
                q,
            ) is Silence,
        call_outcome(
            events,
            spec_run(events, i, loss_threshold, initial_timestamp, c).1,
            loss_threshold,
            initial_timestamp,
            spec_run(events, i, loss_threshold, initial_timestamp, c).2,
            m,
        ) is Produced,
    ensures
        ({
            let (o1, j1, c1) = spec_run(events, i, loss_threshold, initial_timestamp, c);
            let (jm, cm) = after_calls(events, j1, loss_threshold, initial_timestamp, c1, m);
            let o2 = spec_run(events, jm, loss_threshold, initial_timestamp, cm).0;
            o1->Produced_offset_end == o2->Produced_offset
        }),
{
    let (o1, j1, c1) = spec_run(events, i, loss_threshold, initial_timestamp, c);
    lemma_produced_offsets(events, i, loss_threshold, initial_timestamp, c);
    lemma_silence_calls_preserve_offset(events, j1, loss_threshold, initial_timestamp, c1, m);
    let (jm, cm) = after_calls(events, j1, loss_threshold, initial_timestamp, c1, m);
    lemma_produced_offsets(events, jm, loss_threshold, initial_timestamp, cm);
}

/// Two adapters sharing one stream identity share one registry entry: the
/// second attach adds no entry and raises the holder count to two; one
/// release brings it back to one with the connection handle still there;
/// only the release of the last holder removes the entry.
pub proof fn lemma_shared_receiver_lifecycle(s: Seq<ReceiverEntry>, i: int)
    requires
        0 <= i < s.len(),
        s[i].reference_count == 1,
    ensures
        attach_transition(s, i).len() == s.len(),
        attach_transition(s, i)[i].id == s[i].id,
        attach_transition(s, i)[i].handle == s[i].handle,
        attach_transition(s, i)[i].reference_count == 2,
        release_shared_transition(attach_transition(s, i), i).len() == s.len(),
        release_shared_transition(attach_transition(s, i), i)[i].handle == s[i].handle,
        release_shared_transition(attach_transition(s, i), i)[i].reference_count == 1,
        release_last_transition(release_shared_transition(attach_transition(s, i), i), i).len()
            == s.len() - 1,
{
}

} // verus!
