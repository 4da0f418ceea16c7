//! Session-wide laws.
//!
//! Each proof function here states a guarantee that spans several of the
//! session's operations, over the same abstract states and transitions that
//! the operations' own contracts use.

use vstd::prelude::*;

use crate::session::clear_queue_step;
use crate::session::cleared;
use crate::session::drained_step;
use crate::session::position_of;
use crate::session::queue_result_of;
use crate::session::queue_step;
use crate::session::queued_of;
use crate::session::rate_matches;
use crate::session::watched_of;
use crate::session::wf;
use crate::session::QueryTrackResult;
use crate::session::SessionView;

verus! {

/// The state after a whole run of sources, all at one sample rate, was queued
/// in order.
pub open spec fn queue_all(v: SessionView, sample_rate: u32, durs: Seq<u64>) -> SessionView
    decreases durs.len(),
{
    if durs.len() == 0 {
        v
    } else {
        queue_all(queue_step(v, sample_rate, durs[0]), sample_rate, durs.subrange(1, durs.len() as int))
    }
}

/// Queuing any run of sources at a constant sample rate, on a session whose
/// stream accepts that rate (or that has no stream yet), is accepted at every
/// step: after any such run the rate still matches, so the next query is
/// answered `Queued` as well, the sources stand in the queue in the order of
/// the calls, and the played counter is untouched.
pub proof fn lemma_queue_sequence(v: SessionView, sample_rate: u32, durs: Seq<u64>)
    requires
        rate_matches(v, sample_rate),
    ensures
        rate_matches(queue_all(v, sample_rate, durs), sample_rate),
        queue_result_of(queue_all(v, sample_rate, durs), sample_rate) == QueryTrackResult::Queued,
        queued_of(queue_all(v, sample_rate, durs)) == queued_of(v) + durs,
        queue_all(v, sample_rate, durs).played_ms == v.played_ms,
    decreases durs.len(),
{
    if durs.len() == 0 {
        assert(queued_of(v) + durs =~= queued_of(v));
    } else {
        let next = queue_step(v, sample_rate, durs[0]);
        let rest = durs.subrange(1, durs.len() as int);
        lemma_queue_sequence(next, sample_rate, rest);
        assert(queued_of(v).push(durs[0]) + rest =~= queued_of(v) + durs);
    }
}

/// A position is never negative: whatever the state and the live reading,
/// the offset correction clamps at zero instead of underflowing.
pub proof fn lemma_position_nonnegative(v: SessionView, live_ms: u64)
    ensures
        position_of(v, live_ms) >= 0,
{
}

/// Right after the watched track's completion, the position reflects only
/// the time elapsed into the next track: once the live reading has passed
/// the finished track's end, the position is the reading less everything
/// played before — not the cumulative time since the session started.
pub proof fn lemma_position_after_completion(v: SessionView, live_ms: u64)
    requires
        v.stream is Some,
        v.watched_ms is Some,
        v.played_ms + watched_of(v) <= u64::MAX,
        live_ms >= v.played_ms + watched_of(v),
    ensures
        position_of(drained_step(v), live_ms) == live_ms - (v.played_ms + watched_of(v)),
{
}

/// After a full clear the session is empty and every position query answers
/// zero, whatever live reading a caller might still feed it.
pub proof fn lemma_clear_resets(live_ms: u64)
    ensures
        cleared().stream is None,
        position_of(cleared(), live_ms) == 0,
{
}

/// Clearing only the queue keeps the stream: the session stays non-empty
/// exactly when it was, the played counter resets, and the position becomes
/// the live reading itself — which restarts near zero once the caller's
/// device layer has drained the sink.
pub proof fn lemma_clear_queue_keeps_stream(v: SessionView, live_ms: u64)
    ensures
        (clear_queue_step(v).stream is Some) == (v.stream is Some),
        clear_queue_step(v).played_ms == 0,
        v.stream is Some ==> position_of(clear_queue_step(v), live_ms) == live_ms,
{
}

/// The played counter never decreases except by an explicit reset: a
/// completion can only grow it, queuing leaves it alone, and only the two
/// clears set it back to zero.
pub proof fn lemma_played_counter(v: SessionView, sample_rate: u32, duration_ms: u64)
    ensures
        drained_step(v).played_ms >= v.played_ms,
        queue_step(v, sample_rate, duration_ms).played_ms == v.played_ms,
        cleared().played_ms == 0,
        clear_queue_step(v).played_ms == 0,
{
}

/// Every transition keeps a session well formed: streams keep a positive
/// sample rate and a completion is only ever watched while a stream is
/// active.
pub proof fn lemma_wf_preserved(v: SessionView, sample_rate: u32, duration_ms: u64)
    requires
        wf(v),
        sample_rate > 0,
    ensures
        wf(queue_step(v, sample_rate, duration_ms)),
        wf(drained_step(v)),
        wf(cleared()),
        wf(clear_queue_step(v)),
{
}

} // verus!
