//! The playback-session state machine.
//!
//! A [`Sink`] owns the state of one playback session: whether an output
//! stream is active and at which sample rate, which sources have been queued
//! on it, the cumulative duration of tracks that already finished, and the
//! channel on which completions are broadcast. The caller's device layer
//! performs the outside work — decoding a file, opening a stream, feeding the
//! hardware, polling a source's drained signal — and drives this state
//! machine with the plain values that work produces: a source's sample rate
//! and total duration, the live stream position, a drained signal firing.
//! Every decision the session makes is verified here for all such values.
//!
//! Durations are in milliseconds throughout.

use vstd::prelude::*;

use crate::chan;
use tokio::sync::watch::Receiver;

verus! {

/// Outcome of [`Sink::query_track`].
#[derive(Clone, Copy, PartialEq, Eq, Debug)]
pub enum QueryTrackResult {
    /// The source was accepted and appended to the play queue.
    Queued,
    /// The source's sample rate differs from the active stream's; nothing was
    /// queued. Continuing requires an explicit `clear` and a new attempt, so
    /// that dropping the audio still playing is always the caller's decision.
    RecreateStreamRequired,
}

/// The errors a playback session can signal.
#[derive(Clone, Copy, PartialEq, Eq, Debug)]
pub enum TrackError {
    /// The file could not be read or holds no recognizable audio stream.
    DecodeError,
    /// No output device accepted the requested stream configuration.
    NoDeviceAvailable,
    /// The device or format rejected a seek.
    SeekFailed,
}

/// The abstract state of an active output stream.
#[verifier::ext_equal]
pub struct StreamView {
    /// The sample rate the stream was opened at.
    pub sample_rate: u32,
    /// Total durations of the sources appended since the stream was opened or
    /// last drained, in the order they were queued.
    pub queued_ms: Seq<u64>,
}

/// The abstract state of a playback session.
#[verifier::ext_equal]
pub struct SessionView {
    /// The active stream and sink pair, absent until a track is queued and
    /// after a full clear. Stream and sink exist only together, so one field
    /// stands for the pair.
    pub stream: Option<StreamView>,
    /// Cumulative duration of tracks that finished since the last reset.
    pub played_ms: u64,
    /// Total duration of the track whose completion is currently watched,
    /// if any: at most one completion is watched at a time.
    pub watched_ms: Option<u64>,
}

/// The state of an empty session.
pub open spec fn cleared() -> SessionView {
    SessionView { stream: None, played_ms: 0, watched_ms: None }
}

/// Whether a source at `sample_rate` can go to the session's current stream:
/// it can when no stream is active (a new one is opened at the source's rate)
/// or when the active stream was opened at the same rate.
pub open spec fn rate_matches(v: SessionView, sample_rate: u32) -> bool {
    match v.stream {
        None => true,
        Some(s) => s.sample_rate == sample_rate,
    }
}

/// What `query_track` answers for a source at `sample_rate`.
pub open spec fn queue_result_of(v: SessionView, sample_rate: u32) -> QueryTrackResult {
    if rate_matches(v, sample_rate) {
        QueryTrackResult::Queued
    } else {
        QueryTrackResult::RecreateStreamRequired
    }
}

/// The durations queued on the active stream, oldest first.
pub open spec fn queued_of(v: SessionView) -> Seq<u64> {
    match v.stream {
        None => Seq::<u64>::empty(),
        Some(s) => s.queued_ms,
    }
}

/// The duration of the track whose completion is watched, zero if none is.
pub open spec fn watched_of(v: SessionView) -> u64 {
    match v.watched_ms {
        None => 0u64,
        Some(d) => d,
    }
}

/// The state after a source of `duration_ms` was queued at `sample_rate`:
/// the stream is active at that rate, the source stands at the end of the
/// queue, and its completion supersedes any previously watched one. The
/// played counter is untouched.
pub open spec fn queue_step(v: SessionView, sample_rate: u32, duration_ms: u64) -> SessionView {
    SessionView {
        stream: Some(StreamView { sample_rate, queued_ms: queued_of(v).push(duration_ms) }),
        played_ms: v.played_ms,
        watched_ms: Some(duration_ms),
    }
}

/// Addition on the played counter, held at the largest representable value.
pub open spec fn saturating_add(a: u64, b: u64) -> u64 {
    if a + b <= u64::MAX {
        (a + b) as u64
    } else {
        u64::MAX
    }
}

/// The state after the watched track's drained signal fired: its duration
/// moves into the played counter, the watch ends, and the queue is empty —
/// the watched track was the last queued, so everything before it has played
/// out as well. Without a watched track the signal is stale and changes
/// nothing.
pub open spec fn drained_step(v: SessionView) -> SessionView {
    match v.watched_ms {
        None => v,
        Some(d) => SessionView {
            stream: match v.stream {
                None => None,
                Some(s) => Some(StreamView { sample_rate: s.sample_rate, queued_ms: Seq::<u64>::empty() }),
            },
            played_ms: saturating_add(v.played_ms, d),
            watched_ms: None,
        },
    }
}

/// The state after the pending queue was drained by hand: the played counter
/// resets and the queue empties, but the stream stays open at its rate for
/// reuse, and the completion watch is left as it was.
pub open spec fn clear_queue_step(v: SessionView) -> SessionView {
    SessionView {
        stream: match v.stream {
            None => None,
            Some(s) => Some(StreamView { sample_rate: s.sample_rate, queued_ms: Seq::<u64>::empty() }),
        },
        played_ms: 0,
        watched_ms: v.watched_ms,
    }
}

/// The position within the currently playing track for a live stream-position
/// reading: the reading less the completed-track offset, clamped to zero when
/// the reading is transiently behind the offset (right at a track boundary),
/// and zero when no stream is active.
pub open spec fn position_of(v: SessionView, live_ms: u64) -> u64 {
    if v.stream is None {
        0u64
    } else if live_ms >= v.played_ms {
        (live_ms - v.played_ms) as u64
    } else {
        0u64
    }
}

/// Well-formedness of a session state: a stream is never at sample rate zero,
/// and a completion is only watched while a stream is active.
pub open spec fn wf(v: SessionView) -> bool {
    &&& match v.stream {
        None => true,
        Some(s) => s.sample_rate > 0,
    }
    &&& (v.watched_ms is Some ==> v.stream is Some)
}

/// An active output stream: its configuration and what was queued on it.
struct StreamState {
    sample_rate: u32,
    queued_ms: Vec<u64>,
}

impl View for StreamState {
    type V = StreamView;

    closed spec fn view(&self) -> StreamView {
        StreamView { sample_rate: self.sample_rate, queued_ms: self.queued_ms@ }
    }
}

/// A playback session.
///
/// The session's methods are total over its state and do not panic; the ones
/// that stand for outside work return the decision for the caller's device
/// layer to carry out.
pub struct Sink {
    stream: Option<StreamState>,
    duration_played_ms: u64,
    watched_ms: Option<u64>,
    finished_tx: tokio::sync::watch::Sender<()>,
}

impl View for Sink {
    type V = SessionView;

    closed spec fn view(&self) -> SessionView {
        SessionView {
            stream: match self.stream {
                None => None,
                Some(s) => Some(s@),
            },
            played_ms: self.duration_played_ms,
            watched_ms: self.watched_ms,
        }
    }
}

impl Sink {
    /// Returns an empty session: no stream, a zero played counter, no watched
    /// completion. The completion channel is live from here on and survives
    /// every clear.
    pub fn new() -> (s: Sink)
        ensures
            s@ == cleared(),
    {
        let s = Sink {
            stream: None,
            duration_played_ms: 0,
            watched_ms: None,
            finished_tx: chan::new_event_channel(),
        };
        proof {
            assert(s@ =~= cleared());
        }
        s
    }

    /// True exactly when no stream and sink are active.
    pub fn is_empty(&self) -> (r: bool)
        ensures
            r == (self@.stream is None),
    {
        self.stream.is_none()
    }

    /// Returns a new observer on the completion channel. Each observer is
    /// notified of every completion broadcast after this call; events are not
    /// replayed retroactively.
    pub fn track_finished(&self) -> Receiver<()> {
        chan::subscribe(&self.finished_tx)
    }

    /// The elapsed time within the currently playing track, given the live
    /// stream-position reading the caller's device layer reports. Never
    /// negative, and zero whenever no stream is active.
    pub fn position(&self, live_ms: u64) -> (p: u64)
        ensures
            p == position_of(self@, live_ms),
    {
        match &self.stream {
            None => 0,
            Some(_) => {
                if live_ms >= self.duration_played_ms {
                    live_ms - self.duration_played_ms
                } else {
                    0
                }
            },
        }
    }

    /// Whether a play command must be forwarded to the device sink: true
    /// exactly when a stream is active, so that playing an empty session is a
    /// no-op.
    pub fn play(&self) -> (delegate: bool)
        ensures
            delegate == (self@.stream is Some),
    {
        self.stream.is_some()
    }

    /// Whether a pause command must be forwarded to the device sink: true
    /// exactly when a stream is active, so that pausing an empty session is a
    /// no-op.
    pub fn pause(&self) -> (delegate: bool)
        ensures
            delegate == (self@.stream is Some),
    {
        self.stream.is_some()
    }

    /// Where the device sink must seek: the target itself when a stream is
    /// active, nothing otherwise (a seek on an empty session is a no-op).
    pub fn seek(&self, target_ms: u64) -> (r: Option<u64>)
        ensures
            self@.stream is Some ==> r == Some(target_ms),
            self@.stream is None ==> r is None,
    {
        if self.stream.is_some() {
            Some(target_ms)
        } else {
            None
        }
    }

    /// Turns the device's answer to a seek into the session's result: a
    /// rejected seek signals `SeekFailed`, an accepted one succeeds.
    pub fn seek_outcome(accepted: bool) -> (r: Result<(), TrackError>)
        ensures
            accepted ==> r is Ok,
            !accepted ==> r == Result::<(), TrackError>::Err(TrackError::SeekFailed),
    {
        if accepted {
            Ok(())
        } else {
            Err(TrackError::SeekFailed)
        }
    }

    /// Full teardown back to the empty state: stream, queue and watched
    /// completion are dropped and the played counter resets. Safe when
    /// already empty. The completion channel stays live.
    pub fn clear(&mut self)
        ensures
            final(self)@ == cleared(),
    {
        self.stream = None;
        self.duration_played_ms = 0;
        self.watched_ms = None;
        proof {
            assert(final(self)@ =~= cleared());
        }
    }

    /// Resets the played counter and empties the pending queue while keeping
    /// the stream open for reuse. Returns whether a stream was active, which
    /// is when the caller's device layer must drain the sink's own queue.
    /// Safe when empty.
    pub fn clear_queue(&mut self) -> (had_stream: bool)
        ensures
            final(self)@ == clear_queue_step(old(self)@),
            had_stream == (old(self)@.stream is Some),
    {
        self.duration_played_ms = 0;
        let had_stream: bool = match &mut self.stream {
            None => false,
            Some(s) => {
                s.queued_ms = Vec::new();
                true
            },
        };
        proof {
            assert(final(self)@ =~= clear_queue_step(old(self)@));
        }
        had_stream
    }

    /// Decides whether a decoded source joins the session and records it when
    /// it does. The caller's device layer supplies the source's native sample
    /// rate (positive by the decoder's contract) and its total duration —
    /// zero when the decoder cannot determine it up front, which is valid.
    ///
    /// When a stream is active at a different rate, the answer is
    /// `RecreateStreamRequired` and the session is left completely unchanged.
    /// Otherwise the source is queued: a session without a stream records one
    /// opened at the source's rate, the source's duration goes to the end of
    /// the queue, and its completion supersedes any previously watched one.
    pub fn query_track(&mut self, sample_rate: u32, duration_ms: u64) -> (r: QueryTrackResult)
        requires
            sample_rate > 0,
        ensures
            r == queue_result_of(old(self)@, sample_rate),
            rate_matches(old(self)@, sample_rate) ==> final(self)@ == queue_step(
                old(self)@,
                sample_rate,
                duration_ms,
            ),
            !rate_matches(old(self)@, sample_rate) ==> *final(self) == *old(self),
    {
        let same_sample_rate: bool = match &self.stream {
            None => true,
            Some(s) => s.sample_rate == sample_rate,
        };
        if !same_sample_rate {
            return QueryTrackResult::RecreateStreamRequired;
        }
        match &mut self.stream {
            None => {
                let mut queued_ms: Vec<u64> = Vec::new();
                queued_ms.push(duration_ms);
                self.stream = Some(StreamState { sample_rate, queued_ms });
            },
            Some(s) => {
                s.queued_ms.push(duration_ms);
            },
        }
        self.watched_ms = Some(duration_ms);
        proof {
            assert(final(self)@ =~= queue_step(old(self)@, sample_rate, duration_ms));
        }
        QueryTrackResult::Queued
    }

    /// The completion watcher's decision on seeing the watched source's
    /// drained signal: the track's duration moves into the played counter
    /// (held at the largest representable value on overflow), the watch ends,
    /// and a completion event is broadcast. Returns the finished track's
    /// duration, or nothing when no completion was watched — a stale signal
    /// changes nothing and is not broadcast.
    pub fn track_drained(&mut self) -> (finished: Option<u64>)
        ensures
            final(self)@ == drained_step(old(self)@),
            finished == old(self)@.watched_ms,
    {
        match self.watched_ms {
            None => None,
            Some(d) => {
                self.watched_ms = None;
                match &mut self.stream {
                    None => {},
                    Some(s) => {
                        s.queued_ms = Vec::new();
                    },
                }
                self.duration_played_ms = if self.duration_played_ms <= u64::MAX - d {
                    self.duration_played_ms + d
                } else {
                    u64::MAX
                };
                let _delivered = chan::send_event(&self.finished_tx);
                proof {
                    assert(final(self)@ =~= drained_step(old(self)@));
                }
                Some(d)
            },
        }
    }

    /// The amplitude, in billionths, that the caller's device layer must
    /// apply to the active sink to hold it at full volume by the volume
    /// curve; nothing when no sink is active.
    pub fn sync_volume(&self) -> (amp: Option<u64>)
        ensures
            self@.stream is Some ==> amp == Some(
                crate::volume::spec_amplitude(crate::volume::FULL_VOLUME_PERMILLE) as u64,
            ),
            self@.stream is None ==> amp is None,
    {
        if self.stream.is_some() {
            Some(crate::volume::applied_amplitude(crate::volume::FULL_VOLUME_PERMILLE))
        } else {
            None
        }
    }

    /// The durations queued on the active stream, oldest first; empty when no
    /// stream is active.
    pub fn queued_durations(&self) -> (v: Vec<u64>)
        ensures
            v@ == queued_of(self@),
    {
        match &self.stream {
            None => Vec::new(),
            Some(s) => {
                let mut v: Vec<u64> = Vec::new();
                let mut i: usize = 0;
                while i < s.queued_ms.len()
                    invariant
                        i <= s.queued_ms.len(),
                        v@ == s.queued_ms@.take(i as int),
                    decreases s.queued_ms.len() - i,
                {
                    v.push(s.queued_ms[i]);
                    proof {
                        assert(v@ =~= s.queued_ms@.take(i as int + 1));
                    }
                    i = i + 1;
                }
                proof {
                    assert(s.queued_ms@.take(s.queued_ms@.len() as int) =~= s.queued_ms@);
                }
                v
            },
        }
    }

    /// The sample rate of the active stream, nothing when none is active.
    pub fn stream_sample_rate(&self) -> (r: Option<u32>)
        ensures
            match self@.stream {
                None => r is None,
                Some(s) => r == Some(s.sample_rate),
            },
    {
        match &self.stream {
            None => None,
            Some(s) => Some(s.sample_rate),
        }
    }
}

impl Default for Sink {
    /// An empty session, as [`Sink::new`] returns it.
    fn default() -> (s: Sink)
        ensures
            s@ == cleared(),
    {
        Sink::new()
    }
}

} // verus!
