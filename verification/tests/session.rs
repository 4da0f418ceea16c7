use playback::session::QueryTrackResult;
use playback::session::Sink;
use playback::session::TrackError;

#[test]
fn empty_session_transport_is_noop() {
    let s = Sink::new();
    assert!(s.is_empty());
    assert!(!s.play());
    assert!(!s.pause());
    assert_eq!(s.position(0), 0);
    assert_eq!(s.position(12_345), 0);
    assert_eq!(s.seek(1_000), None);
    assert_eq!(s.stream_sample_rate(), None);
    assert_eq!(s.queued_durations(), Vec::<u64>::new());
}

#[test]
fn default_is_empty() {
    let s = Sink::default();
    assert!(s.is_empty());
    assert_eq!(s.position(500), 0);
}

#[test]
fn queue_track_same_rate_in_order() {
    let mut s = Sink::new();
    assert_eq!(s.query_track(44_100, 10_000), QueryTrackResult::Queued);
    assert!(!s.is_empty());
    assert_eq!(s.stream_sample_rate(), Some(44_100));
    assert_eq!(s.query_track(44_100, 5_000), QueryTrackResult::Queued);
    assert_eq!(s.query_track(44_100, 0), QueryTrackResult::Queued);
    assert_eq!(s.queued_durations(), vec![10_000, 5_000, 0]);
    assert!(s.play());
    assert!(s.pause());
}

#[test]
fn queue_track_rate_mismatch_leaves_state_unchanged() {
    let mut s = Sink::new();
    assert_eq!(s.query_track(44_100, 10_000), QueryTrackResult::Queued);
    let position_before = s.position(7_000);
    let queued_before = s.queued_durations();
    assert_eq!(s.query_track(48_000, 3_000), QueryTrackResult::RecreateStreamRequired);
    assert!(!s.is_empty());
    assert_eq!(s.stream_sample_rate(), Some(44_100));
    assert_eq!(s.position(7_000), position_before);
    assert_eq!(s.queued_durations(), queued_before);
}

#[test]
fn completion_advances_offset_and_broadcasts_once() {
    let mut s = Sink::new();
    let mut rx = s.track_finished();
    assert_eq!(s.query_track(44_100, 10_000), QueryTrackResult::Queued);
    assert!(!s.is_empty());
    assert_eq!(rx.has_changed().unwrap(), false);

    // The watched source's drained signal fires: 10s move into the played
    // counter and one completion event is broadcast.
    assert_eq!(s.track_drained(), Some(10_000));
    assert_eq!(rx.has_changed().unwrap(), true);
    rx.borrow_and_update();
    assert_eq!(rx.has_changed().unwrap(), false);

    // The live stream position keeps running across the boundary; the
    // position reported is the elapsed time within the next track only.
    assert_eq!(s.position(10_000), 0);
    assert_eq!(s.position(12_500), 2_500);

    // Queue a second track; its playback is not offset by the first one.
    assert_eq!(s.query_track(44_100, 5_000), QueryTrackResult::Queued);
    assert_eq!(s.position(12_000), 2_000);
}

#[test]
fn completion_reaches_every_subscriber() {
    let mut s = Sink::new();
    let rx_early = s.track_finished();
    assert_eq!(s.query_track(8_000, 1_000), QueryTrackResult::Queued);
    let rx_late = s.track_finished();
    assert_eq!(s.track_drained(), Some(1_000));
    assert_eq!(rx_early.has_changed().unwrap(), true);
    assert_eq!(rx_late.has_changed().unwrap(), true);
}

#[test]
fn stale_drained_signal_changes_nothing() {
    let mut s = Sink::new();
    let rx = s.track_finished();
    assert_eq!(s.track_drained(), None);
    assert_eq!(rx.has_changed().unwrap(), false);
    assert!(s.is_empty());
    assert_eq!(s.position(5), 0);
}

#[test]
fn position_clamps_when_reading_lags_offset() {
    let mut s = Sink::new();
    assert_eq!(s.query_track(44_100, 10_000), QueryTrackResult::Queued);
    assert_eq!(s.track_drained(), Some(10_000));
    // Right at the track boundary the live reading can still be behind the
    // recorded offset; the position clamps to zero instead of underflowing.
    assert_eq!(s.position(9_990), 0);
}

#[test]
fn clear_empties_session_and_resets_position() {
    let mut s = Sink::new();
    assert_eq!(s.query_track(44_100, 10_000), QueryTrackResult::Queued);
    assert_eq!(s.track_drained(), Some(10_000));
    s.clear();
    assert!(s.is_empty());
    assert_eq!(s.position(99_999), 0);
    assert_eq!(s.queued_durations(), Vec::<u64>::new());
    // Safe to call when already empty.
    s.clear();
    assert!(s.is_empty());
}

#[test]
fn clear_survives_completion_channel() {
    let mut s = Sink::new();
    assert_eq!(s.query_track(44_100, 2_000), QueryTrackResult::Queued);
    s.clear();
    // The channel outlives the clear: a fresh subscriber still sees the next
    // completion.
    let rx = s.track_finished();
    assert_eq!(s.query_track(22_050, 3_000), QueryTrackResult::Queued);
    assert_eq!(s.track_drained(), Some(3_000));
    assert_eq!(rx.has_changed().unwrap(), true);
}

#[test]
fn clear_queue_keeps_stream_and_resets_offset() {
    let mut s = Sink::new();
    assert_eq!(s.query_track(44_100, 8_000), QueryTrackResult::Queued);
    assert_eq!(s.track_drained(), Some(8_000));
    assert_eq!(s.position(9_000), 1_000);
    assert!(s.clear_queue());
    assert!(!s.is_empty());
    assert_eq!(s.stream_sample_rate(), Some(44_100));
    assert_eq!(s.queued_durations(), Vec::<u64>::new());
    // The offset is gone: the position is the live reading again, which the
    // drained device stream restarts near zero.
    assert_eq!(s.position(0), 0);
    assert_eq!(s.position(50), 50);
}

#[test]
fn clear_queue_on_empty_session_is_safe() {
    let mut s = Sink::new();
    assert!(!s.clear_queue());
    assert!(s.is_empty());
    assert_eq!(s.position(0), 0);
}

#[test]
fn seek_delegates_only_with_active_stream() {
    let mut s = Sink::new();
    assert_eq!(s.seek(1_234), None);
    assert_eq!(s.query_track(44_100, 10_000), QueryTrackResult::Queued);
    assert_eq!(s.seek(1_234), Some(1_234));
    assert_eq!(Sink::seek_outcome(true), Ok(()));
    assert_eq!(Sink::seek_outcome(false), Err(TrackError::SeekFailed));
}

#[test]
fn sync_volume_applies_full_curve_to_active_sink() {
    let mut s = Sink::new();
    assert_eq!(s.sync_volume(), None);
    assert_eq!(s.query_track(44_100, 10_000), QueryTrackResult::Queued);
    assert_eq!(s.sync_volume(), Some(1_000_000_000));
}

#[test]
fn played_counter_saturates_instead_of_wrapping() {
    let mut s = Sink::new();
    assert_eq!(s.query_track(1, u64::MAX), QueryTrackResult::Queued);
    assert_eq!(s.track_drained(), Some(u64::MAX));
    assert_eq!(s.query_track(1, 5), QueryTrackResult::Queued);
    assert_eq!(s.track_drained(), Some(5));
    // The counter held at the maximum; no reading can be past it.
    assert_eq!(s.position(u64::MAX), 0);
    assert_eq!(s.position(123), 0);
}
