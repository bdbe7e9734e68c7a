use moonegg_core::backends::simulated_audio::SimulatedAudioOutput;
use moonegg_core::media::{AudioBuffer, AudioSamples, DecodedFrame, MediaDelta, MediaTime, TrackId};
use moonegg_core::ports::{AudioOutputError, AudioPlaybackPosition, AudioSubmitResult};
use moonegg_core::timing::{
    AudioClock, AvSync, AvSyncError, ClockError, ClockSnapshot, MonotonicClock, MonotonicInstant,
    VideoSyncDecision,
};

fn at(nanos: u64) -> MonotonicInstant {
    MonotonicInstant::from_nanos(nanos)
}

#[test]
fn audio_clock_moves_the_anchor_by_played_frames() {
    let clock = AudioClock::new(48_000, MediaTime::from_nanoseconds(2_000_000_000), 1_000).unwrap();
    assert_eq!(clock.sample_rate(), 48_000);
    let snapshot = clock.snapshot(AudioPlaybackPosition::new(1_000 + 48_000, at(77))).unwrap();
    assert_eq!(snapshot.media_time().nanoseconds(), 3_000_000_000);
    assert_eq!(snapshot.observed_at(), at(77));
    // 1 frame at 48 kHz is 20833.33 ns, rounded down.
    let one = clock.snapshot(AudioPlaybackPosition::new(1_001, at(0))).unwrap();
    assert_eq!(one.media_time().nanoseconds(), 2_000_020_833);
    assert_eq!(
        clock.snapshot(AudioPlaybackPosition::new(999, at(0))).unwrap_err(),
        ClockError::PositionWentBackward
    );
    assert_eq!(AudioClock::new(0, MediaTime::from_nanoseconds(0), 0).unwrap_err(), ClockError::InvalidSampleRate);
    let far = AudioClock::new(1, MediaTime::from_nanoseconds(0), 0).unwrap();
    assert_eq!(far.snapshot(AudioPlaybackPosition::new(u64::MAX, at(0))).unwrap_err(), ClockError::Overflow);
}

#[test]
fn av_sync_waits_presents_or_drops() {
    let sync = AvSync::new(MediaDelta::from_nanoseconds(10_000_000), MediaDelta::from_nanoseconds(40_000_000)).unwrap();
    let snapshot = ClockSnapshot::new(MediaTime::from_nanoseconds(1_000_000_000), at(5_000));
    // Audio is at 1 s + 1000 ns at instant 6000.
    let now = at(6_000);
    // 100 ms early: wait until it is only 10 ms early.
    let early = sync.decide(MediaTime::from_nanoseconds(1_100_001_000), snapshot, now).unwrap();
    assert_eq!(early, VideoSyncDecision::WaitUntil(at(6_000 + 90_000_000)));
    // 5 ms early: present now.
    assert_eq!(sync.decide(MediaTime::from_nanoseconds(1_005_001_000), snapshot, now).unwrap(), VideoSyncDecision::PresentNow);
    // 40 ms late: still presented; 41 ms late: dropped.
    assert_eq!(sync.decide(MediaTime::from_nanoseconds(960_001_000), snapshot, now).unwrap(), VideoSyncDecision::PresentNow);
    assert_eq!(sync.decide(MediaTime::from_nanoseconds(959_001_000), snapshot, now).unwrap(), VideoSyncDecision::Drop);
    // An observation from the future is refused.
    assert_eq!(
        sync.decide(MediaTime::from_nanoseconds(0), snapshot, at(4_000)).unwrap_err(),
        AvSyncError::ObservationFromFuture
    );
    assert_eq!(
        AvSync::new(MediaDelta::from_nanoseconds(-1), MediaDelta::from_nanoseconds(0)).unwrap_err(),
        AvSyncError::InvalidTolerance
    );
}

#[test]
fn monotonic_instants_and_clock() {
    let a = at(100);
    let b = at(250);
    assert_eq!(b.checked_duration_since(a), Some(150));
    assert_eq!(a.checked_duration_since(b), None);
    assert_eq!(a.checked_add_nanos(5).unwrap().nanos(), 105);
    assert!(at(u64::MAX).checked_add_nanos(1).is_none());
    let clock = MonotonicClock::start();
    let first = clock.now();
    let began = std::time::Instant::now();
    while began.elapsed() < std::time::Duration::from_millis(3) {}
    let second = clock.now();
    // The clock reads the time that passed since it started.
    assert!(second.nanos() >= first.nanos() + 2_000_000);
}

fn frame(samples: Vec<i16>, rate: u32, channels: u16) -> DecodedFrame<AudioBuffer> {
    DecodedFrame::new(
        TrackId::new(0),
        MediaTime::from_nanoseconds(0),
        AudioBuffer::new(rate, channels, AudioSamples::I16(samples)).unwrap(),
    )
}

#[test]
fn simulated_output_plays_at_the_sample_rate() {
    let mut output = SimulatedAudioOutput::new(1_000, 1, 100).unwrap();
    assert!(matches!(output.submit_at(frame(vec![0; 60], 1_000, 1), at(0)).unwrap(), AudioSubmitResult::Accepted));
    // 60 + 60 frames exceed the 100 frames of room: the frame comes back.
    assert!(matches!(output.submit_at(frame(vec![0; 60], 1_000, 1), at(0)).unwrap(), AudioSubmitResult::Backpressure(_)));
    output.start_at(at(0)).unwrap();
    // 25 ms at 1 kHz plays 25 frames.
    assert_eq!(output.playback_position_at(at(25_000_000)).unwrap().played_frames(), 25);
    assert!(!output.is_drained_at(at(25_000_000)).unwrap());
    // At most what was held is played.
    assert_eq!(output.playback_position_at(at(1_000_000_000)).unwrap().played_frames(), 60);
    assert!(output.is_drained_at(at(1_000_000_000)).unwrap());
    // Going back in time is refused.
    assert_eq!(output.playback_position_at(at(5)).unwrap_err(), AudioOutputError::InvalidState);
}

#[test]
fn simulated_output_checks_format_size_and_construction() {
    let mut output = SimulatedAudioOutput::new(1_000, 2, 10).unwrap();
    assert_eq!(output.submit_at(frame(vec![0; 4], 1_000, 1), at(0)).err().unwrap(), AudioOutputError::InvalidFormat);
    assert_eq!(output.submit_at(frame(vec![0; 4], 2_000, 2), at(0)).err().unwrap(), AudioOutputError::InvalidFormat);
    assert_eq!(output.submit_at(frame(vec![0; 22], 1_000, 2), at(0)).err().unwrap(), AudioOutputError::BufferTooLarge);
    let float = DecodedFrame::new(
        TrackId::new(0),
        MediaTime::from_nanoseconds(0),
        AudioBuffer::new(1_000, 2, AudioSamples::F32(vec![0, 0])).unwrap(),
    );
    assert_eq!(output.submit_at(float, at(0)).err().unwrap(), AudioOutputError::InvalidFormat);
    assert_eq!(SimulatedAudioOutput::new(0, 1, 10).err().unwrap(), AudioOutputError::InvalidFormat);
    assert_eq!(SimulatedAudioOutput::new(1_000, 3, 10).err().unwrap(), AudioOutputError::InvalidFormat);
    assert_eq!(SimulatedAudioOutput::new(1_000, 1, 0).err().unwrap(), AudioOutputError::InvalidState);
}

#[test]
fn simulated_output_pause_and_flush() {
    let mut output = SimulatedAudioOutput::new(1_000, 1, 100).unwrap();
    output.submit_at(frame(vec![0; 50], 1_000, 1), at(0)).unwrap();
    output.start_at(at(0)).unwrap();
    output.pause_at(at(10_000_000)).unwrap();
    // Paused: time passes, nothing more is played.
    assert_eq!(output.playback_position_at(at(40_000_000)).unwrap().played_frames(), 10);
    output.flush_at(at(40_000_000)).unwrap();
    assert!(output.is_drained_at(at(40_000_000)).unwrap());
    assert_eq!(output.playback_position_at(at(50_000_000)).unwrap().played_frames(), 10);
}

#[test]
fn av_sync_reports_overflow() {
    let sync = AvSync::new(MediaDelta::from_nanoseconds(0), MediaDelta::from_nanoseconds(0)).unwrap();
    let snapshot = ClockSnapshot::new(MediaTime::from_nanoseconds(0), at(0));
    assert_eq!(
        sync.decide(MediaTime::from_nanoseconds(0), snapshot, at(u64::MAX)).unwrap_err(),
        AvSyncError::Overflow
    );
    let late_audio = ClockSnapshot::new(MediaTime::from_nanoseconds(i64::MAX), at(0));
    assert_eq!(
        sync.decide(MediaTime::from_nanoseconds(0), late_audio, at(1)).unwrap_err(),
        AvSyncError::Overflow
    );
}
