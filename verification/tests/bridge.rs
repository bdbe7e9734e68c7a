use moonegg_core::pipeline::{AudioPipelineError, PlaybackEpoch, PlaybackPipelineError};
use moonegg_core::ports::AudioOutputError;
use moonegg_core::reason::{failure_reason, rejection_reason};
use moonegg_core::bridge::{seek_target, NativeEvent, NativeState, PlayerBridgeError};
use moonegg_core::error::{PlaybackError, RuntimeError};
use moonegg_core::media::MediaTime;
use moonegg_core::player::{PlayerCommand, PlayerEvent, PlayerState};

#[test]
fn native_states_follow_player_states() {
    assert_eq!(NativeState::from(PlayerState::Idle), NativeState::Idle);
    assert_eq!(NativeState::from(PlayerState::Preparing), NativeState::Preparing);
    assert_eq!(NativeState::from(PlayerState::Ready), NativeState::Ready);
    assert_eq!(NativeState::from(PlayerState::Playing), NativeState::Playing);
    assert_eq!(NativeState::from(PlayerState::Paused), NativeState::Paused);
    assert_eq!(NativeState::from(PlayerState::Error), NativeState::Error);
    assert_eq!(NativeState::from(PlayerState::Released), NativeState::Released);
}

#[test]
fn native_events_carry_milliseconds_and_text() {
    let changed = NativeEvent::from_player_event(PlayerEvent::StateChanged {
        previous: PlayerState::Ready,
        current: PlayerState::Playing,
    });
    assert!(matches!(
        changed,
        Some(NativeEvent::StateChanged { previous: NativeState::Ready, current: NativeState::Playing })
    ));
    let progress = NativeEvent::from_player_event(PlayerEvent::AudioProgress {
        media_time: MediaTime::from_nanoseconds(1_999_999_999),
    });
    assert!(matches!(progress, Some(NativeEvent::AudioProgress { position_ms: 1_999 })));
    let before_start = NativeEvent::from_player_event(PlayerEvent::AudioProgress {
        media_time: MediaTime::from_nanoseconds(-1_500_000),
    });
    assert!(matches!(before_start, Some(NativeEvent::AudioProgress { position_ms: -1 })));
    let duration = NativeEvent::from_player_event(PlayerEvent::DurationChanged { duration_ms: None });
    assert!(matches!(duration, Some(NativeEvent::DurationChanged { duration_ms: None })));

    match NativeEvent::from_player_event(PlayerEvent::PlaybackFailed {
        error: PlaybackError::Runtime(RuntimeError::WorkerPanicked),
    }) {
        Some(NativeEvent::PlaybackFailed { reason }) => assert_eq!(reason, "Runtime(WorkerPanicked)"),
        other => panic!("unexpected {other:?}"),
    }
    match NativeEvent::from_player_event(PlayerEvent::CommandRejected {
        command: PlayerCommand::Play,
        state: PlayerState::Idle,
    }) {
        Some(NativeEvent::CommandRejected { reason }) => assert_eq!(reason, "Play rejected in Idle"),
        other => panic!("unexpected {other:?}"),
    }
    assert!(NativeEvent::from_player_event(PlayerEvent::SeekCompleted {
        requested: MediaTime::from_nanoseconds(0),
        landed: MediaTime::from_nanoseconds(0),
    })
    .is_none());
}

#[test]
fn seek_positions_are_checked() {
    assert_eq!(seek_target(1_500).unwrap().nanoseconds(), 1_500_000_000);
    assert_eq!(seek_target(0).unwrap().nanoseconds(), 0);
    assert!(matches!(seek_target(-1), Err(PlayerBridgeError::NegativeSeekPosition { position_ms: -1 })));
    let largest = i64::MAX / 1_000_000;
    assert_eq!(seek_target(largest).unwrap().nanoseconds(), largest * 1_000_000);
    assert!(matches!(
        seek_target(largest + 1),
        Err(PlayerBridgeError::SeekPositionOverflow { position_ms }) if position_ms == largest + 1
    ));
}

#[test]
fn reasons_spell_values_in_their_debug_form() {

    let seek = PlayerCommand::Seek(MediaTime::from_nanoseconds(-1_234_567));
    let text = rejection_reason(seek, PlayerState::Released);
    assert_eq!(text, format!("{seek:?} rejected in {:?}", PlayerState::Released));
    assert_eq!(text, "Seek(MediaTime { nanoseconds: -1234567 }) rejected in Released");
    let extreme = PlayerCommand::Seek(MediaTime::from_nanoseconds(i64::MIN));
    assert_eq!(rejection_reason(extreme, PlayerState::Idle), format!("{extreme:?} rejected in Idle"));

    let later = PlaybackEpoch::initial().next().unwrap();
    let errors = vec![
        PlaybackError::Pipeline(PlaybackPipelineError::EpochMismatch { expected: PlaybackEpoch::initial(), actual: later }),
        PlaybackError::Pipeline(PlaybackPipelineError::InvalidSeekEpoch { current: later, requested: PlaybackEpoch::initial() }),
        PlaybackError::Pipeline(PlaybackPipelineError::Audio(AudioPipelineError::Output(AudioOutputError::BufferTooLarge))),
        PlaybackError::Runtime(RuntimeError::EpochMismatch { expected: later, actual: later }),
        PlaybackError::Runtime(RuntimeError::THreadSpawn(std::io::Error::new(std::io::ErrorKind::Other, "no threads"))),
        PlaybackError::AudioOutput(AudioOutputError::DeviceUnavailable),
    ];
    for error in &errors {
        assert_eq!(failure_reason(error), format!("{error:?}"));
    }
    assert_eq!(
        failure_reason(&errors[0]),
        "Pipeline(EpochMismatch { expected: PlaybackEpoch(0), actual: PlaybackEpoch(1) })"
    );
}
