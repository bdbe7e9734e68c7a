use moonegg_core::media::MediaTime;
use moonegg_core::pipeline::PlaybackEpoch;
use moonegg_core::player::{PlayerCommand, PlayerEvent, PlayerState, StateAction};
use moonegg_core::runtime::control_loop::ControlEffect;
use moonegg_core::runtime::effect_executor::ControlError;
use moonegg_core::runtime::{ControlLoop, ControlMessage, WorkerEvent};

const ALL_STATES: [PlayerState; 7] = [
    PlayerState::Idle,
    PlayerState::Preparing,
    PlayerState::Ready,
    PlayerState::Playing,
    PlayerState::Paused,
    PlayerState::Error,
    PlayerState::Released,
];

#[test]
fn release_is_accepted_everywhere_and_idempotent() {
    for state in ALL_STATES {
        assert_eq!(state.transition(StateAction::Release).unwrap(), PlayerState::Released);
    }
    assert_eq!(
        PlayerState::Released.transition(StateAction::Release).unwrap(),
        PlayerState::Released
    );
}

#[test]
fn released_refuses_everything_but_release() {
    for action in [
        StateAction::BeginPrepare,
        StateAction::PreparationCompleted,
        StateAction::Play,
        StateAction::Pause,
        StateAction::Stop,
        StateAction::Seek,
        StateAction::FatalError,
    ] {
        let error = PlayerState::Released.transition(action).unwrap_err();
        assert_eq!(error.state(), PlayerState::Released);
        assert_eq!(error.action(), action);
    }
}

#[test]
fn preparation_path_and_play_pause() {
    let preparing = PlayerState::Idle.transition(StateAction::BeginPrepare).unwrap();
    assert_eq!(preparing, PlayerState::Preparing);
    let ready = preparing.transition(StateAction::PreparationCompleted).unwrap();
    assert_eq!(ready, PlayerState::Ready);
    let playing = ready.transition(StateAction::Play).unwrap();
    assert_eq!(playing, PlayerState::Playing);
    assert_eq!(playing.transition(StateAction::Play).unwrap(), PlayerState::Playing);
    let paused = playing.transition(StateAction::Pause).unwrap();
    assert_eq!(paused, PlayerState::Paused);
    assert_eq!(paused.transition(StateAction::Pause).unwrap(), PlayerState::Paused);
    assert_eq!(paused.transition(StateAction::Play).unwrap(), PlayerState::Playing);
}

#[test]
fn stop_returns_to_idle_and_fatal_error_enters_error() {
    for state in ALL_STATES {
        if state == PlayerState::Released {
            continue;
        }
        assert_eq!(state.transition(StateAction::Stop).unwrap(), PlayerState::Idle);
        assert_eq!(state.transition(StateAction::FatalError).unwrap(), PlayerState::Error);
    }
}

#[test]
fn seek_keeps_state_only_where_allowed() {
    for state in ALL_STATES {
        let result = state.transition(StateAction::Seek);
        match state {
            PlayerState::Ready | PlayerState::Playing | PlayerState::Paused => {
                assert_eq!(result.unwrap(), state)
            }
            _ => assert!(result.is_err()),
        }
    }
}

#[test]
fn invalid_transition_reports_state_and_action() {
    let error = PlayerState::Idle.transition(StateAction::Play).unwrap_err();
    assert_eq!(error.state(), PlayerState::Idle);
    assert_eq!(error.action(), StateAction::Play);
    assert!(PlayerState::Preparing.transition(StateAction::Pause).is_err());
}

#[test]
fn control_loop_turns_commands_into_effects() {
    let mut control = ControlLoop::new();
    assert_eq!(control.state(), PlayerState::Idle);
    assert!(matches!(control.handle_command(PlayerCommand::Prepare), Ok(ControlEffect::BeginPrepare)));
    assert_eq!(control.state(), PlayerState::Preparing);
    let rejected = control.handle_command(PlayerCommand::Play).unwrap_err();
    assert_eq!(rejected.state(), PlayerState::Preparing);
    assert_eq!(rejected.action(), StateAction::Play);
    assert_eq!(control.state(), PlayerState::Preparing);
    assert!(matches!(control.handle_command(PlayerCommand::Stop), Ok(ControlEffect::Stop)));
    assert!(matches!(control.handle_command(PlayerCommand::Release), Ok(ControlEffect::Release)));
    assert!(matches!(control.handle_command(PlayerCommand::Release), Ok(ControlEffect::NoEffect)));
    assert_eq!(control.state(), PlayerState::Released);
}

#[test]
fn repeated_play_has_no_effect_and_seek_is_forwarded() {
    let mut control = ControlLoop::new();
    control.handle_command(PlayerCommand::Prepare).unwrap();
    let outcome = control.handle_worker_event(WorkerEvent::PreparationCompleted {
        epoch: PlaybackEpoch::initial(),
    });
    assert!(matches!(
        outcome.event,
        Some(PlayerEvent::StateChanged { previous: PlayerState::Preparing, current: PlayerState::Ready })
    ));
    assert!(matches!(control.handle_command(PlayerCommand::Play), Ok(ControlEffect::StartPlayback)));
    assert!(matches!(control.handle_command(PlayerCommand::Play), Ok(ControlEffect::NoEffect)));
    let target = MediaTime::from_nanoseconds(2_000_000_000);
    match control.handle_command(PlayerCommand::Seek(target)) {
        Ok(ControlEffect::Seek(t)) => assert_eq!(t.nanoseconds(), 2_000_000_000),
        other => panic!("unexpected {other:?}"),
    }
    assert_eq!(control.state(), PlayerState::Playing);
}

#[test]
fn seek_starts_a_new_generation_and_stale_reports_are_ignored() {
    let mut control = ControlLoop::new();
    let first = control.epoch();
    assert_eq!(first.value(), 0);
    control.handle_user_command(PlayerCommand::Prepare).unwrap();
    control.handle_worker_event(WorkerEvent::PreparationCompleted { epoch: first });
    assert_eq!(control.state(), PlayerState::Ready);

    let outcome = control
        .handle_user_command(PlayerCommand::Seek(MediaTime::from_nanoseconds(1_000)))
        .unwrap();
    assert_eq!(control.epoch().value(), 1);
    assert_eq!(outcome.epoch.value(), 1);
    assert!(outcome.event.is_none());
    assert!(matches!(outcome.effect, Some(ControlEffect::Seek(_))));

    // A failure of the earlier generation arrives late: nothing happens.
    let stale = control.handle_message(ControlMessage::WorkerEvent(WorkerEvent::Failed {
        epoch: first,
        error: moonegg_core::error::PlaybackError::Runtime(
            moonegg_core::error::RuntimeError::SessionFailed,
        ),
    }));
    let stale = stale.unwrap();
    assert!(stale.event.is_none());
    assert!(stale.effect.is_none());
    assert_eq!(control.state(), PlayerState::Ready);
    assert_eq!(control.epoch().value(), 1);
}

#[test]
fn current_failure_enters_error_and_asks_for_cleanup() {
    let mut control = ControlLoop::new();
    control.handle_user_command(PlayerCommand::Prepare).unwrap();
    let outcome = control.handle_worker_event(WorkerEvent::Failed {
        epoch: control.epoch(),
        error: moonegg_core::error::PlaybackError::Runtime(
            moonegg_core::error::RuntimeError::Cancelled,
        ),
    });
    assert_eq!(control.state(), PlayerState::Error);
    assert!(matches!(outcome.event, Some(PlayerEvent::PlaybackFailed { .. })));
    assert!(matches!(outcome.effect, Some(ControlEffect::CleanupAfterFailure)));
}

#[test]
fn refused_user_command_comes_back_as_rejection() {
    let mut control = ControlLoop::new();
    match control.handle_user_command(PlayerCommand::Pause) {
        Err(ControlError::CommandRejected { command, transition }) => {
            assert_eq!(command, PlayerCommand::Pause);
            assert_eq!(transition.state(), PlayerState::Idle);
            assert_eq!(transition.action(), StateAction::Pause);
        }
        other => panic!("unexpected {other:?}"),
    }
    assert_eq!(control.state(), PlayerState::Idle);
}

#[test]
fn accepted_command_reports_the_change_of_state() {
    let mut control = ControlLoop::new();
    let outcome = control.handle_user_command(PlayerCommand::Prepare).unwrap();
    assert!(matches!(
        outcome.event,
        Some(PlayerEvent::StateChanged { previous: PlayerState::Idle, current: PlayerState::Preparing })
    ));
    assert!(matches!(outcome.effect, Some(ControlEffect::BeginPrepare)));
    assert_eq!(outcome.epoch.value(), 0);
    let again = control.handle_user_command(PlayerCommand::Stop).unwrap();
    assert!(matches!(again.effect, Some(ControlEffect::Stop)));
    let idle_stop = control.handle_user_command(PlayerCommand::Stop).unwrap();
    assert!(idle_stop.event.is_none());
    assert!(idle_stop.effect.is_none());
}

#[test]
fn progress_and_completion_reports() {
    let mut control = ControlLoop::new();
    control.handle_user_command(PlayerCommand::Prepare).unwrap();
    let epoch = control.epoch();
    control.handle_worker_event(WorkerEvent::PreparationCompleted { epoch });
    control.handle_user_command(PlayerCommand::Play).unwrap();
    let progress = control.handle_worker_event(WorkerEvent::AudioProgress {
        epoch,
        media_time: MediaTime::from_nanoseconds(500),
    });
    assert!(matches!(progress.event, Some(PlayerEvent::AudioProgress { media_time }) if media_time.nanoseconds() == 500));
    let done = control.handle_worker_event(WorkerEvent::PlaybackCompleted { epoch });
    assert_eq!(control.state(), PlayerState::Paused);
    assert!(matches!(
        done.event,
        Some(PlayerEvent::StateChanged { previous: PlayerState::Playing, current: PlayerState::Paused })
    ));
    let duration = control.handle_worker_event(WorkerEvent::DurationChanged { epoch, duration_ms: Some(42) });
    assert!(matches!(duration.event, Some(PlayerEvent::DurationChanged { duration_ms: Some(42) })));
}

#[test]
fn the_control_loop_ends_once_released() {
    let mut control = ControlLoop::new();
    assert_eq!(control.exit_after_message(), None);
    control.handle_command(PlayerCommand::Prepare).unwrap();
    assert_eq!(control.exit_after_message(), None);
    control.handle_command(PlayerCommand::Release).unwrap();
    assert_eq!(control.exit_after_message(), Some(moonegg_core::runtime::ControlLoopExit::Released));
}
