use moonegg_core::demo::{DemoDriver, DemoStep};
use moonegg_core::error::{PlaybackError, RuntimeError};
use moonegg_core::player::{PlayerCommand, PlayerEvent, PlayerState};

#[test]
fn plays_once_ready_and_succeeds_once_playing() {
    let mut driver = DemoDriver::new();
    assert!(!driver.succeeded_at_deadline());
    let preparing = PlayerEvent::StateChanged { previous: PlayerState::Idle, current: PlayerState::Preparing };
    assert_eq!(driver.on_event(&preparing), DemoStep::Continue);
    let ready = PlayerEvent::StateChanged { previous: PlayerState::Preparing, current: PlayerState::Ready };
    assert_eq!(driver.on_event(&ready), DemoStep::SendPlay);
    // Play is sent once only.
    assert_eq!(driver.on_event(&ready), DemoStep::Continue);
    let playing = PlayerEvent::StateChanged { previous: PlayerState::Ready, current: PlayerState::Playing };
    assert_eq!(driver.on_event(&playing), DemoStep::ExtendDeadline);
    assert_eq!(driver.on_event(&playing), DemoStep::Continue);
    assert!(driver.succeeded_at_deadline());
}

#[test]
fn fails_on_playback_failure_or_rejection() {
    let mut driver = DemoDriver::new();
    let failed = PlayerEvent::PlaybackFailed { error: PlaybackError::Runtime(RuntimeError::SessionFailed) };
    assert_eq!(driver.on_event(&failed), DemoStep::Fail);
    let rejected = PlayerEvent::CommandRejected { command: PlayerCommand::Play, state: PlayerState::Idle };
    assert_eq!(driver.on_event(&rejected), DemoStep::Fail);
    let progress = PlayerEvent::DurationChanged { duration_ms: Some(1) };
    assert_eq!(driver.on_event(&progress), DemoStep::Continue);
}
