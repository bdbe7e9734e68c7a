//! What the native bridge hands to the application around the player: its
//! states, its events with times in milliseconds and reasons as text, its
//! errors, and the check of a seek position given in milliseconds.
use crate::media::time::{div_toward_zero, MediaTime};
use crate::player::event::PlayerEvent;
use crate::player::state::PlayerState;
use crate::reason::{
    carries_io_error, failure_reason, playback_error_text, rejection_reason, rejection_text,
};
use vstd::prelude::*;

verus! {

/// The states of a player as the application sees them.
#[derive(Debug, Clone, Copy, PartialEq, Eq, Structural)]
pub enum NativeState {
    Idle,
    Preparing,
    Ready,
    Playing,
    Paused,
    Error,
    Ended,
    Released,
}

/// The application's name of each player state.
pub open spec fn native_state(state: PlayerState) -> NativeState {
    match state {
        PlayerState::Idle => NativeState::Idle,
        PlayerState::Preparing => NativeState::Preparing,
        PlayerState::Ready => NativeState::Ready,
        PlayerState::Playing => NativeState::Playing,
        PlayerState::Paused => NativeState::Paused,
        PlayerState::Error => NativeState::Error,
        PlayerState::Released => NativeState::Released,
    }
}

impl From<PlayerState> for NativeState {
    fn from(value: PlayerState) -> (r: NativeState) {
        match value {
            PlayerState::Idle => NativeState::Idle,
            PlayerState::Preparing => NativeState::Preparing,
            PlayerState::Ready => NativeState::Ready,
            PlayerState::Playing => NativeState::Playing,
            PlayerState::Paused => NativeState::Paused,
            PlayerState::Error => NativeState::Error,
            PlayerState::Released => NativeState::Released,
        }
    }
}

impl vstd::std_specs::convert::FromSpecImpl<PlayerState> for NativeState {
    open spec fn obeys_from_spec() -> bool {
        true
    }

    open spec fn from_spec(v: PlayerState) -> NativeState {
        native_state(v)
    }
}

/// The events of a player as the application sees them.
#[derive(Debug, Clone)]
pub enum NativeEvent {
    StateChanged { previous: NativeState, current: NativeState },
    DurationChanged { duration_ms: Option<i64> },
    AudioProgress { position_ms: i64 },
    PlaybackFailed { reason: String },
    CommandRejected { reason: String },
}

/// Milliseconds of a media time, rounded toward zero.
pub open spec fn position_ms(media_time: MediaTime) -> int {
    div_toward_zero(media_time.nanoseconds() as int, 1_000_000)
}

impl NativeEvent {
    /// The application's form of a player event: states by their names,
    /// media times in whole milliseconds (rounded toward zero), failures and
    /// refused commands as text (see `failure_reason` and `rejection_reason`).
    /// Seek results are not passed on.
    pub fn from_player_event(event: PlayerEvent) -> (r: Option<NativeEvent>)
        ensures
            match event {
                PlayerEvent::StateChanged { previous, current } => r == Some(
                    NativeEvent::StateChanged {
                        previous: native_state(previous),
                        current: native_state(current),
                    },
                ),
                PlayerEvent::DurationChanged { duration_ms } => r == Some(
                    NativeEvent::DurationChanged { duration_ms },
                ),
                PlayerEvent::AudioProgress { media_time } => r matches Some(
                    NativeEvent::AudioProgress { position_ms: p },
                ) && p == position_ms(media_time),
                PlayerEvent::PlaybackFailed { error } => r matches Some(
                    NativeEvent::PlaybackFailed { reason },
                ) && (exists|io: Seq<char>| reason@ == #[trigger] playback_error_text(error, io))
                    && (!carries_io_error(error) ==> reason@ == playback_error_text(
                    error,
                    Seq::empty(),
                )),
                PlayerEvent::CommandRejected { command, state } => r matches Some(
                    NativeEvent::CommandRejected { reason },
                ) && reason@ == rejection_text(command, state),
                PlayerEvent::SeekCompleted { .. } => r is None,
            },
    {
        match event {
            PlayerEvent::StateChanged { previous, current } => Some(
                NativeEvent::StateChanged { previous: previous.into(), current: current.into() },
            ),
            PlayerEvent::DurationChanged { duration_ms } => Some(
                NativeEvent::DurationChanged { duration_ms },
            ),
            PlayerEvent::AudioProgress { media_time } => {
                let nanos = media_time.nanoseconds();
                let position_ms = nanos / 1_000_000;
                Some(NativeEvent::AudioProgress { position_ms })
            },
            PlayerEvent::PlaybackFailed { error } => Some(
                NativeEvent::PlaybackFailed { reason: failure_reason(&error) },
            ),
            PlayerEvent::CommandRejected { command, state } => Some(
                NativeEvent::CommandRejected { reason: rejection_reason(command, state) },
            ),
            PlayerEvent::SeekCompleted { .. } => None,
        }
    }
}

/// The errors of the native bridge.
#[derive(Debug)]
pub enum PlayerBridgeError {
    CreatedFailed { reason: String },
    LockPoisoned,
    ShutdownFailed { reason: String },
    Released,
    CommandChannelClosed,
    EventChannelClosed,
    NegativeSeekPosition { position_ms: i64 },
    SeekPositionOverflow { position_ms: i64 },
}

/// The media time of a seek to `position_ms` milliseconds: refused when
/// negative, and when its nanoseconds do not fit in an `i64`.
pub fn seek_target(position_ms: i64) -> (r: Result<MediaTime, PlayerBridgeError>)
    ensures
        position_ms < 0 <==> r matches Err(PlayerBridgeError::NegativeSeekPosition { .. }),
        r matches Err(PlayerBridgeError::NegativeSeekPosition { position_ms: p }) ==> p
            == position_ms,
        position_ms >= 0 && position_ms * 1_000_000 > i64::MAX <==> r matches Err(
            PlayerBridgeError::SeekPositionOverflow { .. },
        ),
        r matches Err(PlayerBridgeError::SeekPositionOverflow { position_ms: p }) ==> p
            == position_ms,
        r matches Ok(t) ==> t.nanoseconds() == position_ms * 1_000_000,
        (position_ms >= 0 && position_ms * 1_000_000 <= i64::MAX) ==> r is Ok,
{
    if position_ms < 0 {
        return Err(PlayerBridgeError::NegativeSeekPosition { position_ms });
    }
    if position_ms > i64::MAX / 1_000_000 {
        return Err(PlayerBridgeError::SeekPositionOverflow { position_ms });
    }
    Ok(MediaTime::from_nanoseconds(position_ms * 1_000_000))
}

} // verus!
