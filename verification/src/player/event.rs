//! Events that a player reports to its user.
use crate::error::PlaybackError;
use crate::media::time::MediaTime;
use crate::player::command::PlayerCommand;
use crate::player::state::PlayerState;
use vstd::prelude::*;

verus! {

#[derive(Debug)]
pub enum PlayerEvent {
    StateChanged { previous: PlayerState, current: PlayerState },
    DurationChanged { duration_ms: Option<i64> },
    PlaybackFailed { error: PlaybackError },
    AudioProgress { media_time: MediaTime },
    SeekCompleted { requested: MediaTime, landed: MediaTime },
    CommandRejected { command: PlayerCommand, state: PlayerState },
}

} // verus!
