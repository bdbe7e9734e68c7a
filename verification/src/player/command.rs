//! Commands that a user sends to a player.
use crate::media::time::MediaTime;
use vstd::prelude::*;

verus! {

#[derive(Debug, Clone, Copy, PartialEq, Eq, Structural)]
pub enum PlayerCommand {
    Prepare,
    Play,
    Pause,
    Seek(MediaTime),
    Stop,
    Release,
}

} // verus!
