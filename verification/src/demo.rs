//! The decisions of the demonstration run: prepare, start playing as soon
//! as the player is ready, and succeed once it has played for a while;
//! fail on a playback failure or a refused command. Sending, waiting and
//! printing stay with the caller.
use crate::player::event::PlayerEvent;
use crate::player::state::PlayerState;
use vstd::prelude::*;

verus! {

/// What the run does after an event.
#[derive(Debug, Clone, Copy, PartialEq, Eq, Structural)]
pub enum DemoStep {
    /// Send the Play command.
    SendPlay,
    /// Playing began: wait a last, shorter while.
    ExtendDeadline,
    /// The run failed on this event.
    Fail,
    /// Wait for the next event.
    Continue,
}

/// Whether Play was sent, and whether the player is playing.
#[derive(Debug, Clone, Copy, PartialEq, Eq, Structural)]
pub struct DemoDriver {
    pub play_sent: bool,
    pub playing: bool,
}

/// The step for `event` in a run with driver `d`, and the driver after it.
pub open spec fn demo_step(d: DemoDriver, event: PlayerEvent) -> (DemoStep, DemoDriver) {
    match event {
        PlayerEvent::StateChanged { current, .. } => if current == PlayerState::Ready
            && !d.play_sent {
            (DemoStep::SendPlay, DemoDriver { play_sent: true, ..d })
        } else if current == PlayerState::Playing && !d.playing {
            (DemoStep::ExtendDeadline, DemoDriver { playing: true, ..d })
        } else {
            (DemoStep::Continue, d)
        },
        PlayerEvent::PlaybackFailed { .. } => (DemoStep::Fail, d),
        PlayerEvent::CommandRejected { .. } => (DemoStep::Fail, d),
        _ => (DemoStep::Continue, d),
    }
}

impl DemoDriver {
    /// A run that has sent nothing yet.
    pub fn new() -> (r: DemoDriver)
        ensures
            !r.play_sent && !r.playing,
    {
        DemoDriver { play_sent: false, playing: false }
    }

    /// Takes in an event; see `demo_step`.
    pub fn on_event(&mut self, event: &PlayerEvent) -> (r: DemoStep)
        ensures
            (r, *final(self)) == demo_step(*old(self), *event),
    {
        match event {
            PlayerEvent::StateChanged { current, .. } => {
                if *current == PlayerState::Ready && !self.play_sent {
                    self.play_sent = true;
                    DemoStep::SendPlay
                } else if *current == PlayerState::Playing && !self.playing {
                    self.playing = true;
                    DemoStep::ExtendDeadline
                } else {
                    DemoStep::Continue
                }
            },
            PlayerEvent::PlaybackFailed { .. } => DemoStep::Fail,
            PlayerEvent::CommandRejected { .. } => DemoStep::Fail,
            _ => DemoStep::Continue,
        }
    }

    /// When the time is up, the run succeeded exactly if the player was
    /// playing.
    pub fn succeeded_at_deadline(&self) -> (r: bool)
        ensures
            r == self.playing,
    {
        self.playing
    }
}

} // verus!
