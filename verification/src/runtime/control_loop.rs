//! The control loop: it owns the player state and turns commands into
//! effects.
use crate::media::time::MediaTime;
use crate::pipeline::epoch::PlaybackEpoch;
use crate::player::command::PlayerCommand;
use crate::player::event::PlayerEvent;
use crate::player::state::{next_state, InvalidTransition, PlayerState, StateAction};
use crate::runtime::effect_executor::ControlError;
use crate::runtime::shutdown::ControlLoopExit;
use crate::runtime::worker::WorkerEvent;
use vstd::prelude::*;

verus! {

/// The work that a command asks of the rest of the player.
#[derive(Debug, Clone, Copy)]
pub enum ControlEffect {
    BeginPrepare,
    StartPlayback,
    PausePlayback,
    Seek(MediaTime),
    Stop,
    Release,
    /// Tear down the playback session after a fatal error.
    CleanupAfterFailure,
    NoEffect,
}

/// The state machine action that a command stands for.
pub open spec fn command_action(command: PlayerCommand) -> StateAction {
    match command {
        PlayerCommand::Prepare => StateAction::BeginPrepare,
        PlayerCommand::Play => StateAction::Play,
        PlayerCommand::Pause => StateAction::Pause,
        PlayerCommand::Seek(_) => StateAction::Seek,
        PlayerCommand::Stop => StateAction::Stop,
        PlayerCommand::Release => StateAction::Release,
    }
}

/// The effect that an accepted command asks for when it changes something.
pub open spec fn command_effect(command: PlayerCommand) -> ControlEffect {
    match command {
        PlayerCommand::Prepare => ControlEffect::BeginPrepare,
        PlayerCommand::Play => ControlEffect::StartPlayback,
        PlayerCommand::Pause => ControlEffect::PausePlayback,
        PlayerCommand::Seek(target) => ControlEffect::Seek(target),
        PlayerCommand::Stop => ControlEffect::Stop,
        PlayerCommand::Release => ControlEffect::Release,
    }
}

/// The outcome of a command in a state: the new state and the effect, or
/// `None` when the state machine refuses the command. A command that leaves
/// the state as it was has no effect, except a seek.
pub open spec fn command_outcome(state: PlayerState, command: PlayerCommand) -> Option<
    (PlayerState, ControlEffect),
> {
    match next_state(state, command_action(command)) {
        None => None,
        Some(next) => Some(
            (
                next,
                if next == state && !(command is Seek) {
                    ControlEffect::NoEffect
                } else {
                    command_effect(command)
                },
            ),
        ),
    }
}

/// What the control loop receives: a command of the user, or a report of
/// the playback worker.
#[derive(Debug)]
pub enum ControlMessage {
    Command(PlayerCommand),
    WorkerEvent(WorkerEvent),
}

/// What a handled message asks of the effect loop: an event for the user, an
/// effect to perform, and the generation that the effect belongs to.
#[derive(Debug)]
pub struct ControlOutcome {
    pub event: Option<PlayerEvent>,
    pub effect: Option<ControlEffect>,
    pub epoch: PlaybackEpoch,
}

/// The user's event for a move from `previous` to `next`, if the state
/// changed.
pub open spec fn state_change_event(previous: PlayerState, next: PlayerState) -> Option<
    PlayerEvent,
> {
    if previous == next {
        None
    } else {
        Some(PlayerEvent::StateChanged { previous, current: next })
    }
}

/// What a report of the current generation does in `state`: the state it
/// leads to, the event for the user, and the effect it asks for.
///
/// Completed preparation makes a preparing player ready; a failure is a
/// fatal error, reported to the user, and the session is cleaned up; the end
/// of playback pauses a playing player; progress, seek results and duration
/// changes are passed on. A report that the state machine refuses (the
/// player moved on meanwhile) changes nothing.
pub open spec fn worker_event_outcome(state: PlayerState, event: WorkerEvent) -> (
    PlayerState,
    Option<PlayerEvent>,
    Option<ControlEffect>,
) {
    match event {
        WorkerEvent::PreparationCompleted { .. } => match next_state(
            state,
            StateAction::PreparationCompleted,
        ) {
            Some(next) => (next, state_change_event(state, next), None),
            None => (state, None, None),
        },
        WorkerEvent::Failed { error, .. } => match next_state(state, StateAction::FatalError) {
            Some(next) => (
                next,
                Some(PlayerEvent::PlaybackFailed { error }),
                Some(ControlEffect::CleanupAfterFailure),
            ),
            None => (state, None, None),
        },
        WorkerEvent::PlaybackCompleted { .. } => if state == PlayerState::Playing {
            (PlayerState::Paused, state_change_event(state, PlayerState::Paused), None)
        } else {
            (state, None, None)
        },
        WorkerEvent::AudioProgress { media_time, .. } => (
            state,
            Some(PlayerEvent::AudioProgress { media_time }),
            None,
        ),
        WorkerEvent::SeekCompleted { requested, landed, .. } => (
            state,
            Some(PlayerEvent::SeekCompleted { requested, landed }),
            None,
        ),
        WorkerEvent::DurationChanged { duration_ms, .. } => (
            state,
            Some(PlayerEvent::DurationChanged { duration_ms }),
            None,
        ),
    }
}

/// What handling `command` in `state` at generation `epoch` does, leading
/// to `next_state` at generation `next_epoch` with result `r`.
///
/// A refused command leaves everything as it was and comes back as
/// `CommandRejected` with the state and the action refused. An accepted one
/// moves the state as `command_outcome` says; a seek also starts the next
/// generation, or fails with `ControlError::Epoch` when none is left. The
/// outcome reports a change of state to the user and carries the effect, if
/// any, with the generation it belongs to.
pub open spec fn is_user_command_outcome(
    state: PlayerState,
    epoch: PlaybackEpoch,
    command: PlayerCommand,
    next_state: PlayerState,
    next_epoch: PlaybackEpoch,
    r: Result<ControlOutcome, ControlError>,
) -> bool {
    match command_outcome(state, command) {
        None => {
            &&& next_state == state
            &&& next_epoch == epoch
            &&& r matches Err(ControlError::CommandRejected { command: c, transition }) && c
                == command && transition.state() == state && transition.action()
                == command_action(command)
        },
        Some((next, effect)) => {
            &&& next_state == next
            &&& if command is Seek && epoch.value() == u64::MAX {
                &&& next_epoch == epoch
                &&& r matches Err(ControlError::Epoch(_))
            } else {
                &&& command is Seek ==> next_epoch.value() == epoch.value() + 1
                &&& !(command is Seek) ==> next_epoch == epoch
                &&& r matches Ok(outcome) && outcome.event == state_change_event(state, next)
                    && outcome.effect == (if effect is NoEffect {
                    None::<ControlEffect>
                } else {
                    Some(effect)
                }) && outcome.epoch == next_epoch
            }
        },
    }
}

/// The owner of the player state and of the current generation.
pub struct ControlLoop {
    state: PlayerState,
    epoch: PlaybackEpoch,
}

impl ControlLoop {
    pub closed spec fn spec_state(&self) -> PlayerState {
        self.state
    }

    pub closed spec fn spec_epoch(&self) -> PlaybackEpoch {
        self.epoch
    }

    /// A control loop in `Idle`, at the first generation.
    pub fn new() -> (r: ControlLoop)
        ensures
            r.state() == PlayerState::Idle,
            r.epoch().value() == 0,
    {
        ControlLoop { state: PlayerState::Idle, epoch: PlaybackEpoch::initial() }
    }

    /// The current generation.
    #[verifier::when_used_as_spec(spec_epoch)]
    pub fn epoch(&self) -> (r: PlaybackEpoch)
        ensures
            r == self.spec_epoch(),
    {
        self.epoch
    }

    #[verifier::when_used_as_spec(spec_state)]
    pub fn state(&self) -> (r: PlayerState)
        ensures
            r == self.spec_state(),
    {
        self.state
    }

    /// Why the loop ends after the message it just handled: once the
    /// player is released, nothing is left to do.
    pub fn exit_after_message(&self) -> (r: Option<ControlLoopExit>)
        ensures
            r == (if self.state() == PlayerState::Released {
                Some(ControlLoopExit::Released)
            } else {
                None::<ControlLoopExit>
            }),
    {
        match self.state {
            PlayerState::Released => Some(ControlLoopExit::Released),
            _ => None,
        }
    }

    /// Applies a command: on success the state moves and the effect is
    /// returned; a refused command leaves the state unchanged and reports
    /// the state and the action that were refused.
    pub fn handle_command(&mut self, command: PlayerCommand) -> (r: Result<
        ControlEffect,
        InvalidTransition,
    >)
        ensures
            final(self).epoch() == old(self).epoch(),
            match command_outcome(old(self).state(), command) {
                Some((next, effect)) => final(self).state() == next && r == Ok::<
                    ControlEffect,
                    InvalidTransition,
                >(effect),
                None => {
                    &&& final(self).state() == old(self).state()
                    &&& r matches Err(e) && e.state() == old(self).state() && e.action()
                        == command_action(command)
                },
            },
    {
        let (action, effect) = match command {
            PlayerCommand::Prepare => (StateAction::BeginPrepare, ControlEffect::BeginPrepare),
            PlayerCommand::Play => (StateAction::Play, ControlEffect::StartPlayback),
            PlayerCommand::Pause => (StateAction::Pause, ControlEffect::PausePlayback),
            PlayerCommand::Seek(target) => (StateAction::Seek, ControlEffect::Seek(target)),
            PlayerCommand::Stop => (StateAction::Stop, ControlEffect::Stop),
            PlayerCommand::Release => (StateAction::Release, ControlEffect::Release),
        };
        let previous = self.state;
        let next = previous.transition(action)?;
        self.state = next;
        let is_seek = match command {
            PlayerCommand::Seek(_) => true,
            _ => false,
        };
        if previous == next && !is_seek {
            return Ok(ControlEffect::NoEffect);
        }
        Ok(effect)
    }

    /// Handles a command of the user; see `is_user_command_outcome`.
    pub fn handle_user_command(&mut self, command: PlayerCommand) -> (r: Result<
        ControlOutcome,
        ControlError,
    >)
        ensures
            is_user_command_outcome(
                old(self).state(),
                old(self).epoch(),
                command,
                final(self).state(),
                final(self).epoch(),
                r,
            ),
    {
        let previous = self.state;
        let effect = match self.handle_command(command) {
            Ok(effect) => effect,
            Err(transition) => return Err(ControlError::CommandRejected { command, transition }),
        };
        let is_seek = match command {
            PlayerCommand::Seek(_) => true,
            _ => false,
        };
        if is_seek {
            match self.epoch.next() {
                Ok(next_epoch) => self.epoch = next_epoch,
                Err(e) => return Err(ControlError::Epoch(e)),
            }
        }
        let current = self.state;
        let event = if previous == current {
            None
        } else {
            Some(PlayerEvent::StateChanged { previous, current })
        };
        let effect = match effect {
            ControlEffect::NoEffect => None,
            other => Some(other),
        };
        Ok(ControlOutcome { event, effect, epoch: self.epoch })
    }

    /// Handles a report of the playback worker. A report of an earlier
    /// generation is stale: it changes nothing and asks for nothing. A
    /// current one acts as `worker_event_outcome` says.
    pub fn handle_worker_event(&mut self, event: WorkerEvent) -> (r: ControlOutcome)
        ensures
            final(self).epoch() == old(self).epoch(),
            r.epoch == old(self).epoch(),
            event.epoch() != old(self).epoch() ==> final(self).state() == old(self).state()
                && r.event is None && r.effect is None,
            event.epoch() == old(self).epoch() ==> ({
                let (next, user_event, effect) = worker_event_outcome(old(self).state(), event);
                final(self).state() == next && r.event == user_event && r.effect == effect
            }),
    {
        if event.epoch() != self.epoch {
            return ControlOutcome { event: None, effect: None, epoch: self.epoch };
        }
        let state = self.state;
        let (next, user_event, effect) = match event {
            WorkerEvent::PreparationCompleted { .. } => match state.transition(
                StateAction::PreparationCompleted,
            ) {
                Ok(next) => {
                    let user_event = if next == state {
                        None
                    } else {
                        Some(PlayerEvent::StateChanged { previous: state, current: next })
                    };
                    (next, user_event, None)
                },
                Err(_) => (state, None, None),
            },
            WorkerEvent::Failed { error, .. } => match state.transition(StateAction::FatalError) {
                Ok(next) => (
                    next,
                    Some(PlayerEvent::PlaybackFailed { error }),
                    Some(ControlEffect::CleanupAfterFailure),
                ),
                Err(_) => (state, None, None),
            },
            WorkerEvent::PlaybackCompleted { .. } => match state {
                PlayerState::Playing => (
                    PlayerState::Paused,
                    Some(PlayerEvent::StateChanged { previous: state, current: PlayerState::Paused }),
                    None,
                ),
                _ => (state, None, None),
            },
            WorkerEvent::AudioProgress { media_time, .. } => (
                state,
                Some(PlayerEvent::AudioProgress { media_time }),
                None,
            ),
            WorkerEvent::SeekCompleted { requested, landed, .. } => (
                state,
                Some(PlayerEvent::SeekCompleted { requested, landed }),
                None,
            ),
            WorkerEvent::DurationChanged { duration_ms, .. } => (
                state,
                Some(PlayerEvent::DurationChanged { duration_ms }),
                None,
            ),
        };
        self.state = next;
        ControlOutcome { event: user_event, effect, epoch: self.epoch }
    }

    /// Handles one message of the control loop.
    pub fn handle_message(&mut self, message: ControlMessage) -> (r: Result<
        ControlOutcome,
        ControlError,
    >)
        ensures
            match message {
                ControlMessage::Command(command) => is_user_command_outcome(
                    old(self).state(),
                    old(self).epoch(),
                    command,
                    final(self).state(),
                    final(self).epoch(),
                    r,
                ),
                ControlMessage::WorkerEvent(event) => {
                    &&& final(self).epoch() == old(self).epoch()
                    &&& r is Ok
                    &&& event.epoch() != old(self).epoch() ==> final(self).state() == old(self).state()
                        && (r matches Ok(o) && o.event is None && o.effect is None)
                    &&& event.epoch() == old(self).epoch() ==> ({
                        let (next, user_event, effect) = worker_event_outcome(old(self).state(), event);
                        final(self).state() == next && (r matches Ok(o) && o.event == user_event && o.effect == effect)
                    })
                },
            },
    {
        match message {
            ControlMessage::Command(command) => self.handle_user_command(command),
            ControlMessage::WorkerEvent(event) => Ok(self.handle_worker_event(event)),
        }
    }
}

/// A repeated Release is accepted and asks for no further effect.
pub proof fn lemma_release_twice_has_no_effect(state: PlayerState)
    ensures
        command_outcome(state, PlayerCommand::Release) matches Some((next, _)) && next
            == PlayerState::Released,
        command_outcome(PlayerState::Released, PlayerCommand::Release) == Some(
            (PlayerState::Released, ControlEffect::NoEffect),
        ),
{
}

/// Play while playing and Pause while paused are accepted and ask for no
/// effect.
pub proof fn lemma_repeated_play_pause_have_no_effect()
    ensures
        command_outcome(PlayerState::Playing, PlayerCommand::Play) == Some(
            (PlayerState::Playing, ControlEffect::NoEffect),
        ),
        command_outcome(PlayerState::Paused, PlayerCommand::Pause) == Some(
            (PlayerState::Paused, ControlEffect::NoEffect),
        ),
{
}

/// A seek that is accepted always reaches the pipeline, even though the
/// state does not change.
pub proof fn lemma_accepted_seek_is_forwarded(state: PlayerState, target: MediaTime)
    requires
        command_outcome(state, PlayerCommand::Seek(target)) is Some,
    ensures
        command_outcome(state, PlayerCommand::Seek(target)) == Some(
            (state, ControlEffect::Seek(target)),
        ),
{
}

/// A command that changes the player's state always asks for work, and the
/// work is the command's own: Prepare begins preparation, Play starts
/// playback, Pause pauses it, Stop stops and Release releases. A command
/// that leaves the state as it was asks for nothing, except a seek, which
/// always reaches the pipeline with its target.
pub proof fn lemma_state_changes_ask_for_their_work(state: PlayerState, command: PlayerCommand)
    ensures
        command_outcome(state, command) matches Some((next, effect)) ==> {
            &&& next != state ==> !(effect is NoEffect)
            &&& (next != state && command is Prepare) ==> effect is BeginPrepare
            &&& (next != state && command is Play) ==> effect is StartPlayback
            &&& (next != state && command is Pause) ==> effect is PausePlayback
            &&& (next != state && command is Stop) ==> effect is Stop
            &&& (next != state && command is Release) ==> effect is Release
            &&& (next == state && !(command is Seek)) ==> effect is NoEffect
            &&& (command matches PlayerCommand::Seek(t) ==> effect matches ControlEffect::Seek(u)
                && u == t)
        },
{
}

/// Pausing a playing player moves it to `Paused` and asks the pipeline to
/// pause; starting a ready or paused player moves it to `Playing` and asks
/// the pipeline to start.
pub proof fn lemma_play_and_pause_reach_the_pipeline(state: PlayerState)
    ensures
        state == PlayerState::Playing ==> (command_outcome(state, PlayerCommand::Pause) matches Some(
            (next, effect),
        ) && next == PlayerState::Paused && effect is PausePlayback),
        (state == PlayerState::Ready || state == PlayerState::Paused) ==> (command_outcome(
            state,
            PlayerCommand::Play,
        ) matches Some((next, effect)) && next == PlayerState::Playing && effect is StartPlayback),
{
}

/// What a user sees of an accepted command that changes the state: the
/// change is reported, and the outcome carries the command's own work for
/// the generation it belongs to.
pub proof fn lemma_user_outcome_carries_the_work(
    state: PlayerState,
    epoch: PlaybackEpoch,
    command: PlayerCommand,
    next: PlayerState,
    next_epoch: PlaybackEpoch,
    r: Result<ControlOutcome, ControlError>,
)
    requires
        is_user_command_outcome(state, epoch, command, next, next_epoch, r),
        next != state,
    ensures
        r matches Ok(outcome) ==> {
            &&& outcome.event == Some(PlayerEvent::StateChanged { previous: state, current: next })
            &&& outcome.epoch == next_epoch
            &&& outcome.effect matches Some(effect) && match command {
                PlayerCommand::Prepare => effect is BeginPrepare,
                PlayerCommand::Play => effect is StartPlayback,
                PlayerCommand::Pause => effect is PausePlayback,
                PlayerCommand::Seek(t) => effect matches ControlEffect::Seek(u) && u == t,
                PlayerCommand::Stop => effect is Stop,
                PlayerCommand::Release => effect is Release,
            }
        },
        r is Ok || command is Seek,
{
}

/// What the worker's reports of the current generation do: a failure moves
/// every live player to `Error`, is reported to the user with its error,
/// and asks for the session to be cleaned up; completed preparation makes a
/// preparing player ready and says so; the end of playback pauses a playing
/// player and says so, asking for no work; progress, seek results and
/// duration changes leave the state alone and are passed on as they are.
pub proof fn lemma_worker_reports(state: PlayerState, event: WorkerEvent)
    ensures
        ({
            let (next, user_event, effect) = worker_event_outcome(state, event);
            &&& match event {
                WorkerEvent::Failed { error, .. } => state != PlayerState::Released ==> (next
                    == PlayerState::Error && user_event == Some(PlayerEvent::PlaybackFailed { error })
                    && effect matches Some(ControlEffect::CleanupAfterFailure)),
                WorkerEvent::PreparationCompleted { .. } => (state == PlayerState::Preparing ==> (
                next == PlayerState::Ready && user_event == Some(
                    PlayerEvent::StateChanged { previous: state, current: PlayerState::Ready },
                ))) && (state != PlayerState::Preparing ==> next == state && user_event is None),
                WorkerEvent::PlaybackCompleted { .. } => (state == PlayerState::Playing ==> (next
                    == PlayerState::Paused && user_event == Some(
                    PlayerEvent::StateChanged { previous: state, current: PlayerState::Paused },
                ))) && (state != PlayerState::Playing ==> next == state && user_event is None),
                WorkerEvent::AudioProgress { media_time, .. } => next == state && user_event == Some(
                    PlayerEvent::AudioProgress { media_time },
                ),
                WorkerEvent::SeekCompleted { requested, landed, .. } => next == state && user_event
                    == Some(PlayerEvent::SeekCompleted { requested, landed }),
                WorkerEvent::DurationChanged { duration_ms, .. } => next == state && user_event
                    == Some(PlayerEvent::DurationChanged { duration_ms }),
            }
            &&& !(event is Failed) ==> effect is None
            &&& (event is Failed && state == PlayerState::Released) ==> (next == state && effect is None)
        }),
{
}

/// Generations: an accepted seek starts the next generation and its outcome
/// belongs to it; every other command, and every refused one, keeps the
/// generation; a refused command changes nothing and reports the state and
/// the action it was refused.
pub proof fn lemma_commands_and_generations(
    state: PlayerState,
    epoch: PlaybackEpoch,
    command: PlayerCommand,
    next: PlayerState,
    next_epoch: PlaybackEpoch,
    r: Result<ControlOutcome, ControlError>,
)
    requires
        is_user_command_outcome(state, epoch, command, next, next_epoch, r),
    ensures
        (command is Seek && r is Ok) ==> next_epoch.value() == epoch.value() + 1 && (r matches Ok(
            outcome,
        ) && outcome.epoch == next_epoch),
        !(command is Seek && r is Ok) ==> next_epoch == epoch,
        r matches Err(ControlError::CommandRejected { transition, .. }) ==> next == state
            && transition.state() == state,
        next_state(state, command_action(command)) is None ==> (next == state && r is Err),
{
}

} // verus!
