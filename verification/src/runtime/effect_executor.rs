//! The decisions of the effect loop, which performs the effects that the
//! control loop asks for and reports what became of them.
use crate::error::PlaybackError;
use crate::pipeline::epoch::{EpochError, PlaybackEpoch};
use crate::player::command::PlayerCommand;
use crate::player::event::PlayerEvent;
use crate::player::state::InvalidTransition;
use crate::runtime::control_loop::ControlEffect;
use crate::runtime::worker::WorkerEvent;
use vstd::prelude::*;

verus! {

/// Why the control loop could not handle a message.
#[derive(Debug)]
pub enum ControlError {
    /// The state machine refused a command.
    CommandRejected { command: PlayerCommand, transition: InvalidTransition },
    /// No later generation is left for a seek.
    Epoch(EpochError),
}

/// Why the effect loop ended.
#[derive(Debug)]
pub enum EffectLoopExit {
    Released,
    ResultsDisconnected,
    EventsDisconnected,
    FeedbackDisconnected,
    ControlFailed(ControlError),
    TerminalEffectFailed(PlaybackError),
}

/// The receiver of worker feedback went away.
#[derive(Debug, Clone, Copy, PartialEq, Eq, Structural)]
pub struct FeedbackDisconnected;

/// What the effect loop does with an error of the control loop.
#[derive(Debug)]
pub enum ControlErrorAction {
    /// Tell the user, and go on.
    Report(PlayerEvent),
    /// End the loop.
    Exit(EffectLoopExit),
}

/// A refused command is reported to the user as a rejection in the state
/// that refused it, and the loop goes on; any other error ends the loop.
pub fn on_control_error(error: ControlError) -> (r: ControlErrorAction)
    ensures
        match error {
            ControlError::CommandRejected { command, transition } => r matches ControlErrorAction::Report(
                PlayerEvent::CommandRejected { command: c, state: s },
            ) && c == command && s == transition.state(),
            _ => r matches ControlErrorAction::Exit(EffectLoopExit::ControlFailed(e)) && e == error,
        },
{
    match error {
        ControlError::CommandRejected { command, transition } => ControlErrorAction::Report(
            PlayerEvent::CommandRejected { command, state: transition.state() },
        ),
        other => ControlErrorAction::Exit(EffectLoopExit::ControlFailed(other)),
    }
}

/// What the effect loop does once an effect was executed.
#[derive(Debug)]
pub enum EffectOutcomeAction {
    /// Wait for the next control result.
    Continue,
    /// End the loop.
    Exit(EffectLoopExit),
    /// Feed the failure back to the control loop as a worker event, then go
    /// on (see `after_failure_report`).
    ReportFailure(WorkerEvent),
}

/// Whether an effect ends the session: a release, or the cleanup after a
/// fatal error.
pub open spec fn is_terminal_effect(effect: ControlEffect) -> bool {
    effect is Release || effect is CleanupAfterFailure
}

/// What the loop must do after executing `effect` of generation `epoch`
/// with `result`.
///
/// On success the loop ends if the user's event could not be delivered, or
/// with `Released` after a release, and goes on otherwise. A failure of a
/// terminal effect ends the loop with that failure; any other failure is fed
/// back to the control loop, tagged with the effect's generation.
pub open spec fn is_effect_outcome(
    effect: ControlEffect,
    epoch: PlaybackEpoch,
    result: Result<(), PlaybackError>,
    event_disconnected: bool,
    r: EffectOutcomeAction,
) -> bool {
    match result {
        Ok(()) => if event_disconnected {
            r matches EffectOutcomeAction::Exit(EffectLoopExit::EventsDisconnected)
        } else if effect is Release {
            r matches EffectOutcomeAction::Exit(EffectLoopExit::Released)
        } else {
            r matches EffectOutcomeAction::Continue
        },
        Err(error) => if is_terminal_effect(effect) {
            r matches EffectOutcomeAction::Exit(EffectLoopExit::TerminalEffectFailed(e)) && e
                == error
        } else {
            r matches EffectOutcomeAction::ReportFailure(WorkerEvent::Failed { epoch: x, error: e })
                && x == epoch && e == error
        },
    }
}

/// Decides after executing `effect` of generation `epoch`.
pub fn on_effect_result(
    effect: &ControlEffect,
    epoch: PlaybackEpoch,
    result: Result<(), PlaybackError>,
    event_disconnected: bool,
) -> (r: EffectOutcomeAction)
    ensures
        is_effect_outcome(*effect, epoch, result, event_disconnected, r),
{
    let releasing = match effect {
        ControlEffect::Release => true,
        _ => false,
    };
    let cleanup_after_failure = match effect {
        ControlEffect::CleanupAfterFailure => true,
        _ => false,
    };
    match result {
        Ok(()) => {
            if event_disconnected {
                return EffectOutcomeAction::Exit(EffectLoopExit::EventsDisconnected);
            }
            if releasing {
                return EffectOutcomeAction::Exit(EffectLoopExit::Released);
            }
            EffectOutcomeAction::Continue
        },
        Err(error) => {
            if releasing || cleanup_after_failure {
                return EffectOutcomeAction::Exit(EffectLoopExit::TerminalEffectFailed(error));
            }
            EffectOutcomeAction::ReportFailure(WorkerEvent::Failed { epoch, error })
        },
    }
}

/// After a failure was fed back: the loop ends if the feedback could not be
/// delivered, or else if the user's event could not be; otherwise it goes on.
pub fn after_failure_report(feedback_sent: bool, event_disconnected: bool) -> (r: Option<
    EffectLoopExit,
>)
    ensures
        !feedback_sent ==> r matches Some(EffectLoopExit::FeedbackDisconnected),
        feedback_sent && event_disconnected ==> r matches Some(EffectLoopExit::EventsDisconnected),
        feedback_sent && !event_disconnected ==> r is None,
{
    if !feedback_sent {
        return Some(EffectLoopExit::FeedbackDisconnected);
    }
    if event_disconnected {
        return Some(EffectLoopExit::EventsDisconnected);
    }
    None
}

/// After a result without an effect: the loop ends only if the user's event
/// could not be delivered.
pub fn after_event_only(event_disconnected: bool) -> (r: Option<EffectLoopExit>)
    ensures
        event_disconnected <==> r is Some,
        r matches Some(e) ==> e is EventsDisconnected,
{
    if event_disconnected {
        Some(EffectLoopExit::EventsDisconnected)
    } else {
        None
    }
}

/// The effect loop ends with `Released` only after a release was executed
/// successfully and its event was delivered; a failed effect never lets the
/// loop go on silently: it ends the loop or is fed back.
pub proof fn lemma_released_only_after_release(
    effect: ControlEffect,
    epoch: PlaybackEpoch,
    result: Result<(), PlaybackError>,
    event_disconnected: bool,
    r: EffectOutcomeAction,
)
    requires
        is_effect_outcome(effect, epoch, result, event_disconnected, r),
    ensures
        r matches EffectOutcomeAction::Exit(EffectLoopExit::Released) ==> effect is Release
            && result is Ok && !event_disconnected,
        result is Err ==> !(r is Continue),
{
}

} // verus!
