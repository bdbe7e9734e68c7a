//! The decisions of the effect executor of audio playback: which effect
//! spawns the playback worker, which is handed to it, and which shuts it
//! down. Spawning, sending and joining stay with the caller.
use crate::error::{PlaybackError, RuntimeError};
use crate::pipeline::epoch::PlaybackEpoch;
use crate::runtime::control_loop::ControlEffect;
use crate::runtime::playback_worker::PlaybackWorkerAction;
use vstd::prelude::*;

verus! {

/// What executing an effect comes down to.
#[derive(Debug)]
pub enum EffectPlan {
    /// Spawn the playback worker of the session.
    SpawnWorker,
    /// Hand an action to the running worker.
    SendToWorker(PlaybackWorkerAction),
    /// Shut the worker down, if there is one.
    ShutdownWorker,
    /// Nothing to do.
    Nothing,
}

/// The plan for `effect` of generation `effect_epoch`, executed with
/// feedback of generation `feedback_epoch`, while a worker exists or not.
///
/// Generations that differ are refused first. Preparing needs that no worker
/// exists yet; start, pause and seek need one; stop, release and the cleanup
/// after a failure shut it down.
pub open spec fn effect_plan(
    effect: ControlEffect,
    effect_epoch: PlaybackEpoch,
    feedback_epoch: PlaybackEpoch,
    has_worker: bool,
) -> Result<EffectPlan, PlaybackError> {
    if effect_epoch != feedback_epoch {
        Err(
            PlaybackError::Runtime(
                RuntimeError::EpochMismatch { expected: effect_epoch, actual: feedback_epoch },
            ),
        )
    } else {
        match effect {
            ControlEffect::BeginPrepare => if has_worker {
                Err(PlaybackError::Runtime(RuntimeError::WorkerAlreadyExists))
            } else {
                Ok(EffectPlan::SpawnWorker)
            },
            ControlEffect::StartPlayback => if has_worker {
                Ok(EffectPlan::SendToWorker(PlaybackWorkerAction::Start))
            } else {
                Err(PlaybackError::Runtime(RuntimeError::WorkerNotPrepared))
            },
            ControlEffect::PausePlayback => if has_worker {
                Ok(EffectPlan::SendToWorker(PlaybackWorkerAction::Pause))
            } else {
                Err(PlaybackError::Runtime(RuntimeError::WorkerNotPrepared))
            },
            ControlEffect::Seek(target) => if has_worker {
                Ok(EffectPlan::SendToWorker(PlaybackWorkerAction::Seek { target }))
            } else {
                Err(PlaybackError::Runtime(RuntimeError::WorkerNotPrepared))
            },
            ControlEffect::Stop | ControlEffect::Release | ControlEffect::CleanupAfterFailure => Ok(
                EffectPlan::ShutdownWorker,
            ),
            ControlEffect::NoEffect => Ok(EffectPlan::Nothing),
        }
    }
}

/// Decides how to execute `effect`; see `effect_plan`.
pub fn plan_effect(
    effect: ControlEffect,
    effect_epoch: PlaybackEpoch,
    feedback_epoch: PlaybackEpoch,
    has_worker: bool,
) -> (r: Result<EffectPlan, PlaybackError>)
    ensures
        r == effect_plan(effect, effect_epoch, feedback_epoch, has_worker),
{
    if effect_epoch != feedback_epoch {
        return Err(
            PlaybackError::Runtime(
                RuntimeError::EpochMismatch { expected: effect_epoch, actual: feedback_epoch },
            ),
        );
    }
    match effect {
        ControlEffect::BeginPrepare => {
            if has_worker {
                Err(PlaybackError::Runtime(RuntimeError::WorkerAlreadyExists))
            } else {
                Ok(EffectPlan::SpawnWorker)
            }
        },
        ControlEffect::StartPlayback => {
            if has_worker {
                Ok(EffectPlan::SendToWorker(PlaybackWorkerAction::Start))
            } else {
                Err(PlaybackError::Runtime(RuntimeError::WorkerNotPrepared))
            }
        },
        ControlEffect::PausePlayback => {
            if has_worker {
                Ok(EffectPlan::SendToWorker(PlaybackWorkerAction::Pause))
            } else {
                Err(PlaybackError::Runtime(RuntimeError::WorkerNotPrepared))
            }
        },
        ControlEffect::Seek(target) => {
            if has_worker {
                Ok(EffectPlan::SendToWorker(PlaybackWorkerAction::Seek { target }))
            } else {
                Err(PlaybackError::Runtime(RuntimeError::WorkerNotPrepared))
            }
        },
        ControlEffect::Stop | ControlEffect::Release | ControlEffect::CleanupAfterFailure => Ok(
            EffectPlan::ShutdownWorker,
        ),
        ControlEffect::NoEffect => Ok(EffectPlan::Nothing),
    }
}

/// An effect is never carried out for another generation than the feedback
/// it reports with, and a second worker is never spawned.
pub proof fn lemma_plan_is_guarded(
    effect: ControlEffect,
    effect_epoch: PlaybackEpoch,
    feedback_epoch: PlaybackEpoch,
    has_worker: bool,
)
    ensures
        effect_plan(effect, effect_epoch, feedback_epoch, has_worker) is Ok ==> effect_epoch
            == feedback_epoch,
        effect_plan(effect, effect_epoch, feedback_epoch, has_worker) matches Ok(
            EffectPlan::SpawnWorker,
        ) ==> !has_worker,
        effect_plan(effect, effect_epoch, feedback_epoch, has_worker) matches Ok(
            EffectPlan::SendToWorker(_),
        ) ==> has_worker,
{
}

/// With matching generations, starting, pausing and seeking are handed to a
/// running worker as the matching action (a seek with its target), and fail
/// with `WorkerNotPrepared` without one; preparing spawns a worker where
/// none runs and fails with `WorkerAlreadyExists` otherwise; stopping,
/// releasing and cleaning up after a failure shut the worker down in any
/// case; and no effect means no work.
pub proof fn lemma_plan_follows_the_effect(
    effect: ControlEffect,
    epoch: PlaybackEpoch,
    has_worker: bool,
)
    ensures
        ({
            let plan = effect_plan(effect, epoch, epoch, has_worker);
            &&& (effect is StartPlayback && has_worker) ==> (plan matches Ok(
                EffectPlan::SendToWorker(PlaybackWorkerAction::Start),
            ))
            &&& (effect is PausePlayback && has_worker) ==> (plan matches Ok(
                EffectPlan::SendToWorker(PlaybackWorkerAction::Pause),
            ))
            &&& match effect {
                ControlEffect::Seek(t) => has_worker ==> (plan matches Ok(
                    EffectPlan::SendToWorker(PlaybackWorkerAction::Seek { target: u }),
                ) && u == t),
                _ => true,
            }
            &&& ((effect is StartPlayback || effect is PausePlayback || effect is Seek) && !has_worker)
                ==> (plan matches Err(PlaybackError::Runtime(RuntimeError::WorkerNotPrepared)))
            &&& effect is BeginPrepare ==> (if has_worker {
                plan matches Err(PlaybackError::Runtime(RuntimeError::WorkerAlreadyExists))
            } else {
                plan matches Ok(EffectPlan::SpawnWorker)
            })
            &&& (effect is Stop || effect is Release || effect is CleanupAfterFailure) ==> (plan
                matches Ok(EffectPlan::ShutdownWorker))
            &&& effect is NoEffect ==> (plan matches Ok(EffectPlan::Nothing))
        }),
        effect_plan(effect, epoch, epoch, has_worker) matches Ok(EffectPlan::SendToWorker(_))
            ==> (effect is StartPlayback || effect is PausePlayback || effect is Seek),
{
}

} // verus!
