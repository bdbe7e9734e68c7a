//! Worker events and cooperative cancellation.
use crate::error::PlaybackError;
use crate::media::time::MediaTime;
use crate::pipeline::epoch::PlaybackEpoch;
use std::sync::atomic::AtomicBool;
use std::sync::Arc;
use vstd::prelude::*;

verus! {

/// What a playback worker reports back, tagged with the generation it
/// worked for.
#[derive(Debug)]
pub enum WorkerEvent {
    PreparationCompleted { epoch: PlaybackEpoch },
    Failed { epoch: PlaybackEpoch, error: PlaybackError },
    AudioProgress { epoch: PlaybackEpoch, media_time: MediaTime },
    PlaybackCompleted { epoch: PlaybackEpoch },
    SeekCompleted { epoch: PlaybackEpoch, requested: MediaTime, landed: MediaTime },
    DurationChanged { epoch: PlaybackEpoch, duration_ms: Option<i64> },
}

impl WorkerEvent {
    /// The generation of the event.
    pub open spec fn spec_epoch(&self) -> PlaybackEpoch {
        match self {
            WorkerEvent::PreparationCompleted { epoch } => *epoch,
            WorkerEvent::Failed { epoch, .. } => *epoch,
            WorkerEvent::AudioProgress { epoch, .. } => *epoch,
            WorkerEvent::PlaybackCompleted { epoch } => *epoch,
            WorkerEvent::SeekCompleted { epoch, .. } => *epoch,
            WorkerEvent::DurationChanged { epoch, .. } => *epoch,
        }
    }

    #[verifier::when_used_as_spec(spec_epoch)]
    pub fn epoch(&self) -> (r: PlaybackEpoch)
        ensures
            r == self.spec_epoch(),
    {
        match self {
            WorkerEvent::PreparationCompleted { epoch } => *epoch,
            WorkerEvent::Failed { epoch, .. } => *epoch,
            WorkerEvent::AudioProgress { epoch, .. } => *epoch,
            WorkerEvent::PlaybackCompleted { epoch } => *epoch,
            WorkerEvent::SeekCompleted { epoch, .. } => *epoch,
            WorkerEvent::DurationChanged { epoch, .. } => *epoch,
        }
    }

    /// Whether the event belongs to generation `current`; a stale result
    /// must not take effect.
    pub fn is_current(&self, current: PlaybackEpoch) -> (r: bool)
        ensures
            r == (self.epoch() == current),
    {
        self.epoch() == current
    }
}

/// A flag shared between the owner of a worker and the worker, raised to ask
/// the worker to stop.
#[derive(Debug, Clone)]
pub struct CancellationToken {
    cancelled: Arc<AtomicBool>,
}

impl CancellationToken {
    /// A token that is not raised.
    pub fn new() -> (r: CancellationToken) {
        CancellationToken { cancelled: Arc::new(AtomicBool::new(false)) }
    }

    /// Raises the token for every holder of a clone of it.
    pub fn cancel(&self) {
        self.cancelled.store(true, std::sync::atomic::Ordering::Release);
    }

    /// Whether some holder raised the token. Other threads may raise it at
    /// any time, so nothing is known of the answer beforehand.
    pub fn is_canceled(&self) -> (r: bool) {
        self.cancelled.load(std::sync::atomic::Ordering::Acquire)
    }
}

#[derive(Debug, Clone, Copy, PartialEq, Eq, Structural)]
pub enum WorkerJoinError {
    Panicked,
}

/// The outcome of joining a group of workers: the first failure among the
/// joins, in the order they were made, or success when all succeeded.
pub fn first_join_error(results: &[Result<(), WorkerJoinError>]) -> (r: Result<(), WorkerJoinError>)
    ensures
        r is Ok <==> forall|i: int| 0 <= i < results@.len() ==> (#[trigger] results@[i]) is Ok,
        r matches Err(e) ==> exists|i: int|
            0 <= i < results@.len() && #[trigger] results@[i] == Err::<(), WorkerJoinError>(e)
                && forall|j: int| 0 <= j < i ==> (#[trigger] results@[j]) is Ok,
{
    let mut i: usize = 0;
    while i < results.len()
        invariant
            i <= results@.len(),
            forall|j: int| 0 <= j < i ==> (#[trigger] results@[j]) is Ok,
        decreases results@.len() - i,
    {
        match results[i] {
            Ok(()) => {},
            Err(e) => return Err(e),
        }
        i = i + 1;
    }
    Ok(())
}

} // verus!
