//! The control loop, the decisions of the effect loop and of the playback
//! worker, cancellation and shutdown.
pub mod control_loop;
pub mod effect_executor;
pub mod pipeline_factory;
pub mod playback_executor;
pub mod playback_worker;
pub mod shutdown;
pub mod worker;

pub use control_loop::{ControlEffect, ControlLoop, ControlMessage, ControlOutcome};
pub use pipeline_factory::AudioPipelineFactory;
pub use playback_executor::{plan_effect, EffectPlan};
pub use playback_worker::{PlaybackWorker, PlaybackWorkerAction, WorkerStepOutcome, WorkerTick};
pub use effect_executor::{ControlError, EffectLoopExit, FeedbackDisconnected};
pub use shutdown::{ControlLoopExit, ShutdownReport, ThreadTermination};
pub use worker::{CancellationToken, WorkerEvent, WorkerJoinError};
