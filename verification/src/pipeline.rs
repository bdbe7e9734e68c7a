//! Queues, back-pressure, end of stream, flush, seek generations and the
//! coordination of the data flow.
pub mod audio;
pub mod coordinator;
pub mod epoch;
pub mod playback;
pub mod queue;

pub use audio::{AudioEnqueueResult, AudioPhase, AudioPipeline, AudioPipelineError, AudioStepResult};
pub use coordinator::{coordinate_video_frame, CoordinateVideoError, VideoStepResult};
pub use epoch::{EpochError, EpochItem, PlaybackEpoch};
pub use playback::{PlaybackPipeline, PlaybackPipelineError, PlaybackStepResult, SeekOutcome};
pub use queue::{BoundedQueue, QueueError, QueuePushResult};
