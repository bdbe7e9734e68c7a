//! The master clock, monotonic instants and audio/video synchronisation.
pub mod av_sync;
pub mod clock;
pub mod instant;

pub use av_sync::{AvSync, AvSyncError, VideoSyncDecision};
pub use clock::{AudioClock, ClockError, ClockSnapshot};
pub use instant::{MonotonicClock, MonotonicInstant};
