//! Timestamps, time bases, tracks, packet and frame metadata, media formats.
pub mod format;
pub mod frame;
pub mod packet;
pub mod order;
pub mod time;
pub mod track;

pub use format::{AudioCodecId, AudioTrackFormat, TrackFormat, VideoCodecId, VideoTrackFormat};
pub use frame::{AudioBuffer, AudioBufferError, AudioSamples, DecodedFrame};
pub use packet::Packet;
pub use time::{MediaDelta, MediaTime, Rounding, TimeBase, TimeError, TimeSpan, Timestamp};
pub use track::{TrackId, TrackInfo};
