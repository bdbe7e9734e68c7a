//! The ports to demuxers, decoders and audio and video outputs.
pub mod audio_output;
pub mod decoder;
pub mod demuxer;
pub mod video_output;

pub use audio_output::{
    AudioOutput, AudioOutputError, AudioOutputFactory, AudioPlaybackPosition, AudioSubmitResult,
};
pub use decoder::{DecodeError, DecodeInput, Decoder, ReceiveResult, SubmitResult};
pub use demuxer::{DemuxError, Demuxer, ReadPacketResult};
pub use video_output::{VideoOutput, VideoOutputError, VideoSubmitResult};
