//! The errors of playback: recoverable and fatal, of input, of backends and
//! of the runtime.
use crate::pipeline::epoch::PlaybackEpoch;
use crate::pipeline::playback::PlaybackPipelineError;
use crate::ports::audio_output::AudioOutputError;
use crate::ports::decoder::DecodeError;
use crate::ports::demuxer::DemuxError;
use crate::ports::video_output::VideoOutputError;
use vstd::prelude::*;

verus! {

#[verifier::external_type_specification]
#[verifier::external_body]
pub struct ExIoError(std::io::Error);

/// Why playback failed.
#[derive(Debug)]
pub enum PlaybackError {
    Demux(DemuxError),
    Decode(DecodeError),
    AudioOutput(AudioOutputError),
    VideoOutput(VideoOutputError),
    Pipeline(PlaybackPipelineError),
    Runtime(RuntimeError),
}

/// Failures of the threads and sessions that run playback.
#[derive(Debug)]
pub enum RuntimeError {
    THreadSpawn(std::io::Error),
    WorkerDisconnected,
    WorkerPanicked,
    SessionFailed,
    EpochMismatch { expected: PlaybackEpoch, actual: PlaybackEpoch },
    WorkerAlreadyExists,
    WorkerNotPrepared,
    Cancelled,
}

} // verus!
