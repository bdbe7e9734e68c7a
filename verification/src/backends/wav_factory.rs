//! The audio components of WAV playback: a PCM decoder for the track and an
//! output from the given factory, checking the session's cancellation
//! between the stages.
use crate::backends::pcm::{pcm_format_check, PcmDecoder};
use crate::error::PlaybackError;
use crate::media::format::TrackFormat;
use crate::media::track::TrackInfo;
use crate::pipeline::playback::PlaybackPipelineError;
use crate::ports::audio_output::{is_fresh_output, AudioOutput, AudioOutputFactory};
use crate::ports::decoder::{DecodeInput, Decoder};
use crate::runtime::pipeline_factory::{cancelled_error, check_cancellation};
use crate::runtime::worker::CancellationToken;
use vstd::prelude::*;

verus! {

/// How many packets a WAV playback pipeline may queue.
pub const WAV_PACKET_CAPACITY: usize = 8;

/// The decoder and the output for `track`. A track that is not audio fails
/// with `NoAudioTrack`; a format that the PCM decoder refuses fails with its
/// decode error; an output that cannot be created fails with its error; a
/// cancelled session fails with `Cancelled`. The decoder gets a copy of the
/// track's format, and the output is created for that format.
pub fn pcm_audio_components<F: AudioOutputFactory>(
    output_factory: &F,
    track: &TrackInfo,
    cancel: &CancellationToken,
) -> (r: Result<(PcmDecoder, F::Output), PlaybackError>)
    ensures
        match track.spec_format() {
            TrackFormat::Audio(f) => {
                &&& r matches Err(e) ==> (e == cancelled_error() || e is Decode || e is AudioOutput)
                &&& (r matches Err(PlaybackError::Decode(e)) ==> pcm_format_check(f) == Some(e))
                &&& (pcm_format_check(f) matches Some(e) ==> (r matches Err(x) && (x
                    == PlaybackError::Decode(e) || x == cancelled_error())))
                &&& (r matches Err(PlaybackError::AudioOutput(_)) ==> pcm_format_check(f) is None)
                &&& (r matches Ok((decoder, output)) ==> {
                    &&& decoder.spec_track_id() == track.id()
                    &&& decoder.spec_format().same_as(f)
                    &&& decoder.pending() is None && !decoder.input_ended()
                    &&& decoder.taken_inputs() == Seq::<DecodeInput>::empty()
                    &&& is_fresh_output(output)
                    &&& output.created_for() == (f.sample_rate(), f.channel_count())
                })
            },
            _ => r matches Err(e) && (e == cancelled_error() || e == PlaybackError::Pipeline(
                PlaybackPipelineError::NoAudioTrack,
            )),
        },
{
    check_cancellation(cancel)?;
    let format = match track.format() {
        TrackFormat::Audio(format) => format,
        _ => return Err(PlaybackError::Pipeline(PlaybackPipelineError::NoAudioTrack)),
    };
    let decoder = match PcmDecoder::new(track.id(), format.duplicate()) {
        Ok(decoder) => decoder,
        Err(e) => return Err(PlaybackError::Decode(e)),
    };
    check_cancellation(cancel)?;
    let output = match output_factory.create(format) {
        Ok(output) => output,
        Err(e) => return Err(PlaybackError::AudioOutput(e)),
    };
    check_cancellation(cancel)?;
    Ok((decoder, output))
}

} // verus!
