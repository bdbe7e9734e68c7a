//! How a playback session builds its pipeline: open the container, pick its
//! first audio track, create the decoder and the output for it, and put the
//! pipeline together, giving up as soon as the session is cancelled.
use crate::error::{PlaybackError, RuntimeError};
use crate::media::format::TrackFormat;
use crate::media::frame::AudioBuffer;
use crate::media::track::{TrackId, TrackInfo};
use crate::pipeline::epoch::PlaybackEpoch;
use crate::pipeline::playback::{PlaybackPipeline, PlaybackPipelineError};
use crate::ports::audio_output::AudioOutput;
use crate::ports::decoder::Decoder;
use crate::ports::demuxer::Demuxer;
use crate::runtime::worker::CancellationToken;
use vstd::prelude::*;

verus! {

/// Whether `track` carries audio.
pub open spec fn is_audio_track(track: TrackInfo) -> bool {
    track.spec_format() is Audio
}

/// The position of the first audio track of `tracks`, or `None` when there
/// is none.
pub fn first_audio_track(tracks: &[TrackInfo]) -> (r: Option<usize>)
    ensures
        r is None <==> forall|i: int| 0 <= i < tracks@.len() ==> !is_audio_track(#[trigger] tracks@[i]),
        r matches Some(k) ==> k < tracks@.len() && is_audio_track(tracks@[k as int]) && forall|
            j: int,
        | 0 <= j < k ==> !is_audio_track(#[trigger] tracks@[j]),
{
    let mut i: usize = 0;
    while i < tracks.len()
        invariant
            i <= tracks@.len(),
            forall|j: int| 0 <= j < i ==> !is_audio_track(#[trigger] tracks@[j]),
        decreases tracks@.len() - i,
    {
        let is_audio = match tracks[i].format() {
            TrackFormat::Audio(_) => true,
            _ => false,
        };
        if is_audio {
            return Some(i);
        }
        i = i + 1;
    }
    None
}

/// `track_id` is the id of the first audio track of `tracks`.
pub open spec fn plays_first_audio_track(tracks: Seq<TrackInfo>, track_id: TrackId) -> bool {
    exists|k: int|
        0 <= k < tracks.len() && is_audio_track(tracks[k]) && (forall|j: int|
            0 <= j < k ==> !is_audio_track(#[trigger] tracks[j])) && #[trigger] tracks[k].id()
            == track_id
}

/// The error of a cancelled session.
pub open spec fn cancelled_error() -> PlaybackError {
    PlaybackError::Runtime(RuntimeError::Cancelled)
}

/// Fails with `Cancelled` once the session was cancelled. Another thread
/// may cancel at any time, so nothing is known beforehand of the answer.
pub fn check_cancellation(cancel: &CancellationToken) -> (r: Result<(), PlaybackError>)
    ensures
        r matches Err(e) ==> e == cancelled_error(),
{
    if cancel.is_canceled() {
        Err(PlaybackError::Runtime(RuntimeError::Cancelled))
    } else {
        Ok(())
    }
}

/// Builds the playback pipelines of a kind of source.
pub trait AudioPipelineFactory {
    type Demux: Demuxer;
    type Decode: Decoder<Output = AudioBuffer>;
    type Output: AudioOutput;

    /// Opens the container.
    fn open_demuxer(&self, cancel: &CancellationToken) -> Result<Self::Demux, PlaybackError>;

    /// Creates the decoder and the output for `track`.
    fn create_audio_components(&self, track: &TrackInfo, cancel: &CancellationToken) -> Result<
        (Self::Decode, Self::Output),
        PlaybackError,
    >;

    /// How many packets the pipeline may queue.
    fn packet_capacity(&self) -> usize;

    /// Fails with `Cancelled` once the session was cancelled.
    fn check_canceled(cancel: &CancellationToken) -> (r: Result<(), PlaybackError>)
        ensures
            r matches Err(e) ==> e == cancelled_error(),
    {
        check_cancellation(cancel)
    }

    /// Builds the pipeline of generation `epoch` on the first audio track of
    /// the container; without one it fails with `NoAudioTrack`. The session's
    /// cancellation is checked before each stage.
    fn build(&self, epoch: PlaybackEpoch, cancel: &CancellationToken) -> (r: Result<
        PlaybackPipeline<Self::Demux, Self::Decode, Self::Output>,
        PlaybackError,
    >)
        ensures
            r matches Ok(p) ==> p.wf() && p.spec_epoch() == epoch && plays_first_audio_track(
                p.source_tracks(),
                p.audio_track(),
            ),
    {
        Self::check_canceled(cancel)?;
        let demuxer = self.open_demuxer(cancel)?;
        Self::check_canceled(cancel)?;
        self.build_on(demuxer, epoch, cancel)
    }

    /// Builds the pipeline of generation `epoch` on the opened `demuxer`: on
    /// its first audio track, or fails with `NoAudioTrack` when it has none.
    fn build_on(&self, demuxer: Self::Demux, epoch: PlaybackEpoch, cancel: &CancellationToken) -> (r:
        Result<PlaybackPipeline<Self::Demux, Self::Decode, Self::Output>, PlaybackError>)
        ensures
            (forall|i: int|
                0 <= i < demuxer.spec_tracks().len() ==> !is_audio_track(
                    #[trigger] demuxer.spec_tracks()[i],
                )) ==> r == Err::<PlaybackPipeline<Self::Demux, Self::Decode, Self::Output>, PlaybackError>(
                PlaybackError::Pipeline(PlaybackPipelineError::NoAudioTrack),
            ),
            r matches Ok(p) ==> p.wf() && p.spec_epoch() == epoch && p.source_tracks()
                == demuxer.spec_tracks() && plays_first_audio_track(p.source_tracks(), p.audio_track()),
    {
        let tracks = demuxer.tracks();
        let index = match first_audio_track(tracks) {
            Some(index) => index,
            None => return Err(PlaybackError::Pipeline(PlaybackPipelineError::NoAudioTrack)),
        };
        let track = &tracks[index];
        let track_id = track.id();
        let (decoder, output) = self.create_audio_components(track, cancel)?;
        Self::check_canceled(cancel)?;
        let capacity = self.packet_capacity();
        match PlaybackPipeline::new(demuxer, decoder, output, track_id, epoch, capacity) {
            Ok(pipeline) => Ok(pipeline),
            Err(e) => Err(PlaybackError::Pipeline(e)),
        }
    }
}

} // verus!
