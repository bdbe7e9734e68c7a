use moonegg_core::backends::pcm::PcmDecoder;
use moonegg_core::backends::simulated_audio::SimulatedAudioOutputFactory;
use moonegg_core::backends::wav_factory::pcm_audio_components;
use moonegg_core::error::{PlaybackError, RuntimeError};
use moonegg_core::media::{
    AudioBuffer, AudioSamples, DecodedFrame, MediaTime, AudioCodecId, AudioTrackFormat, TimeBase, TrackFormat, TrackId, TrackInfo, VideoCodecId,
    VideoTrackFormat,
};
use moonegg_core::pipeline::PlaybackPipelineError;
use moonegg_core::ports::{AudioOutput, AudioSubmitResult, DecodeError};
use moonegg_core::runtime::CancellationToken;

fn audio_track(codec: AudioCodecId, rate: u32, channels: u16) -> TrackInfo {
    TrackInfo::new(
        TrackId::new(3),
        TimeBase::from_hz(rate.max(1)).unwrap(),
        None,
        None,
        TrackFormat::Audio(AudioTrackFormat::new(codec, rate, channels, vec![7, 8])),
    )
}

#[test]
fn components_follow_the_track_format() {
    let factory = SimulatedAudioOutputFactory::new(1_024);
    let cancel = CancellationToken::new();
    let (_decoder, mut output): (PcmDecoder, _) =
        pcm_audio_components(&factory, &audio_track(AudioCodecId::PcmS16Le, 44_100, 2), &cancel).unwrap();
    assert_eq!(output.playback_position().unwrap().played_frames(), 0);
    let frame = DecodedFrame::new(
        TrackId::new(3),
        MediaTime::from_nanoseconds(0),
        AudioBuffer::new(44_100, 2, AudioSamples::I16(vec![1, 2, 3, 4])).unwrap(),
    );
    assert!(matches!(output.submit(frame), Ok(AudioSubmitResult::Accepted)));
    let mono = DecodedFrame::new(
        TrackId::new(3),
        MediaTime::from_nanoseconds(0),
        AudioBuffer::new(44_100, 1, AudioSamples::I16(vec![1, 2])).unwrap(),
    );
    assert!(output.submit(mono).is_err());
}

#[test]
fn components_report_each_refusal() {
    let factory = SimulatedAudioOutputFactory::new(1_024);
    let cancel = CancellationToken::new();
    assert!(matches!(
        pcm_audio_components(&factory, &audio_track(AudioCodecId::Aac, 44_100, 2), &cancel),
        Err(PlaybackError::Decode(DecodeError::Unsupported))
    ));
    assert!(matches!(
        pcm_audio_components(&factory, &audio_track(AudioCodecId::PcmS16Le, 0, 2), &cancel),
        Err(PlaybackError::Decode(DecodeError::InvalidData))
    ));
    let video = TrackInfo::new(
        TrackId::new(1),
        TimeBase::from_hz(90_000).unwrap(),
        None,
        None,
        TrackFormat::Video(VideoTrackFormat::new(VideoCodecId::H264, 16, 16, Vec::new())),
    );
    assert!(matches!(
        pcm_audio_components(&factory, &video, &cancel),
        Err(PlaybackError::Pipeline(PlaybackPipelineError::NoAudioTrack))
    ));
    cancel.cancel();
    assert!(matches!(
        pcm_audio_components(&factory, &audio_track(AudioCodecId::PcmS16Le, 8_000, 1), &cancel),
        Err(PlaybackError::Runtime(RuntimeError::Cancelled))
    ));
}
