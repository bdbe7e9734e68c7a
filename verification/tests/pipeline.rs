use moonegg_core::media::{TrackFormat, TrackInfo, VideoCodecId, VideoTrackFormat};
use moonegg_core::pipeline::playback::check_audio_track;
use moonegg_core::backends::pcm::{decode_pcm_packet, PcmDecoder};
use moonegg_core::backends::simulated_audio::SimulatedAudioOutput;
use moonegg_core::backends::wav::WavDemuxer;
use moonegg_core::media::{
    AudioCodecId, AudioSamples, AudioTrackFormat, MediaTime, Packet, TimeBase, TimeSpan,
    Timestamp, TrackId,
};
use moonegg_core::pipeline::{
    AudioEnqueueResult, AudioPipeline, AudioPipelineError, AudioStepResult, EpochItem,
    PlaybackEpoch, PlaybackPipeline, PlaybackPipelineError, PlaybackStepResult,
};
use moonegg_core::ports::{DecodeError, DecodeInput, Decoder, ReceiveResult, SubmitResult};

fn mono_format(rate: u32) -> AudioTrackFormat {
    AudioTrackFormat::new(AudioCodecId::PcmS16Le, rate, 1, Vec::new())
}

fn packet(track: u32, samples: &[i16], start_frame: i64, rate: u32) -> Packet {
    let time_base = TimeBase::from_hz(rate).unwrap();
    let data: Vec<u8> = samples.iter().flat_map(|s| s.to_le_bytes()).collect();
    Packet::new(
        TrackId::new(track),
        data,
        Some(Timestamp::new(start_frame, time_base)),
        Some(Timestamp::new(start_frame, time_base)),
        Some(TimeSpan::new(samples.len() as u64, time_base)),
        true,
    )
}

#[test]
fn decodes_pcm_packets_into_samples_with_pts_in_nanoseconds() {
    let frame = decode_pcm_packet(packet(0, &[1, -2, 300], 8_000, 8_000), &mono_format(8_000)).unwrap();
    assert_eq!(frame.pts().nanoseconds(), 1_000_000_000);
    assert_eq!(frame.track_id().value(), 0);
    match frame.payload().samples() {
        AudioSamples::I16(samples) => assert_eq!(samples, &vec![1, -2, 300]),
        AudioSamples::F32(_) => panic!("expected 16-bit samples"),
    }
    assert_eq!(frame.payload().frame_count(), 3);
}

#[test]
fn pcm_decoding_errors() {
    let stereo = AudioTrackFormat::new(AudioCodecId::PcmS16Le, 8_000, 2, Vec::new());
    assert_eq!(
        decode_pcm_packet(packet(0, &[1, 2, 3], 0, 8_000), &stereo).err().unwrap(),
        DecodeError::InvalidData
    );
    let aac = AudioTrackFormat::new(AudioCodecId::Aac, 8_000, 1, Vec::new());
    assert_eq!(decode_pcm_packet(packet(0, &[1], 0, 8_000), &aac).err().unwrap(), DecodeError::Unsupported);
    assert_eq!(PcmDecoder::new(TrackId::new(0), aac).err().unwrap(), DecodeError::Unsupported);
}

#[test]
fn pcm_decoder_holds_one_frame_and_drains_after_end_of_stream() {
    let mut decoder = PcmDecoder::new(TrackId::new(0), mono_format(8_000)).unwrap();
    assert!(matches!(decoder.receive().unwrap(), ReceiveResult::NotReady));
    assert!(matches!(
        decoder.submit(DecodeInput::Packet(packet(0, &[5], 0, 8_000))).unwrap(),
        SubmitResult::Accepted
    ));
    // A second packet waits until the first frame was taken.
    assert!(matches!(
        decoder.submit(DecodeInput::Packet(packet(0, &[6], 1, 8_000))).unwrap(),
        SubmitResult::Backpressure(DecodeInput::Packet(_))
    ));
    assert!(matches!(decoder.receive().unwrap(), ReceiveResult::Frame(_)));
    assert!(matches!(decoder.submit(DecodeInput::EndOfStream).unwrap(), SubmitResult::Accepted));
    assert!(matches!(decoder.receive().unwrap(), ReceiveResult::EndOfStream));
    assert_eq!(
        decoder.submit(DecodeInput::EndOfStream).err().unwrap(),
        DecodeError::InvalidState
    );
    // A packet of another track is refused.
    let mut other = PcmDecoder::new(TrackId::new(0), mono_format(8_000)).unwrap();
    assert_eq!(
        other.submit(DecodeInput::Packet(packet(7, &[1], 0, 8_000))).err().unwrap(),
        DecodeError::InvalidData
    );
}

fn audio_pipeline(capacity: usize) -> AudioPipeline<PcmDecoder, SimulatedAudioOutput> {
    let decoder = PcmDecoder::new(TrackId::new(0), mono_format(8_000)).unwrap();
    let output = SimulatedAudioOutput::new(8_000, 1, 4_096).unwrap();
    AudioPipeline::new(decoder, output, TrackId::new(0), PlaybackEpoch::initial(), capacity).unwrap()
}

#[test]
fn audio_pipeline_refuses_other_generations_and_tracks() {
    let mut pipeline = audio_pipeline(1);
    let later = PlaybackEpoch::initial().next().unwrap();
    match pipeline.try_push_packet(EpochItem::new(later, packet(0, &[1], 0, 8_000))).unwrap() {
        AudioEnqueueResult::EpochMismatch(item) => assert_eq!(item.epoch(), later),
        other => panic!("unexpected {other:?}"),
    }
    assert!(matches!(
        pipeline.try_push_packet(EpochItem::new(PlaybackEpoch::initial(), packet(3, &[1], 0, 8_000))),
        Err(AudioPipelineError::WrongTrack)
    ));
    assert!(matches!(
        pipeline.try_push_packet(EpochItem::new(PlaybackEpoch::initial(), packet(0, &[1], 0, 8_000))).unwrap(),
        AudioEnqueueResult::Accepted
    ));
    assert!(matches!(
        pipeline.try_push_packet(EpochItem::new(PlaybackEpoch::initial(), packet(0, &[2], 1, 8_000))).unwrap(),
        AudioEnqueueResult::Backpressure(_)
    ));
    assert!(pipeline.end_input(PlaybackEpoch::initial()));
    assert!(matches!(
        pipeline.try_push_packet(EpochItem::new(PlaybackEpoch::initial(), packet(0, &[2], 1, 8_000))),
        Err(AudioPipelineError::InputClosed)
    ));
    assert!(!pipeline.end_input(later));
}

#[test]
fn audio_pipeline_runs_to_the_drained_decoder() {
    let mut pipeline = audio_pipeline(4);
    for i in 0..3 {
        let item = EpochItem::new(PlaybackEpoch::initial(), packet(0, &[i as i16; 10], i * 10, 8_000));
        assert!(matches!(pipeline.try_push_packet(item).unwrap(), AudioEnqueueResult::Accepted));
    }
    assert!(pipeline.end_input(PlaybackEpoch::initial()));
    let mut steps = 0;
    loop {
        steps += 1;
        assert!(steps < 100, "the pipeline must drain");
        match pipeline.step().unwrap() {
            AudioStepResult::DecoderDrained => break,
            AudioStepResult::Progress | AudioStepResult::Blocked => {}
        }
    }
    assert_eq!(pipeline.epoch(), PlaybackEpoch::initial());
    assert!(!pipeline.is_finished().unwrap());
}

#[test]
fn audio_pipeline_capacity_must_be_positive() {
    let decoder = PcmDecoder::new(TrackId::new(0), mono_format(8_000)).unwrap();
    let output = SimulatedAudioOutput::new(8_000, 1, 4_096).unwrap();
    assert!(AudioPipeline::new(decoder, output, TrackId::new(0), PlaybackEpoch::initial(), 0).is_err());
}

fn wav_bytes(samples: &[i16], rate: u32) -> Vec<u8> {
    let data: Vec<u8> = samples.iter().flat_map(|s| s.to_le_bytes()).collect();
    let mut fmt = Vec::new();
    fmt.extend_from_slice(&1u16.to_le_bytes());
    fmt.extend_from_slice(&1u16.to_le_bytes());
    fmt.extend_from_slice(&rate.to_le_bytes());
    fmt.extend_from_slice(&(rate * 2).to_le_bytes());
    fmt.extend_from_slice(&2u16.to_le_bytes());
    fmt.extend_from_slice(&16u16.to_le_bytes());
    let mut bytes = Vec::new();
    bytes.extend_from_slice(b"RIFF");
    bytes.extend_from_slice(&((4 + 8 + fmt.len() + 8 + data.len()) as u32).to_le_bytes());
    bytes.extend_from_slice(b"WAVE");
    bytes.extend_from_slice(b"fmt ");
    bytes.extend_from_slice(&(fmt.len() as u32).to_le_bytes());
    bytes.extend_from_slice(&fmt);
    bytes.extend_from_slice(b"data");
    bytes.extend_from_slice(&(data.len() as u32).to_le_bytes());
    bytes.extend_from_slice(&data);
    bytes
}

fn playback(samples: usize) -> PlaybackPipeline<WavDemuxer, PcmDecoder, SimulatedAudioOutput> {
    let demuxer = WavDemuxer::from_bytes(wav_bytes(&vec![3; samples], 8_000)).unwrap();
    let decoder = PcmDecoder::new(TrackId::new(0), mono_format(8_000)).unwrap();
    let output = SimulatedAudioOutput::new(8_000, 1, 16_384).unwrap();
    PlaybackPipeline::new(demuxer, decoder, output, TrackId::new(0), PlaybackEpoch::initial(), 8).unwrap()
}

#[test]
fn playback_pipeline_reads_decodes_and_drains() {
    let mut pipeline = playback(3_000);
    let mut steps = 0;
    loop {
        steps += 1;
        assert!(steps < 1_000, "the pipeline must drain");
        match pipeline.step().unwrap() {
            PlaybackStepResult::DecoderDrained => break,
            PlaybackStepResult::Progress | PlaybackStepResult::Blocked => {}
        }
    }
    let snapshot = pipeline.clock_snapshot().unwrap();
    assert_eq!(snapshot.media_time().nanoseconds(), 0);
}

#[test]
fn playback_pipeline_needs_an_audio_track_it_knows() {
    let demuxer = WavDemuxer::from_bytes(wav_bytes(&[1, 2], 8_000)).unwrap();
    let decoder = PcmDecoder::new(TrackId::new(0), mono_format(8_000)).unwrap();
    let output = SimulatedAudioOutput::new(8_000, 1, 1_024).unwrap();
    assert!(matches!(
        PlaybackPipeline::new(demuxer, decoder, output, TrackId::new(9), PlaybackEpoch::initial(), 8),
        Err(PlaybackPipelineError::TrackNotFound)
    ));
}

#[test]
fn seek_moves_the_pipeline_to_the_new_generation() {
    let mut pipeline = playback(16_000);
    pipeline.step().unwrap();
    let next = PlaybackEpoch::initial().next().unwrap();
    let outcome = pipeline.seek(MediaTime::from_nanoseconds(500_000_000), next).unwrap();
    assert_eq!(outcome.landed.nanoseconds(), 500_000_000);
    assert_eq!(pipeline.epoch(), next);
    let snapshot = pipeline.clock_snapshot().unwrap();
    assert_eq!(snapshot.media_time().nanoseconds(), 500_000_000);
}

#[test]
fn audio_track_checks() {
    let tb = TimeBase::from_hz(8_000).unwrap();
    let video = TrackInfo::new(
        TrackId::new(0),
        tb,
        None,
        None,
        TrackFormat::Video(VideoTrackFormat::new(VideoCodecId::H264, 16, 16, Vec::new())),
    );
    let audio = TrackInfo::new(TrackId::new(1), tb, None, None, TrackFormat::Audio(mono_format(8_000)));
    assert!(matches!(check_audio_track(&[video.clone(), audio.clone()], TrackId::new(0)), Err(PlaybackPipelineError::NotAudioTrack)));
    assert_eq!(check_audio_track(&[video.clone(), audio.clone()], TrackId::new(1)).unwrap(), 8_000);
    assert!(matches!(check_audio_track(&[video], TrackId::new(5)), Err(PlaybackPipelineError::TrackNotFound)));
}

fn audio_frame(track: u32, samples: Vec<i16>) -> moonegg_core::media::DecodedFrame<moonegg_core::media::AudioBuffer> {
    moonegg_core::media::DecodedFrame::new(
        TrackId::new(track),
        MediaTime::from_nanoseconds(0),
        moonegg_core::media::AudioBuffer::new(8_000, 1, AudioSamples::I16(samples)).unwrap(),
    )
}

#[test]
fn received_results_decide_the_branch() {
    let mut pipeline = audio_pipeline(2);
    assert!(matches!(
        pipeline.accept_received(ReceiveResult::Frame(audio_frame(4, vec![1]))),
        Err(AudioPipelineError::WrongTrack)
    ));
    assert!(!pipeline.accept_received(ReceiveResult::NotReady).unwrap());
    assert!(matches!(
        pipeline.accept_received(ReceiveResult::EndOfStream),
        Err(AudioPipelineError::UnexpectedDecoderEos)
    ));
    assert!(pipeline.accept_received(ReceiveResult::Frame(audio_frame(0, vec![1, 2]))).unwrap());
    // The frame waits and goes to the output on the next step.
    assert!(matches!(pipeline.step().unwrap(), AudioStepResult::Progress));
}

#[test]
fn a_drained_branch_ends_the_playback_step() {
    let mut pipeline = playback(100);
    assert!(matches!(
        pipeline.after_audio_step(AudioStepResult::DecoderDrained).unwrap(),
        PlaybackStepResult::DecoderDrained
    ));
    assert!(matches!(
        pipeline.after_audio_step(AudioStepResult::Progress).unwrap(),
        PlaybackStepResult::Progress
    ));
    // The source reads its one packet, then ends the branch's input.
    assert!(matches!(
        pipeline.after_audio_step(AudioStepResult::Blocked).unwrap(),
        PlaybackStepResult::Progress
    ));
}

#[test]
fn seek_needs_a_later_generation() {
    let mut pipeline = playback(16_000);
    let current = pipeline.epoch();
    assert!(matches!(
        pipeline.seek(MediaTime::from_nanoseconds(0), current),
        Err(PlaybackPipelineError::InvalidSeekEpoch { current: c, requested: q }) if c == current && q == current
    ));
    let later = current.next().unwrap();
    assert!(pipeline.seek(MediaTime::from_nanoseconds(0), later).is_ok());
}
