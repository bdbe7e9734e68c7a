use moonegg_core::backends::aaudio::{
    after_state_wait, check_opened_stream, check_state, flush_step, frame_counters, map_error,
    pause_step, start_step, stream_request, wait_step, write_request, written_frames, AAudioError,
    NativeAudioError, PauseStep, RawWrite, StreamFormat, StreamState, WaitStep,
    STATE_WAIT_SLICE_NANOS,
};
use moonegg_core::backends::android_output::{
    check_pcm_block, position_from_counters, write_i16, AndroidAudioOutput, AndroidAudioOutputFactory, PcmStream, PcmStreamOpener,
    MAX_BLOCK_FRAMES,
};
use moonegg_core::media::{AudioBuffer, AudioCodecId, AudioSamples, AudioTrackFormat, DecodedFrame, MediaTime, TrackId};
use moonegg_core::ports::{AudioOutput, AudioOutputError, AudioOutputFactory, AudioSubmitResult};
use moonegg_core::timing::MonotonicInstant;
use std::cell::RefCell;
use std::rc::Rc;

#[derive(Default)]
struct Device {
    written_samples: Vec<i16>,
    frames_written: u64,
    frames_consumed: u64,
    room_frames: usize,
    starts: u32,
    pauses: u32,
    flushes: u32,
}

struct FakeStream {
    rate: u32,
    channels: u16,
    device: Rc<RefCell<Device>>,
}

impl PcmStream for FakeStream {
    fn sample_rate(&self) -> u32 {
        self.rate
    }

    fn channels(&self) -> u16 {
        self.channels
    }

    fn write_frames(&mut self, samples: &[i16], frames: i32) -> RawWrite {
        let mut device = self.device.borrow_mut();
        let taken = (frames as usize).min(device.room_frames);
        device.room_frames -= taken;
        let count = taken * usize::from(self.channels);
        device.written_samples.extend_from_slice(&samples[..count]);
        device.frames_written += taken as u64;
        RawWrite::Frames(taken as u32)
    }

    fn frame_counters(&self) -> Result<(u64, u64), AAudioError> {
        let device = self.device.borrow();
        Ok((device.frames_consumed, device.frames_written))
    }

    fn start(&mut self) -> Result<(), AAudioError> {
        self.device.borrow_mut().starts += 1;
        Ok(())
    }

    fn pause(&mut self) -> Result<(), AAudioError> {
        self.device.borrow_mut().pauses += 1;
        Ok(())
    }

    fn flush(&mut self) -> Result<(), AAudioError> {
        self.device.borrow_mut().flushes += 1;
        Ok(())
    }
}

fn block(samples: Vec<i16>) -> DecodedFrame<AudioBuffer> {
    DecodedFrame::new(
        TrackId::new(0),
        MediaTime::from_nanoseconds(0),
        AudioBuffer::new(8_000, 1, AudioSamples::I16(samples)).unwrap(),
    )
}

fn output(room_frames: usize) -> (AndroidAudioOutput<FakeStream>, Rc<RefCell<Device>>) {
    let device = Rc::new(RefCell::new(Device { room_frames, ..Device::default() }));
    let stream = FakeStream { rate: 8_000, channels: 1, device: Rc::clone(&device) };
    (AndroidAudioOutput::new(stream), device)
}

#[test]
fn stream_parameters_are_checked() {
    assert_eq!(stream_request(48_000, 2), Ok((48_000, 2)));
    assert_eq!(stream_request(0, 2), Err(AAudioError::InvalidFormat));
    assert_eq!(stream_request(48_000, 0), Err(AAudioError::InvalidFormat));
    assert_eq!(stream_request(u32::MAX, 1), Err(AAudioError::InvalidFormat));
    assert_eq!(check_opened_stream(48_000, 2, 48_000, 2, StreamFormat::PcmI16), Ok(()));
    assert_eq!(
        check_opened_stream(48_000, 2, 44_100, 2, StreamFormat::PcmI16),
        Err(AAudioError::FormatMismatch {
            expected_rate: 48_000,
            expected_channels: 2,
            actual_rate: 44_100,
            actual_channels: 2,
            actual_format: StreamFormat::PcmI16,
        })
    );
    assert!(check_opened_stream(48_000, 2, 48_000, 2, StreamFormat::Other(2)).is_err());
}

#[test]
fn writes_are_whole_frames_and_answers_are_checked() {
    assert_eq!(write_request(8, 2), Ok(4));
    assert_eq!(write_request(0, 2), Ok(0));
    assert_eq!(write_request(7, 2), Err(AAudioError::IncompleteFrame));
    assert_eq!(written_frames(RawWrite::Frames(3), 4), Ok(3));
    assert_eq!(written_frames(RawWrite::Frames(5), 4), Err(AAudioError::InvalidWriteCount));
    assert_eq!(written_frames(RawWrite::Failed { error: NativeAudioError::Other(2), code: 2 }, 4), Ok(2));
    assert_eq!(
        written_frames(RawWrite::Failed { error: NativeAudioError::Disconnected, code: -899 }, 4),
        Err(AAudioError::Native(NativeAudioError::Disconnected))
    );
}

#[test]
fn state_changes_follow_the_stream_state() {
    assert_eq!(check_state(StreamState::Started), Ok(StreamState::Started));
    assert_eq!(check_state(StreamState::Disconnected), Err(AAudioError::Native(NativeAudioError::Disconnected)));
    assert_eq!(start_step(StreamState::Started), Ok(false));
    assert_eq!(start_step(StreamState::Paused), Ok(true));
    assert_eq!(start_step(StreamState::Closed), Err(AAudioError::InvalidState));
    assert_eq!(pause_step(StreamState::Flushed), Ok(PauseStep::Done));
    assert_eq!(pause_step(StreamState::Pausing), Ok(PauseStep::Wait));
    assert_eq!(pause_step(StreamState::Starting), Ok(PauseStep::RequestThenWait));
    assert_eq!(pause_step(StreamState::Flushing), Err(AAudioError::InvalidState));
    assert_eq!(flush_step(StreamState::Open), Ok(false));
    assert_eq!(flush_step(StreamState::Paused), Ok(true));
    assert_eq!(flush_step(StreamState::Started), Err(AAudioError::InvalidState));
}

#[test]
fn waiting_for_a_state_is_sliced_and_bounded() {
    assert_eq!(wait_step(StreamState::Paused, StreamState::Paused, 0), WaitStep::Reached);
    assert_eq!(wait_step(StreamState::Pausing, StreamState::Paused, 0), WaitStep::TimedOut);
    assert_eq!(wait_step(StreamState::Pausing, StreamState::Paused, 5), WaitStep::WaitNanos(5));
    assert_eq!(
        wait_step(StreamState::Pausing, StreamState::Paused, 400_000_000),
        WaitStep::WaitNanos(STATE_WAIT_SLICE_NANOS)
    );
    assert_eq!(after_state_wait(Ok(())), Ok(()));
    assert_eq!(after_state_wait(Err(NativeAudioError::Timeout)), Ok(()));
    assert_eq!(after_state_wait(Err(NativeAudioError::NoService)), Err(AAudioError::Native(NativeAudioError::NoService)));
}

#[test]
fn counters_and_error_mapping() {
    assert_eq!(frame_counters(3, 10), Ok((3, 10)));
    assert_eq!(frame_counters(-1, 10), Err(AAudioError::InvalidState));
    assert_eq!(map_error(AAudioError::IncompleteFrame), AudioOutputError::InvalidFormat);
    assert_eq!(map_error(AAudioError::BufferTooLarge), AudioOutputError::BufferTooLarge);
    assert_eq!(map_error(AAudioError::InvalidState), AudioOutputError::InvalidState);
    assert_eq!(map_error(AAudioError::Native(NativeAudioError::Unavailable)), AudioOutputError::DeviceUnavailable);
    assert_eq!(map_error(AAudioError::Native(NativeAudioError::Timeout)), AudioOutputError::Platform);
    assert_eq!(map_error(AAudioError::InvalidWriteCount), AudioOutputError::Platform);
}

#[test]
fn blocks_are_checked_against_the_stream() {
    let buffer = AudioBuffer::new(8_000, 1, AudioSamples::I16(vec![0; 10])).unwrap();
    assert_eq!(check_pcm_block(&buffer, 8_000, 1), Ok(()));
    assert_eq!(check_pcm_block(&buffer, 16_000, 1), Err(AudioOutputError::InvalidFormat));
    assert_eq!(check_pcm_block(&buffer, 8_000, 2), Err(AudioOutputError::InvalidFormat));
    let big = AudioBuffer::new(8_000, 1, AudioSamples::I16(vec![0; MAX_BLOCK_FRAMES + 1])).unwrap();
    assert_eq!(check_pcm_block(&big, 8_000, 1), Err(AudioOutputError::BufferTooLarge));
    let float = AudioBuffer::new(8_000, 1, AudioSamples::F32(vec![0; 4])).unwrap();
    assert_eq!(check_pcm_block(&float, 8_000, 1), Err(AudioOutputError::InvalidFormat));
}

#[test]
fn output_holds_one_block_and_gives_back_the_next() {
    let (mut output, device) = output(3);
    // Paused: the block is held, nothing is written.
    assert!(matches!(output.submit(block(vec![1, 2, 3, 4, 5])).unwrap(), AudioSubmitResult::Accepted));
    assert!(device.borrow().written_samples.is_empty());
    assert!(matches!(output.submit(block(vec![9])).unwrap(), AudioSubmitResult::Backpressure(_)));
    // Starting writes what fits and starts the stream.
    output.start().unwrap();
    assert_eq!(device.borrow().written_samples, vec![1, 2, 3]);
    assert_eq!(device.borrow().starts, 1);
    // Room for the rest: the next submit writes it and takes the new block.
    device.borrow_mut().room_frames = 10;
    assert!(matches!(output.submit(block(vec![6, 7])).unwrap(), AudioSubmitResult::Accepted));
    assert_eq!(device.borrow().written_samples, vec![1, 2, 3, 4, 5, 6, 7]);
    assert_eq!(device.borrow().starts, 1);
    // Drained once the device consumed everything written.
    assert!(!output.is_drained().unwrap());
    device.borrow_mut().frames_consumed = 7;
    assert!(output.is_drained().unwrap());
    assert_eq!(output.playback_position().unwrap().played_frames(), 7);
}

#[test]
fn pause_and_flush_drop_what_is_pending() {
    let (mut output, device) = output(0);
    output.start().unwrap();
    assert!(matches!(output.submit(block(vec![1, 2])).unwrap(), AudioSubmitResult::Accepted));
    output.pause().unwrap();
    assert_eq!(device.borrow().pauses, 1);
    output.flush().unwrap();
    assert_eq!(device.borrow().flushes, 1);
    assert!(output.is_drained().unwrap());
    assert!(matches!(output.submit(block(vec![3])).unwrap(), AudioSubmitResult::Accepted));
    assert!(matches!(
        output.submit(DecodedFrame::new(
            TrackId::new(0),
            MediaTime::from_nanoseconds(0),
            AudioBuffer::new(44_100, 1, AudioSamples::I16(vec![1])).unwrap(),
        )),
        Err(AudioOutputError::InvalidFormat)
    ));
}

struct FakeOpener;

impl PcmStreamOpener for FakeOpener {
    type Stream = FakeStream;

    fn open(&self, sample_rate: u32, channels: u16) -> Result<FakeStream, AAudioError> {
        stream_request(sample_rate, channels)?;
        Ok(FakeStream { rate: sample_rate, channels, device: Rc::new(RefCell::new(Device::default())) })
    }
}

#[test]
fn factory_opens_a_stream_per_track_format() {
    let factory = AndroidAudioOutputFactory::new(FakeOpener);
    let format = AudioTrackFormat::new(AudioCodecId::PcmS16Le, 8_000, 1, Vec::new());
    assert!(factory.create(&format).is_ok());
    let invalid = AudioTrackFormat::new(AudioCodecId::PcmS16Le, 0, 1, Vec::new());
    assert!(matches!(factory.create(&invalid), Err(AudioOutputError::InvalidFormat)));
}

#[test]
fn position_is_the_smaller_counter_at_the_given_instant() {
    let at = MonotonicInstant::from_nanos(1_500);
    let behind = position_from_counters(40, 100, at);
    assert_eq!(behind.played_frames(), 40);
    assert_eq!(behind.observed_at().nanos(), 1_500);
    let ahead = position_from_counters(120, 100, at);
    assert_eq!(ahead.played_frames(), 100);
    assert_eq!(position_from_counters(0, 0, at).played_frames(), 0);
}

struct AnsweringStream {
    answer: RawWrite,
    calls: u32,
}

impl PcmStream for AnsweringStream {
    fn sample_rate(&self) -> u32 {
        8_000
    }

    fn channels(&self) -> u16 {
        2
    }

    fn write_frames(&mut self, _samples: &[i16], _frames: i32) -> RawWrite {
        self.calls += 1;
        self.answer
    }

    fn frame_counters(&self) -> Result<(u64, u64), AAudioError> {
        Ok((0, 0))
    }

    fn start(&mut self) -> Result<(), AAudioError> {
        Ok(())
    }

    fn pause(&mut self) -> Result<(), AAudioError> {
        Ok(())
    }

    fn flush(&mut self) -> Result<(), AAudioError> {
        Ok(())
    }
}

#[test]
fn writes_return_the_whole_frames_taken() {
    let mut stream = AnsweringStream { answer: RawWrite::Frames(2), calls: 0 };
    assert_eq!(write_i16(&mut stream, 2, &[1, 2, 3, 4, 5, 6]), Ok(2));
    assert_eq!(write_i16(&mut stream, 2, &[1, 2, 3]), Err(AAudioError::IncompleteFrame));
    assert_eq!(write_i16(&mut stream, 2, &[]), Ok(0));
    assert_eq!(write_i16(&mut stream, 0, &[1, 2]), Err(AAudioError::InvalidFormat));
    assert_eq!(stream.calls, 1);
    let mut eager = AnsweringStream { answer: RawWrite::Frames(5), calls: 0 };
    assert_eq!(write_i16(&mut eager, 2, &[1, 2, 3, 4]), Err(AAudioError::InvalidWriteCount));
}
