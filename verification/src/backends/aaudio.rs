//! The rules of a 16-bit PCM output stream of the Android audio service:
//! which parameters a stream may be opened with, what a write may ask and
//! what its answer may be, which state change each request needs, how long
//! to wait for a state, and how the stream's errors reach the audio output
//! port. The native calls themselves are made by the caller.
use crate::ports::audio_output::AudioOutputError;
use vstd::prelude::*;

verus! {

/// The errors of the native audio service that the stream tells apart.
#[derive(Debug, Clone, Copy, PartialEq, Eq, Structural)]
pub enum NativeAudioError {
    Disconnected,
    Unavailable,
    NoService,
    Timeout,
    /// Any other error, by its native code.
    Other(i32),
}

/// The states of a native stream.
#[derive(Debug, Clone, Copy, PartialEq, Eq, Structural)]
pub enum StreamState {
    Uninitialized,
    Unknown,
    Open,
    Starting,
    Started,
    Pausing,
    Paused,
    Flushing,
    Flushed,
    Stopping,
    Stopped,
    Closing,
    Closed,
    Disconnected,
}

/// The sample format that a stream was opened with.
#[derive(Debug, Clone, Copy, PartialEq, Eq, Structural)]
pub enum StreamFormat {
    PcmI16,
    /// Any other format, by its native code.
    Other(i32),
}

#[derive(Debug, Clone, Copy, PartialEq, Eq, Structural)]
pub enum AAudioError {
    InvalidFormat,
    FormatMismatch {
        expected_rate: u32,
        expected_channels: u16,
        actual_rate: i32,
        actual_channels: i32,
        actual_format: StreamFormat,
    },
    IncompleteFrame,
    BufferTooLarge,
    InvalidWriteCount,
    InvalidState,
    Native(NativeAudioError),
}

/// The rate and channel count to ask the service for: both must be
/// positive and the rate must fit in an `i32`.
pub fn stream_request(sample_rate: u32, channels: u16) -> (r: Result<(i32, i32), AAudioError>)
    ensures
        (sample_rate == 0 || channels == 0 || sample_rate > i32::MAX) <==> r is Err,
        r matches Err(e) ==> e == AAudioError::InvalidFormat,
        r matches Ok((rate, count)) ==> rate == sample_rate && count == channels,
{
    if sample_rate == 0 || channels == 0 {
        return Err(AAudioError::InvalidFormat);
    }
    if sample_rate > 2147483647u32 {
        return Err(AAudioError::InvalidFormat);
    }
    Ok((sample_rate as i32, channels as i32))
}

/// Checks that the opened stream has what was asked: 16-bit PCM, the rate
/// and the channel count.
pub fn check_opened_stream(
    sample_rate: u32,
    channels: u16,
    actual_rate: i32,
    actual_channels: i32,
    actual_format: StreamFormat,
) -> (r: Result<(), AAudioError>)
    ensures
        r is Ok <==> (actual_format == StreamFormat::PcmI16 && actual_channels == channels
            && actual_rate == sample_rate),
        r is Err ==> r == Err::<(), AAudioError>(
            AAudioError::FormatMismatch {
                expected_rate: sample_rate,
                expected_channels: channels,
                actual_rate,
                actual_channels,
                actual_format,
            },
        ),
{
    let format_ok = match actual_format {
        StreamFormat::PcmI16 => true,
        StreamFormat::Other(_) => false,
    };
    if !format_ok || actual_channels != channels as i32 || actual_rate as i64 != sample_rate as i64 {
        return Err(
            AAudioError::FormatMismatch {
                expected_rate: sample_rate,
                expected_channels: channels,
                actual_rate,
                actual_channels,
                actual_format,
            },
        );
    }
    Ok(())
}

/// The number of frames that a write of `sample_count` interleaved samples
/// asks for: the samples must be whole frames, and the count must fit in an
/// `i32`.
pub fn write_request(sample_count: usize, channels: u16) -> (r: Result<i32, AAudioError>)
    requires
        channels > 0,
    ensures
        (sample_count as nat) % (channels as nat) != 0 ==> r == Err::<i32, AAudioError>(
            AAudioError::IncompleteFrame,
        ),
        (sample_count as nat) % (channels as nat) == 0 && (sample_count as nat) / (channels as nat) > i32::MAX
            ==> r == Err::<i32, AAudioError>(AAudioError::BufferTooLarge),
        r matches Ok(frames) ==> frames == (sample_count as nat) / (channels as nat) && (sample_count as nat)
            % (channels as nat) == 0,
        ((sample_count as nat) % (channels as nat) == 0 && (sample_count as nat) / (channels as nat) <= i32::MAX)
            ==> r is Ok,
{
    let channels = channels as usize;
    if sample_count % channels != 0 {
        return Err(AAudioError::IncompleteFrame);
    }
    let frame_count = sample_count / channels;
    if frame_count > 2147483647usize {
        return Err(AAudioError::BufferTooLarge);
    }
    Ok(frame_count as i32)
}

/// What a native write answered: a frame count, or an error with its native
/// code.
#[derive(Debug, Clone, Copy, PartialEq, Eq, Structural)]
pub enum RawWrite {
    Frames(u32),
    Failed { error: NativeAudioError, code: i32 },
}

/// The frames that a write of `frame_count` frames really wrote, as
/// `written_frames` tells them from the native answer `raw`.
pub open spec fn written_frames_result(raw: RawWrite, frame_count: int) -> Result<usize, AAudioError> {
    match raw {
        RawWrite::Frames(n) => if n <= frame_count {
            Ok(n as usize)
        } else {
            Err(AAudioError::InvalidWriteCount)
        },
        RawWrite::Failed { error, code } => if code <= 0 {
            Err(AAudioError::Native(error))
        } else if code <= frame_count {
            Ok(code as usize)
        } else {
            Err(AAudioError::InvalidWriteCount)
        },
    }
}

/// The frames that a write of `frame_count` frames really wrote. A failure
/// whose code is positive carries a frame count; any other failure is
/// passed on. More frames than asked for is an invalid answer.
pub fn written_frames(raw: RawWrite, frame_count: usize) -> (r: Result<usize, AAudioError>)
    ensures
        r == written_frames_result(raw, frame_count as int),
{
    let written: u32 = match raw {
        RawWrite::Frames(n) => n,
        RawWrite::Failed { error, code } => {
            if code <= 0 {
                return Err(AAudioError::Native(error));
            }
            code as u32
        },
    };
    if written as u64 > frame_count as u64 {
        return Err(AAudioError::InvalidWriteCount);
    }
    Ok(written as usize)
}

/// A state read from the stream; a disconnected stream is an error.
pub fn check_state(state: StreamState) -> (r: Result<StreamState, AAudioError>)
    ensures
        state == StreamState::Disconnected <==> r is Err,
        r matches Err(e) ==> e == AAudioError::Native(NativeAudioError::Disconnected),
        r matches Ok(s) ==> s == state,
{
    match state {
        StreamState::Disconnected => Err(AAudioError::Native(NativeAudioError::Disconnected)),
        _ => Ok(state),
    }
}

/// Whether a stream in `state` is paused, or may be started without first
/// pausing it.
pub open spec fn is_at_rest(state: StreamState) -> bool {
    state == StreamState::Open || state == StreamState::Paused || state == StreamState::Flushed
        || state == StreamState::Stopped
}

/// Whether a start must be requested in `state`: not when the stream
/// already starts or runs; yes when it is at rest; otherwise the state does
/// not allow it.
pub fn start_step(state: StreamState) -> (r: Result<bool, AAudioError>)
    ensures
        (state == StreamState::Started || state == StreamState::Starting) ==> r == Ok::<
            bool,
            AAudioError,
        >(false),
        is_at_rest(state) ==> r == Ok::<bool, AAudioError>(true),
        !(state == StreamState::Started || state == StreamState::Starting || is_at_rest(state))
            ==> r == Err::<bool, AAudioError>(AAudioError::InvalidState),
{
    match state {
        StreamState::Started | StreamState::Starting => Ok(false),
        StreamState::Open | StreamState::Paused | StreamState::Flushed | StreamState::Stopped => Ok(
            true,
        ),
        _ => Err(AAudioError::InvalidState),
    }
}

/// What pausing a stream takes.
#[derive(Debug, Clone, Copy, PartialEq, Eq, Structural)]
pub enum PauseStep {
    /// The stream is at rest already.
    Done,
    /// A pause is under way: wait until the stream is paused.
    Wait,
    /// Request a pause, then wait until the stream is paused.
    RequestThenWait,
}

/// What pausing takes in `state`.
pub fn pause_step(state: StreamState) -> (r: Result<PauseStep, AAudioError>)
    ensures
        is_at_rest(state) ==> r == Ok::<PauseStep, AAudioError>(PauseStep::Done),
        state == StreamState::Pausing ==> r == Ok::<PauseStep, AAudioError>(PauseStep::Wait),
        (state == StreamState::Started || state == StreamState::Starting) ==> r == Ok::<
            PauseStep,
            AAudioError,
        >(PauseStep::RequestThenWait),
        !(is_at_rest(state) || state == StreamState::Pausing || state == StreamState::Started
            || state == StreamState::Starting) ==> r == Err::<PauseStep, AAudioError>(
            AAudioError::InvalidState,
        ),
{
    match state {
        StreamState::Open | StreamState::Paused | StreamState::Flushed | StreamState::Stopped => Ok(
            PauseStep::Done,
        ),
        StreamState::Pausing => Ok(PauseStep::Wait),
        StreamState::Started | StreamState::Starting => Ok(PauseStep::RequestThenWait),
        _ => Err(AAudioError::InvalidState),
    }
}

/// Whether a flush must be requested in `state`, reached after pausing: not
/// when the stream holds nothing (just opened, or flushed); yes when it is
/// paused; otherwise the state does not allow it.
pub fn flush_step(state: StreamState) -> (r: Result<bool, AAudioError>)
    ensures
        (state == StreamState::Open || state == StreamState::Flushed) ==> r == Ok::<
            bool,
            AAudioError,
        >(false),
        state == StreamState::Paused ==> r == Ok::<bool, AAudioError>(true),
        !(state == StreamState::Open || state == StreamState::Flushed || state
            == StreamState::Paused) ==> r == Err::<bool, AAudioError>(AAudioError::InvalidState),
{
    match state {
        StreamState::Open | StreamState::Flushed => Ok(false),
        StreamState::Paused => Ok(true),
        _ => Err(AAudioError::InvalidState),
    }
}

/// How long a wait for a state change may last at most, in nanoseconds.
pub const STATE_WAIT_SLICE_NANOS: u64 = 20_000_000;

/// How long a wait for a state may last in all, in nanoseconds.
pub const STATE_WAIT_LIMIT_NANOS: u64 = 500_000_000;

/// The next step of waiting for `expected`.
#[derive(Debug, Clone, Copy, PartialEq, Eq, Structural)]
pub enum WaitStep {
    /// The stream reached the state.
    Reached,
    /// The time is up.
    TimedOut,
    /// Wait for a change of state for at most this many nanoseconds.
    WaitNanos(u64),
}

/// The next step of waiting for `expected` in `state`, with
/// `remaining_nanos` left before the deadline.
pub fn wait_step(state: StreamState, expected: StreamState, remaining_nanos: u64) -> (r: WaitStep)
    ensures
        state == expected ==> r == WaitStep::Reached,
        state != expected && remaining_nanos == 0 ==> r == WaitStep::TimedOut,
        state != expected && remaining_nanos > 0 ==> r == WaitStep::WaitNanos(
            if remaining_nanos < STATE_WAIT_SLICE_NANOS {
                remaining_nanos
            } else {
                STATE_WAIT_SLICE_NANOS
            },
        ),
{
    if state == expected {
        return WaitStep::Reached;
    }
    if remaining_nanos == 0 {
        return WaitStep::TimedOut;
    }
    if remaining_nanos < STATE_WAIT_SLICE_NANOS {
        WaitStep::WaitNanos(remaining_nanos)
    } else {
        WaitStep::WaitNanos(STATE_WAIT_SLICE_NANOS)
    }
}

/// What became of a wait for a change of state: a change or a timeout lets
/// the waiting go on; any other error ends it.
pub fn after_state_wait(result: Result<(), NativeAudioError>) -> (r: Result<(), AAudioError>)
    ensures
        match result {
            Ok(()) => r is Ok,
            Err(NativeAudioError::Timeout) => r is Ok,
            Err(e) => r == Err::<(), AAudioError>(AAudioError::Native(e)),
        },
{
    match result {
        Ok(()) => Ok(()),
        Err(NativeAudioError::Timeout) => Ok(()),
        Err(e) => Err(AAudioError::Native(e)),
    }
}

/// The frames that the device consumed and that were written to it, from
/// the stream's signed counters; a negative one is an invalid state.
pub fn frame_counters(frames_read: i64, frames_written: i64) -> (r: Result<(u64, u64), AAudioError>)
    ensures
        (frames_read < 0 || frames_written < 0) <==> r is Err,
        r matches Err(e) ==> e == AAudioError::InvalidState,
        r matches Ok((consumed, written)) ==> consumed == frames_read && written == frames_written,
{
    if frames_read < 0 || frames_written < 0 {
        return Err(AAudioError::InvalidState);
    }
    Ok((frames_read as u64, frames_written as u64))
}

/// The audio output error for a stream error: format problems are invalid
/// formats, a lost or missing device is unavailable, and every other
/// failure is a platform error.
pub open spec fn output_error(error: AAudioError) -> AudioOutputError {
    match error {
        AAudioError::InvalidFormat | AAudioError::FormatMismatch { .. }
        | AAudioError::IncompleteFrame => AudioOutputError::InvalidFormat,
        AAudioError::BufferTooLarge => AudioOutputError::BufferTooLarge,
        AAudioError::InvalidState => AudioOutputError::InvalidState,
        AAudioError::Native(NativeAudioError::Disconnected)
        | AAudioError::Native(NativeAudioError::Unavailable)
        | AAudioError::Native(NativeAudioError::NoService) => AudioOutputError::DeviceUnavailable,
        _ => AudioOutputError::Platform,
    }
}

/// Maps a stream error to the audio output port; see `output_error`.
pub fn map_error(error: AAudioError) -> (r: AudioOutputError)
    ensures
        r == output_error(error),
{
    match error {
        AAudioError::InvalidFormat | AAudioError::FormatMismatch { .. }
        | AAudioError::IncompleteFrame => AudioOutputError::InvalidFormat,
        AAudioError::BufferTooLarge => AudioOutputError::BufferTooLarge,
        AAudioError::InvalidState => AudioOutputError::InvalidState,
        AAudioError::Native(NativeAudioError::Disconnected)
        | AAudioError::Native(NativeAudioError::Unavailable)
        | AAudioError::Native(NativeAudioError::NoService) => AudioOutputError::DeviceUnavailable,
        _ => AudioOutputError::Platform,
    }
}

} // verus!
