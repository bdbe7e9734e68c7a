//! The texts of the reasons the bridge gives: a failure and a refused
//! command are written as their values are spelled in Rust's debug form
//! (variant names, fields in braces, numbers in decimal).
use crate::error::{PlaybackError, RuntimeError};
use crate::media::time::MediaTime;
use crate::pipeline::audio::AudioPipelineError;
use crate::pipeline::epoch::PlaybackEpoch;
use crate::pipeline::playback::PlaybackPipelineError;
use crate::player::command::PlayerCommand;
use crate::ports::audio_output::AudioOutputError;
use crate::ports::decoder::DecodeError;
use crate::ports::demuxer::DemuxError;
use crate::ports::video_output::VideoOutputError;
use crate::pipeline::queue::QueueError;
use crate::player::state::PlayerState;
use crate::timing::clock::ClockError;
use vstd::prelude::*;
use vstd::string::StringExecFns;

verus! {

/// The text of a decimal digit.
pub open spec fn digit_text(d: nat) -> Seq<char> {
    if d == 0 {
        "0"@
    } else if d == 1 {
        "1"@
    } else if d == 2 {
        "2"@
    } else if d == 3 {
        "3"@
    } else if d == 4 {
        "4"@
    } else if d == 5 {
        "5"@
    } else if d == 6 {
        "6"@
    } else if d == 7 {
        "7"@
    } else if d == 8 {
        "8"@
    } else {
        "9"@
    }
}

/// A natural number in decimal, without leading zeros.
pub open spec fn decimal_text(n: nat) -> Seq<char>
    decreases n,
{
    if n < 10 {
        digit_text(n)
    } else {
        decimal_text(n / 10) + digit_text(n % 10)
    }
}

/// An integer in decimal, with a minus sign when negative.
pub open spec fn signed_text(n: int) -> Seq<char> {
    if n < 0 {
        "-"@ + decimal_text((-n) as nat)
    } else {
        decimal_text(n as nat)
    }
}

fn digit_str(d: u64) -> (r: &'static str)
    requires
        d < 10,
    ensures
        r@ == digit_text(d as nat),
{
    if d == 0 {
        "0"
    } else if d == 1 {
        "1"
    } else if d == 2 {
        "2"
    } else if d == 3 {
        "3"
    } else if d == 4 {
        "4"
    } else if d == 5 {
        "5"
    } else if d == 6 {
        "6"
    } else if d == 7 {
        "7"
    } else if d == 8 {
        "8"
    } else {
        "9"
    }
}

/// Appends `n` in decimal.
pub fn push_decimal(text: &mut String, n: u64)
    ensures
        final(text)@ == old(text)@ + decimal_text(n as nat),
    decreases n,
{
    if n >= 10 {
        push_decimal(text, n / 10);
    }
    text.append(digit_str(n % 10));
    proof {
        assert(old(text)@ + decimal_text(n as nat) =~= if n >= 10 {
            old(text)@ + decimal_text((n / 10) as nat) + digit_text((n % 10) as nat)
        } else {
            old(text)@ + digit_text((n % 10) as nat)
        });
    }
}

/// Appends `n` in decimal, with a minus sign when negative.
pub fn push_signed(text: &mut String, n: i64)
    ensures
        final(text)@ == old(text)@ + signed_text(n as int),
{
    if n < 0 {
        text.append("-");
        let magnitude: u64 = if n == i64::MIN {
            9_223_372_036_854_775_808u64
        } else {
            (-n) as u64
        };
        push_decimal(text, magnitude);
        proof {
            assert(old(text)@ + signed_text(n as int) =~= old(text)@ + "-"@ + decimal_text(
                magnitude as nat,
            ));
        }
    } else {
        push_decimal(text, n as u64);
    }
}

/// A generation: `PlaybackEpoch(n)`.
pub open spec fn epoch_text(epoch: PlaybackEpoch) -> Seq<char> {
    "PlaybackEpoch("@ + decimal_text(epoch.spec_value() as nat) + ")"@
}

fn push_epoch(text: &mut String, epoch: PlaybackEpoch)
    ensures
        final(text)@ == old(text)@ + epoch_text(epoch),
{
    text.append("PlaybackEpoch(");
    push_decimal(text, epoch.value());
    text.append(")");
    proof {
        assert(final(text)@ =~= old(text)@ + epoch_text(epoch));
    }
}

/// A media time: `MediaTime { nanoseconds: n }`.
pub open spec fn media_time_text(time: MediaTime) -> Seq<char> {
    "MediaTime { nanoseconds: "@ + signed_text(time.nanoseconds() as int) + " }"@
}

fn push_media_time(text: &mut String, time: MediaTime)
    ensures
        final(text)@ == old(text)@ + media_time_text(time),
{
    text.append("MediaTime { nanoseconds: ");
    push_signed(text, time.nanoseconds());
    text.append(" }");
    proof {
        assert(final(text)@ =~= old(text)@ + media_time_text(time));
    }
}

/// The name of a `DemuxError` variant.
pub open spec fn demux_error_text(value: DemuxError) -> Seq<char> {
    match value {
        DemuxError::InvalidData => "InvalidData"@,
        DemuxError::Unsupported => "Unsupported"@,
        DemuxError::NotSeekable => "NotSeekable"@,
        DemuxError::Io => "Io"@,
    }
}

fn demux_error_name(value: DemuxError) -> (r: &'static str)
    ensures
        r@ == demux_error_text(value),
{
    match value {
        DemuxError::InvalidData => "InvalidData",
        DemuxError::Unsupported => "Unsupported",
        DemuxError::NotSeekable => "NotSeekable",
        DemuxError::Io => "Io",
    }
}

/// The name of a `DecodeError` variant.
pub open spec fn decode_error_text(value: DecodeError) -> Seq<char> {
    match value {
        DecodeError::InvalidData => "InvalidData"@,
        DecodeError::InvalidState => "InvalidState"@,
        DecodeError::Unsupported => "Unsupported"@,
        DecodeError::Platform => "Platform"@,
    }
}

fn decode_error_name(value: DecodeError) -> (r: &'static str)
    ensures
        r@ == decode_error_text(value),
{
    match value {
        DecodeError::InvalidData => "InvalidData",
        DecodeError::InvalidState => "InvalidState",
        DecodeError::Unsupported => "Unsupported",
        DecodeError::Platform => "Platform",
    }
}

/// The name of a `AudioOutputError` variant.
pub open spec fn audio_output_error_text(value: AudioOutputError) -> Seq<char> {
    match value {
        AudioOutputError::InvalidFormat => "InvalidFormat"@,
        AudioOutputError::InvalidState => "InvalidState"@,
        AudioOutputError::DeviceUnavailable => "DeviceUnavailable"@,
        AudioOutputError::Platform => "Platform"@,
        AudioOutputError::BufferTooLarge => "BufferTooLarge"@,
    }
}

fn audio_output_error_name(value: AudioOutputError) -> (r: &'static str)
    ensures
        r@ == audio_output_error_text(value),
{
    match value {
        AudioOutputError::InvalidFormat => "InvalidFormat",
        AudioOutputError::InvalidState => "InvalidState",
        AudioOutputError::DeviceUnavailable => "DeviceUnavailable",
        AudioOutputError::Platform => "Platform",
        AudioOutputError::BufferTooLarge => "BufferTooLarge",
    }
}

/// The name of a `VideoOutputError` variant.
pub open spec fn video_output_error_text(value: VideoOutputError) -> Seq<char> {
    match value {
        VideoOutputError::InvalidFormat => "InvalidFormat"@,
        VideoOutputError::InvalidState => "InvalidState"@,
        VideoOutputError::SurfaceUnavailable => "SurfaceUnavailable"@,
        VideoOutputError::Platform => "Platform"@,
    }
}

fn video_output_error_name(value: VideoOutputError) -> (r: &'static str)
    ensures
        r@ == video_output_error_text(value),
{
    match value {
        VideoOutputError::InvalidFormat => "InvalidFormat",
        VideoOutputError::InvalidState => "InvalidState",
        VideoOutputError::SurfaceUnavailable => "SurfaceUnavailable",
        VideoOutputError::Platform => "Platform",
    }
}

/// The name of a `QueueError` variant.
pub open spec fn queue_error_text(value: QueueError) -> Seq<char> {
    match value {
        QueueError::InvalidCapacity => "InvalidCapacity"@,
    }
}

fn queue_error_name(value: QueueError) -> (r: &'static str)
    ensures
        r@ == queue_error_text(value),
{
    match value {
        QueueError::InvalidCapacity => "InvalidCapacity",
    }
}

/// The name of a `ClockError` variant.
pub open spec fn clock_error_text(value: ClockError) -> Seq<char> {
    match value {
        ClockError::InvalidSampleRate => "InvalidSampleRate"@,
        ClockError::PositionWentBackward => "PositionWentBackward"@,
        ClockError::Overflow => "Overflow"@,
    }
}

fn clock_error_name(value: ClockError) -> (r: &'static str)
    ensures
        r@ == clock_error_text(value),
{
    match value {
        ClockError::InvalidSampleRate => "InvalidSampleRate",
        ClockError::PositionWentBackward => "PositionWentBackward",
        ClockError::Overflow => "Overflow",
    }
}

/// The name of a `PlayerState` variant.
pub open spec fn state_text(value: PlayerState) -> Seq<char> {
    match value {
        PlayerState::Idle => "Idle"@,
        PlayerState::Preparing => "Preparing"@,
        PlayerState::Ready => "Ready"@,
        PlayerState::Playing => "Playing"@,
        PlayerState::Paused => "Paused"@,
        PlayerState::Error => "Error"@,
        PlayerState::Released => "Released"@,
    }
}

fn state_name(value: PlayerState) -> (r: &'static str)
    ensures
        r@ == state_text(value),
{
    match value {
        PlayerState::Idle => "Idle",
        PlayerState::Preparing => "Preparing",
        PlayerState::Ready => "Ready",
        PlayerState::Playing => "Playing",
        PlayerState::Paused => "Paused",
        PlayerState::Error => "Error",
        PlayerState::Released => "Released",
    }
}
/// A player command.
pub open spec fn command_text(command: PlayerCommand) -> Seq<char> {
    match command {
        PlayerCommand::Prepare => "Prepare"@,
        PlayerCommand::Play => "Play"@,
        PlayerCommand::Pause => "Pause"@,
        PlayerCommand::Seek(target) => "Seek("@ + media_time_text(target) + ")"@,
        PlayerCommand::Stop => "Stop"@,
        PlayerCommand::Release => "Release"@,
    }
}

fn push_command(text: &mut String, command: PlayerCommand)
    ensures
        final(text)@ == old(text)@ + command_text(command),
{
    match command {
        PlayerCommand::Prepare => text.append("Prepare"),
        PlayerCommand::Play => text.append("Play"),
        PlayerCommand::Pause => text.append("Pause"),
        PlayerCommand::Seek(target) => {
            text.append("Seek(");
            push_media_time(text, target);
            text.append(")");
            proof {
                assert(final(text)@ =~= old(text)@ + command_text(command));
            }
        },
        PlayerCommand::Stop => text.append("Stop"),
        PlayerCommand::Release => text.append("Release"),
    }
}

/// The reason given for a refused command: the command, ` rejected in `,
/// and the state.
pub open spec fn rejection_text(command: PlayerCommand, state: PlayerState) -> Seq<char> {
    command_text(command) + " rejected in "@ + state_text(state)
}

/// The reason given for refusing `command` in `state`.
pub fn rejection_reason(command: PlayerCommand, state: PlayerState) -> (r: String)
    ensures
        r@ == rejection_text(command, state),
{
    let mut text = String::new();
    push_command(&mut text, command);
    text.append(" rejected in ");
    text.append(state_name(state));
    proof {
        assert(text@ =~= rejection_text(command, state));
    }
    text
}

/// An error of the audio branch.
pub open spec fn audio_pipeline_error_text(error: AudioPipelineError) -> Seq<char> {
    match error {
        AudioPipelineError::Queue(e) => "Queue("@ + queue_error_text(e) + ")"@,
        AudioPipelineError::Decode(e) => "Decode("@ + decode_error_text(e) + ")"@,
        AudioPipelineError::Output(e) => "Output("@ + audio_output_error_text(e) + ")"@,
        AudioPipelineError::WrongTrack => "WrongTrack"@,
        AudioPipelineError::InputClosed => "InputClosed"@,
        AudioPipelineError::UnexpectedDecoderEos => "UnexpectedDecoderEos"@,
    }
}

/// Appends `open`, `inner` and `)`.
fn push_wrapped(text: &mut String, open: &str, inner: &str)
    ensures
        final(text)@ == old(text)@ + open@ + inner@ + ")"@,
{
    text.append(open);
    text.append(inner);
    text.append(")");
}

fn push_audio_pipeline_error(text: &mut String, error: &AudioPipelineError)
    ensures
        final(text)@ == old(text)@ + audio_pipeline_error_text(*error),
{
    match error {
        AudioPipelineError::Queue(e) => push_wrapped(text, "Queue(", queue_error_name(*e)),
        AudioPipelineError::Decode(e) => push_wrapped(text, "Decode(", decode_error_name(*e)),
        AudioPipelineError::Output(e) => push_wrapped(text, "Output(", audio_output_error_name(*e)),
        AudioPipelineError::WrongTrack => text.append("WrongTrack"),
        AudioPipelineError::InputClosed => text.append("InputClosed"),
        AudioPipelineError::UnexpectedDecoderEos => text.append("UnexpectedDecoderEos"),
    }
}

/// Two generations as the fields `first` and `second` of a struct variant
/// named by `open`: `Name { first: .., second: .. }`.
pub open spec fn epoch_pair_text(
    open: Seq<char>,
    first: Seq<char>,
    a: PlaybackEpoch,
    second: Seq<char>,
    b: PlaybackEpoch,
) -> Seq<char> {
    open + first + epoch_text(a) + second + epoch_text(b) + " }"@
}

fn push_epoch_pair(
    text: &mut String,
    open: &str,
    first: &str,
    a: PlaybackEpoch,
    second: &str,
    b: PlaybackEpoch,
)
    ensures
        final(text)@ == old(text)@ + epoch_pair_text(open@, first@, a, second@, b),
{
    text.append(open);
    text.append(first);
    push_epoch(text, a);
    text.append(second);
    push_epoch(text, b);
    text.append(" }");
    proof {
        assert(final(text)@ =~= old(text)@ + epoch_pair_text(open@, first@, a, second@, b));
    }
}

/// An error of the playback pipeline.
pub open spec fn pipeline_error_text(error: PlaybackPipelineError) -> Seq<char> {
    match error {
        PlaybackPipelineError::Demux(e) => "Demux("@ + demux_error_text(e) + ")"@,
        PlaybackPipelineError::Audio(e) => "Audio("@ + audio_pipeline_error_text(e) + ")"@,
        PlaybackPipelineError::TrackNotFound => "TrackNotFound"@,
        PlaybackPipelineError::NotAudioTrack => "NotAudioTrack"@,
        PlaybackPipelineError::NoAudioTrack => "NoAudioTrack"@,
        PlaybackPipelineError::EpochMismatch { expected, actual } => epoch_pair_text(
            "EpochMismatch { "@,
            "expected: "@,
            expected,
            ", actual: "@,
            actual,
        ),
        PlaybackPipelineError::InvalidSeekEpoch { current, requested } => epoch_pair_text(
            "InvalidSeekEpoch { "@,
            "current: "@,
            current,
            ", requested: "@,
            requested,
        ),
        PlaybackPipelineError::Clock(e) => "Clock("@ + clock_error_text(e) + ")"@,
    }
}

fn push_pipeline_error(text: &mut String, error: &PlaybackPipelineError)
    ensures
        final(text)@ == old(text)@ + pipeline_error_text(*error),
{
    match error {
        PlaybackPipelineError::Demux(e) => push_wrapped(text, "Demux(", demux_error_name(*e)),
        PlaybackPipelineError::Audio(e) => {
            text.append("Audio(");
            push_audio_pipeline_error(text, e);
            text.append(")");
            proof {
                assert(final(text)@ =~= old(text)@ + pipeline_error_text(*error));
            }
        },
        PlaybackPipelineError::TrackNotFound => text.append("TrackNotFound"),
        PlaybackPipelineError::NotAudioTrack => text.append("NotAudioTrack"),
        PlaybackPipelineError::NoAudioTrack => text.append("NoAudioTrack"),
        PlaybackPipelineError::EpochMismatch { expected, actual } => push_epoch_pair(
            text,
            "EpochMismatch { ",
            "expected: ",
            *expected,
            ", actual: ",
            *actual,
        ),
        PlaybackPipelineError::InvalidSeekEpoch { current, requested } => push_epoch_pair(
            text,
            "InvalidSeekEpoch { ",
            "current: ",
            *current,
            ", requested: ",
            *requested,
        ),
        PlaybackPipelineError::Clock(e) => push_wrapped(text, "Clock(", clock_error_name(*e)),
    }
}

/// Reads the debug form of `std::io::Error` through `format!`. Nothing is
/// stated of the text: it may hold the operating system's message.
#[verifier::external_body]
fn io_error_debug_text(error: &std::io::Error) -> String {
    format!("{error:?}")
}

/// An error of the runtime, where `io` is the text of the I/O error that a
/// failed thread spawn carries.
pub open spec fn runtime_error_text(error: RuntimeError, io: Seq<char>) -> Seq<char> {
    match error {
        RuntimeError::THreadSpawn(_) => "THreadSpawn("@ + io + ")"@,
        RuntimeError::WorkerDisconnected => "WorkerDisconnected"@,
        RuntimeError::WorkerPanicked => "WorkerPanicked"@,
        RuntimeError::SessionFailed => "SessionFailed"@,
        RuntimeError::EpochMismatch { expected, actual } => epoch_pair_text(
            "EpochMismatch { "@,
            "expected: "@,
            expected,
            ", actual: "@,
            actual,
        ),
        RuntimeError::WorkerAlreadyExists => "WorkerAlreadyExists"@,
        RuntimeError::WorkerNotPrepared => "WorkerNotPrepared"@,
        RuntimeError::Cancelled => "Cancelled"@,
    }
}

fn push_runtime_error(text: &mut String, error: &RuntimeError) -> (io: Ghost<Seq<char>>)
    ensures
        final(text)@ == old(text)@ + runtime_error_text(*error, io@),
{
    match error {
        RuntimeError::THreadSpawn(e) => {
            let io_text = io_error_debug_text(e);
            push_wrapped(text, "THreadSpawn(", io_text.as_str());
            Ghost(io_text@)
        },
        RuntimeError::WorkerDisconnected => {
            text.append("WorkerDisconnected");
            Ghost(Seq::empty())
        },
        RuntimeError::WorkerPanicked => {
            text.append("WorkerPanicked");
            Ghost(Seq::empty())
        },
        RuntimeError::SessionFailed => {
            text.append("SessionFailed");
            Ghost(Seq::empty())
        },
        RuntimeError::EpochMismatch { expected, actual } => {
            push_epoch_pair(text, "EpochMismatch { ", "expected: ", *expected, ", actual: ", *actual);
            Ghost(Seq::empty())
        },
        RuntimeError::WorkerAlreadyExists => {
            text.append("WorkerAlreadyExists");
            Ghost(Seq::empty())
        },
        RuntimeError::WorkerNotPrepared => {
            text.append("WorkerNotPrepared");
            Ghost(Seq::empty())
        },
        RuntimeError::Cancelled => {
            text.append("Cancelled");
            Ghost(Seq::empty())
        },
    }
}

/// A playback error, where `io` is the text of the I/O error that it
/// carries, if any.
pub open spec fn playback_error_text(error: PlaybackError, io: Seq<char>) -> Seq<char> {
    match error {
        PlaybackError::Demux(e) => "Demux("@ + demux_error_text(e) + ")"@,
        PlaybackError::Decode(e) => "Decode("@ + decode_error_text(e) + ")"@,
        PlaybackError::AudioOutput(e) => "AudioOutput("@ + audio_output_error_text(e) + ")"@,
        PlaybackError::VideoOutput(e) => "VideoOutput("@ + video_output_error_text(e) + ")"@,
        PlaybackError::Pipeline(e) => "Pipeline("@ + pipeline_error_text(e) + ")"@,
        PlaybackError::Runtime(e) => "Runtime("@ + runtime_error_text(e, io) + ")"@,
    }
}

/// Whether a playback error carries an I/O error (a failed thread spawn).
pub open spec fn carries_io_error(error: PlaybackError) -> bool {
    error matches PlaybackError::Runtime(RuntimeError::THreadSpawn(_))
}

/// The reason given for a playback failure: the error in its debug form.
/// Only the text of an I/O error inside it is not stated.
pub fn failure_reason(error: &PlaybackError) -> (r: String)
    ensures
        exists|io: Seq<char>| r@ == #[trigger] playback_error_text(*error, io),
        !carries_io_error(*error) ==> r@ == playback_error_text(*error, Seq::empty()),
{
    let mut text = String::new();
    let ghost io: Seq<char> = Seq::empty();
    match error {
        PlaybackError::Demux(e) => push_wrapped(&mut text, "Demux(", demux_error_name(*e)),
        PlaybackError::Decode(e) => push_wrapped(&mut text, "Decode(", decode_error_name(*e)),
        PlaybackError::AudioOutput(e) => push_wrapped(
            &mut text,
            "AudioOutput(",
            audio_output_error_name(*e),
        ),
        PlaybackError::VideoOutput(e) => push_wrapped(
            &mut text,
            "VideoOutput(",
            video_output_error_name(*e),
        ),
        PlaybackError::Pipeline(e) => {
            text.append("Pipeline(");
            push_pipeline_error(&mut text, e);
            text.append(")");
        },
        PlaybackError::Runtime(e) => {
            text.append("Runtime(");
            let inner = push_runtime_error(&mut text, e);
            text.append(")");
            proof {
                io = inner@;
            }
        },
    }
    proof {
        assert(text@ =~= playback_error_text(*error, io));
        if !carries_io_error(*error) {
            assert(text@ =~= playback_error_text(*error, Seq::empty()));
        }
    }
    text
}

} // verus!
