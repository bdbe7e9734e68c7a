//! An audio output over a native 16-bit PCM stream. It holds at most one
//! block of PCM that the stream has not taken yet, writes at most once per
//! call without blocking, and starts the stream once there is something to
//! play.
use crate::backends::aaudio::{
    map_error, output_error, write_request, written_frames, written_frames_result, AAudioError,
    RawWrite,
};
use crate::media::format::AudioTrackFormat;
use crate::media::frame::{AudioBuffer, AudioSamples, DecodedFrame};
use crate::ports::audio_output::{
    AudioOutput, AudioOutputError, AudioOutputFactory, AudioPlaybackPosition, AudioSubmitResult,
    is_fresh_output,
};
use crate::timing::instant::{MonotonicClock, MonotonicInstant};
use vstd::prelude::*;

verus! {

/// A native PCM stream, as the output uses it.
pub trait PcmStream {
    /// The rate the stream was opened with.
    fn sample_rate(&self) -> u32;

    /// The channel count the stream was opened with.
    fn channels(&self) -> u16;

    /// Writes the first `frames` whole frames of the interleaved `samples`
    /// without blocking, and gives the native answer.
    fn write_frames(&mut self, samples: &[i16], frames: i32) -> RawWrite;

    /// The frames consumed by the device and the frames written so far.
    fn frame_counters(&self) -> Result<(u64, u64), AAudioError>;

    fn start(&mut self) -> Result<(), AAudioError>;

    fn pause(&mut self) -> Result<(), AAudioError>;

    fn flush(&mut self) -> Result<(), AAudioError>;
}

/// What writing `sample_count` interleaved samples to a stream of
/// `channels` channels may give: a stream of no channels is an invalid
/// format; samples that are not whole frames, or more frames than an `i32`
/// holds, are refused before anything is written; no samples write
/// nothing; otherwise the native answer `raw` decides (see
/// `written_frames`), so that at most the frames offered are taken.
pub open spec fn write_outcome(
    sample_count: int,
    channels: u16,
    raw: RawWrite,
    r: Result<usize, AAudioError>,
) -> bool {
    if channels == 0 {
        r == Err::<usize, AAudioError>(AAudioError::InvalidFormat)
    } else if sample_count % (channels as int) != 0 {
        r == Err::<usize, AAudioError>(AAudioError::IncompleteFrame)
    } else if sample_count / (channels as int) > i32::MAX {
        r == Err::<usize, AAudioError>(AAudioError::BufferTooLarge)
    } else if sample_count == 0 {
        r == Ok::<usize, AAudioError>(0)
    } else {
        r == written_frames_result(raw, sample_count / (channels as int))
    }
}

/// Writes the interleaved 16-bit `samples` to `stream` of `channels`
/// channels without blocking; returns the number of whole frames taken,
/// which is at most the frames offered.
pub fn write_i16<S: PcmStream>(stream: &mut S, channels: u16, samples: &[i16]) -> (r: Result<
    usize,
    AAudioError,
>)
    ensures
        exists|raw: RawWrite| #[trigger] write_outcome(samples@.len() as int, channels, raw, r),
        r matches Ok(n) ==> channels > 0 && n <= samples@.len() / (channels as nat),
{
    if channels == 0 {
        let r = Err(AAudioError::InvalidFormat);
        proof {
            assert(write_outcome(samples@.len() as int, channels, RawWrite::Frames(0), r));
        }
        return r;
    }
    let requested = match write_request(samples.len(), channels) {
        Ok(frames) => frames,
        Err(e) => {
            let r = Err(e);
            proof {
                assert(write_outcome(samples@.len() as int, channels, RawWrite::Frames(0), r));
            }
            return r;
        },
    };
    if requested == 0 {
        let r = Ok(0);
        proof {
            assert(write_outcome(samples@.len() as int, channels, RawWrite::Frames(0), r));
        }
        return r;
    }
    let raw = stream.write_frames(samples, requested);
    let r = written_frames(raw, requested as usize);
    proof {
        assert(write_outcome(samples@.len() as int, channels, raw, r));
    }
    r
}

/// The most frames that one submitted block may hold.
pub const MAX_BLOCK_FRAMES: usize = 4096;

/// The frames of a buffer.
pub open spec fn frames_of(buffer: AudioBuffer) -> nat {
    buffer.spec_samples().count() / (buffer.channel_count() as nat)
}

/// The 16-bit samples of a buffer (none for a buffer of floats).
pub open spec fn i16_samples(buffer: AudioBuffer) -> Seq<i16> {
    match buffer.spec_samples() {
        AudioSamples::I16(samples) => samples@,
        AudioSamples::F32(_) => Seq::empty(),
    }
}

/// The verdict on a block for a stream of `rate` and `channels`: another
/// rate, channel count or sample type is an invalid format; more than
/// `MAX_BLOCK_FRAMES` frames is too large.
pub open spec fn pcm_block_check(buffer: AudioBuffer, rate: u32, channels: u16) -> Result<
    (),
    AudioOutputError,
> {
    if !(buffer.sample_rate() == rate && buffer.channel_count() == channels
        && buffer.spec_samples() is I16) {
        Err(AudioOutputError::InvalidFormat)
    } else if frames_of(buffer) > MAX_BLOCK_FRAMES {
        Err(AudioOutputError::BufferTooLarge)
    } else {
        Ok(())
    }
}

/// Checks a block against a stream of `rate` and `channels`: it must have
/// that rate and channel count and 16-bit samples, and at most
/// `MAX_BLOCK_FRAMES` frames.
pub fn check_pcm_block(buffer: &AudioBuffer, rate: u32, channels: u16) -> (r: Result<
    (),
    AudioOutputError,
>)
    ensures
        r == pcm_block_check(*buffer, rate, channels),
        !(buffer.sample_rate() == rate && buffer.channel_count() == channels
            && buffer.spec_samples() is I16) ==> r == Err::<(), AudioOutputError>(
            AudioOutputError::InvalidFormat,
        ),
        (buffer.sample_rate() == rate && buffer.channel_count() == channels
            && buffer.spec_samples() is I16) ==> (r is Ok <==> frames_of(*buffer)
            <= MAX_BLOCK_FRAMES),
        r is Err && (buffer.sample_rate() == rate && buffer.channel_count() == channels
            && buffer.spec_samples() is I16) ==> r == Err::<(), AudioOutputError>(
            AudioOutputError::BufferTooLarge,
        ),
{
    let is_i16 = match buffer.samples() {
        AudioSamples::I16(_) => true,
        AudioSamples::F32(_) => false,
    };
    if buffer.sample_rate() != rate || buffer.channel_count() != channels || !is_i16 {
        return Err(AudioOutputError::InvalidFormat);
    }
    if buffer.frame_count() > MAX_BLOCK_FRAMES {
        return Err(AudioOutputError::BufferTooLarge);
    }
    Ok(())
}

/// A block that the stream has taken in part: `offset_frames` of its frames
/// are written.
struct PendingPcm {
    frame: DecodedFrame<AudioBuffer>,
    offset_frames: usize,
}

/// What the output keeps besides its stream.
struct OutputState {
    pending: Option<PendingPcm>,
    running: bool,
    started: bool,
}

/// An audio output over a native stream.
pub struct AndroidAudioOutput<S> {
    stream: S,
    state: OutputState,
    clock: MonotonicClock,
    accepted: Ghost<Seq<DecodedFrame<AudioBuffer>>>,
    counters: Ghost<Option<(u64, u64)>>,
    format_seen: Ghost<Option<(u32, u16)>>,
    handed: Ghost<Seq<Seq<i16>>>,
    stream_errors: Ghost<Seq<AAudioError>>,
    flushes: Ghost<nat>,
    positions: Ghost<Seq<AudioPlaybackPosition>>,
    drains: Ghost<Seq<bool>>,
    format_asked: Ghost<(u32, u16)>,
}

/// The position of a stream whose device consumed `consumed` frames of the
/// `written` ones: the smaller of the two, observed at `observed_at`.
pub fn position_from_counters(consumed: u64, written: u64, observed_at: MonotonicInstant) -> (r:
    AudioPlaybackPosition)
    ensures
        r.played_frames() == (if consumed < written {
            consumed
        } else {
            written
        }),
        r.observed_at() == observed_at,
{
    let played = if consumed < written {
        consumed
    } else {
        written
    };
    AudioPlaybackPosition::new(played, observed_at)
}

/// A pending block holds 16-bit samples and frames that are not written yet.
spec fn pending_ok(pending: Option<PendingPcm>) -> bool {
    pending matches Some(p) ==> p.frame.spec_payload().spec_samples() is I16 && p.offset_frames
        < frames_of(p.frame.spec_payload())
}

impl OutputState {
    #[verifier::type_invariant]
    spec fn well_formed(self) -> bool {
        pending_ok(self.pending)
    }
}

impl<S> AndroidAudioOutput<S> {
    /// Whether the output plays when the stream has data.
    pub closed spec fn running(&self) -> bool {
        self.state.running
    }

    /// Whether the native stream was started since the last pause.
    pub closed spec fn started(&self) -> bool {
        self.state.started
    }

    /// Whether a block waits to be written in full.
    pub closed spec fn has_pending(&self) -> bool {
        self.state.pending is Some
    }

    /// The last answer of the stream's frame counters, consumed then
    /// written, when they were read.
    pub closed spec fn last_counters(&self) -> Option<(u64, u64)> {
        self.counters@
    }

    /// The rate and channel count the stream reported at the last check of
    /// a block.
    pub closed spec fn last_format(&self) -> Option<(u32, u16)> {
        self.format_seen@
    }

    /// The samples handed to the stream's writes, one entry per write,
    /// oldest first.
    pub closed spec fn handed_samples(&self) -> Seq<Seq<i16>> {
        self.handed@
    }

    /// The errors the stream answered (a write count beyond what was
    /// offered among them), oldest first.
    pub closed spec fn stream_errors(&self) -> Seq<AAudioError> {
        self.stream_errors@
    }
}

impl<S: PcmStream> AndroidAudioOutput<S> {
    /// A paused output over `stream`, holding nothing.
    pub fn new(stream: S) -> (r: Self)
        ensures
            !r.running() && !r.started() && !r.has_pending(),
            r.handed_samples() == Seq::<Seq<i16>>::empty(),
            r.stream_errors() == Seq::<AAudioError>::empty(),
            is_fresh_output(r),
    {
        Self::over_stream(stream, Ghost(arbitrary()))
    }

    /// A paused output over `stream`, opened for the rate and channel count
    /// `asked`.
    fn over_stream(stream: S, asked: Ghost<(u32, u16)>) -> (r: Self)
        ensures
            !r.running() && !r.started() && !r.has_pending(),
            r.handed_samples() == Seq::<Seq<i16>>::empty(),
            r.stream_errors() == Seq::<AAudioError>::empty(),
            is_fresh_output(r),
            r.created_for() == asked@,
    {
        AndroidAudioOutput {
            stream,
            state: OutputState { pending: None, running: false, started: false },
            clock: MonotonicClock::start(),
            accepted: Ghost(Seq::empty()),
            counters: Ghost(None),
            format_seen: Ghost(None),
            handed: Ghost(Seq::empty()),
            stream_errors: Ghost(Seq::empty()),
            flushes: Ghost(0),
            positions: Ghost(Seq::empty()),
            drains: Ghost(Seq::empty()),
            format_asked: asked,
        }
    }

    /// Checks a block against the stream; see `check_pcm_block`.
    fn validate(&mut self, frame: &DecodedFrame<AudioBuffer>) -> (r: Result<(), AudioOutputError>)
        ensures
            final(self).last_format() matches Some((rate, channels)) && r == pcm_block_check(
                frame.spec_payload(),
                rate,
                channels,
            ),
            final(self).state == old(self).state,
            final(self).accepted == old(self).accepted,
            final(self).flushes == old(self).flushes,
            final(self).positions == old(self).positions,
            final(self).drains == old(self).drains,
            final(self).handed == old(self).handed,
            final(self).stream_errors == old(self).stream_errors,
    {
        let rate = self.stream.sample_rate();
        let channels = self.stream.channels();
        self.format_seen = Ghost(Some((rate, channels)));
        check_pcm_block(frame.payload(), rate, channels)
    }

    /// Records that the stream answered `error`, and maps it to the port's
    /// error.
    fn stream_failed(&mut self, error: AAudioError) -> (r: AudioOutputError)
        ensures
            r == output_error(error),
            final(self).stream_errors() == old(self).stream_errors().push(error),
            final(self).state == old(self).state,
            final(self).accepted == old(self).accepted,
            final(self).flushes == old(self).flushes,
            final(self).positions == old(self).positions,
            final(self).drains == old(self).drains,
            final(self).handed == old(self).handed,
            final(self).format_seen == old(self).format_seen,
    {
        self.stream_errors = Ghost(self.stream_errors@.push(error));
        map_error(error)
    }

    /// Writes once what is pending, if the output runs, then starts the
    /// stream if it was not started and there is something to play.
    fn pump(&mut self) -> (r: Result<(), AudioOutputError>)
        ensures
            final(self).running() == old(self).running(),
            !old(self).running() ==> r is Ok && final(self).has_pending() == old(self).has_pending() && final(self).started() == old(self).started(),
            old(self).started() ==> final(self).started(),
            !old(self).has_pending() ==> !final(self).has_pending(),
            old(self).running() && !old(self).started() && old(self).has_pending() && r is Ok
                ==> final(self).started(),
            final(self).accepted == old(self).accepted,
            final(self).flushes == old(self).flushes,
            final(self).positions == old(self).positions,
            final(self).drains == old(self).drains,
            final(self).format_seen == old(self).format_seen,
            match old(self).state.pending {
                Some(p) if old(self).running() => final(self).handed_samples() == old(self).handed_samples().push(
                    i16_samples(p.frame.spec_payload()).subrange(
                        p.offset_frames * p.frame.spec_payload().channel_count(),
                        i16_samples(p.frame.spec_payload()).len() as int,
                    ),
                ),
                _ => final(self).handed_samples() == old(self).handed_samples(),
            },
            r is Ok ==> final(self).stream_errors() == old(self).stream_errors(),
            r matches Err(x) ==> exists|e: AAudioError|
                final(self).stream_errors() == old(self).stream_errors().push(e) && x
                    == output_error(e),
    {
        if !self.state.running {
            return Ok(());
        }
        let had_pending = self.state.pending.is_some();
        proof {
            use_type_invariant(&self.state);
        }
        let mut taken = None;
        std::mem::swap(&mut taken, &mut self.state.pending);
        assert(pending_ok(taken));
        if let Some(mut pending) = taken {
            let buffer = pending.frame.payload();
            let channels = buffer.channel_count() as usize;
            let frame_count = buffer.frame_count();
            let samples = match buffer.samples() {
                AudioSamples::I16(samples) => samples,
                AudioSamples::F32(_) => {
                    self.state.pending = Some(pending);
                    return Err(AudioOutputError::InvalidFormat);
                },
            };
            let total = samples.len();
            proof {
                vstd::arithmetic::mul::lemma_mul_inequality(
                    pending.offset_frames as int,
                    frame_count as int,
                    channels as int,
                );
                assert(frame_count * channels == samples@.len());
                assert(pending.offset_frames * channels <= samples@.len());
            }
            let offset_samples = pending.offset_frames * channels;
            let rest = vstd::slice::slice_subrange(samples.as_slice(), offset_samples, total);
            self.handed = Ghost(self.handed@.push(rest@));
            let stream_channels = self.stream.channels();
            let written = match write_i16(&mut self.stream, stream_channels, rest) {
                Ok(written) => written,
                Err(e) => {
                    self.state.pending = Some(pending);
                    return Err(self.stream_failed(e));
                },
            };
            if written > frame_count - pending.offset_frames {
                self.state.pending = Some(pending);
                return Err(self.stream_failed(AAudioError::InvalidWriteCount));
            }
            pending.offset_frames = pending.offset_frames + written;
            if pending.offset_frames < frame_count {
                self.state.pending = Some(pending);
            }
        }
        if !self.state.started {
            let (consumed, written) = match self.stream.frame_counters() {
                Ok(counters) => counters,
                Err(e) => return Err(self.stream_failed(e)),
            };
            self.counters = Ghost(Some((consumed, written)));
            if had_pending || written > consumed {
                match self.stream.start() {
                    Ok(()) => {},
                    Err(e) => return Err(self.stream_failed(e)),
                }
                self.state.started = true;
            }
        }
        Ok(())
    }
}

impl<S: PcmStream> AudioOutput for AndroidAudioOutput<S> {
    closed spec fn accepted_frames(&self) -> Seq<DecodedFrame<AudioBuffer>> {
        self.accepted@
    }

    /// The output plays while it runs.
    closed spec fn is_started(&self) -> bool {
        self.state.running
    }

    closed spec fn flush_count(&self) -> nat {
        self.flushes@
    }

    closed spec fn reported_positions(&self) -> Seq<AudioPlaybackPosition> {
        self.positions@
    }

    closed spec fn drain_answers(&self) -> Seq<bool> {
        self.drains@
    }

    /// The rate and channel count asked of the opener; nothing is known of
    /// it for an output made directly over a stream.
    closed spec fn created_for(&self) -> (u32, u16) {
        self.format_asked@
    }

    /// Checks the block, writes what is pending; then takes the block if
    /// nothing is pending any more (and writes it at once), or gives it back.
    fn submit(&mut self, frame: DecodedFrame<AudioBuffer>) -> (r: Result<
        AudioSubmitResult,
        AudioOutputError,
    >)
        ensures
            r matches Ok(AudioSubmitResult::Backpressure(_)) ==> final(self).has_pending(),
            final(self).running() == old(self).running(),
            final(self).last_format() matches Some((rate, channels)) && {
                let check = pcm_block_check(frame.spec_payload(), rate, channels);
                &&& check matches Err(e) ==> r == Err::<AudioSubmitResult, AudioOutputError>(e)
                    && final(self).has_pending() == old(self).has_pending()
                    && final(self).accepted_frames() == old(self).accepted_frames()
                    && final(self).handed_samples() == old(self).handed_samples()
                    && final(self).stream_errors() == old(self).stream_errors()
                &&& check is Ok ==> (r matches Err(x) ==> exists|e: AAudioError|
                    final(self).stream_errors() == old(self).stream_errors().push(e) && x
                        == output_error(e))
                &&& r is Ok ==> check is Ok && final(self).stream_errors() == old(self).stream_errors()
            },
            r matches Ok(AudioSubmitResult::Accepted) && old(self).running() && frames_of(
                frame.spec_payload(),
            ) > 0 ==> final(self).handed_samples().len() > 0 && final(self).handed_samples().last()
                == i16_samples(frame.spec_payload()),
    {
        let ghost given = frame;
        self.validate(&frame)?;
        self.pump()?;
        if self.state.pending.is_some() {
            return Ok(AudioSubmitResult::Backpressure(frame));
        }
        if frame.payload().frame_count() == 0 {
            self.accepted = Ghost(self.accepted@.push(given));
            return Ok(AudioSubmitResult::Accepted);
        }
        proof {
            let whole = i16_samples(given.spec_payload());
            assert(0 * given.spec_payload().channel_count() == 0);
            assert(whole.subrange(0, whole.len() as int) =~= whole);
        }
        self.state.pending = Some(PendingPcm { frame, offset_frames: 0 });
        self.pump()?;
        self.accepted = Ghost(self.accepted@.push(given));
        Ok(AudioSubmitResult::Accepted)
    }

    /// Lets the output play, and writes what is pending.
    fn start(&mut self) -> (r: Result<(), AudioOutputError>)
        ensures
            final(self).running(),
    {
        proof {
            use_type_invariant(&self.state);
        }
        self.state.running = true;
        self.pump()
    }

    /// Stops playing and pauses the stream.
    fn pause(&mut self) -> (r: Result<(), AudioOutputError>)
        ensures
            !final(self).running(),
            r is Ok ==> !final(self).started(),
            final(self).has_pending() == old(self).has_pending(),
    {
        proof {
            use_type_invariant(&self.state);
        }
        self.state.running = false;
        match self.stream.pause() {
            Ok(()) => {},
            Err(e) => return Err(self.stream_failed(e)),
        }
        self.state.started = false;
        Ok(())
    }

    /// Pauses, empties the stream and drops what is pending.
    fn flush(&mut self) -> (r: Result<(), AudioOutputError>)
        ensures
            !final(self).running(),
            r is Ok ==> !final(self).started() && !final(self).has_pending(),
    {
        self.pause()?;
        match self.stream.flush() {
            Ok(()) => {},
            Err(e) => return Err(self.stream_failed(e)),
        }
        self.state.pending = None;
        self.flushes = Ghost(self.flushes@ + 1);
        Ok(())
    }

    /// The frames consumed by the device, at most those written, observed
    /// now.
    fn playback_position(&mut self) -> (r: Result<AudioPlaybackPosition, AudioOutputError>)
        ensures
            r matches Ok(p) ==> (final(self).last_counters() matches Some((consumed, written))
                && p.played_frames() == (if consumed < written {
                consumed
            } else {
                written
            })),
    {
        let (consumed, written) = match self.stream.frame_counters() {
            Ok(counters) => counters,
            Err(e) => return Err(self.stream_failed(e)),
        };
        self.counters = Ghost(Some((consumed, written)));
        let position = position_from_counters(consumed, written, self.clock.now());
        self.positions = Ghost(self.positions@.push(position));
        Ok(position)
    }

    /// Writes what is pending, then tells whether nothing is pending and the
    /// device consumed everything written.
    fn is_drained(&mut self) -> (r: Result<bool, AudioOutputError>)
        ensures
            r matches Ok(drained) ==> (final(self).last_counters() matches Some((consumed, written))
                && drained == (!final(self).has_pending() && consumed >= written)),
    {
        self.pump()?;
        let (consumed, written) = match self.stream.frame_counters() {
            Ok(counters) => counters,
            Err(e) => return Err(self.stream_failed(e)),
        };
        self.counters = Ghost(Some((consumed, written)));
        let drained = self.state.pending.is_none() && consumed >= written;
        self.drains = Ghost(self.drains@.push(drained));
        Ok(drained)
    }
}

/// Opens native PCM streams.
pub trait PcmStreamOpener {
    type Stream: PcmStream;

    /// Opens a 16-bit output stream of `sample_rate` and `channels`.
    fn open(&self, sample_rate: u32, channels: u16) -> Result<Self::Stream, AAudioError>;
}

/// Builds Android audio outputs, each over a stream opened for the track's
/// rate and channel count.
pub struct AndroidAudioOutputFactory<P> {
    opener: P,
}

impl<P> AndroidAudioOutputFactory<P> {
    /// The opener of the factory's streams.
    pub closed spec fn opener(&self) -> P {
        self.opener
    }
}

impl<P: PcmStreamOpener> AndroidAudioOutputFactory<P> {
    pub fn new(opener: P) -> (r: Self)
        ensures
            r.opener() == opener,
    {
        AndroidAudioOutputFactory { opener }
    }

    /// Opens the stream for `format`; a failure to open it is mapped as
    /// `output_error` says.
    pub fn open_output(&self, format: &AudioTrackFormat) -> (r: Result<
        AndroidAudioOutput<P::Stream>,
        AudioOutputError,
    >)
        ensures
            r matches Ok(o) ==> !o.running() && !o.started() && !o.has_pending()
                && is_fresh_output(o) && o.created_for() == (format.sample_rate(), format.channel_count()),
            r matches Err(x) ==> exists|e: AAudioError| x == #[trigger] output_error(e),
    {
        match self.opener.open(format.sample_rate(), format.channel_count()) {
            Ok(stream) => Ok(
                AndroidAudioOutput::over_stream(
                    stream,
                    Ghost((format.sample_rate(), format.channel_count())),
                ),
            ),
            Err(e) => Err(map_error(e)),
        }
    }
}

impl<P: PcmStreamOpener> AudioOutputFactory for AndroidAudioOutputFactory<P> {
    type Output = AndroidAudioOutput<P::Stream>;

    /// A fresh output over a stream opened for `format`; see `open_output`.
    fn create(&self, format: &AudioTrackFormat) -> (r: Result<Self::Output, AudioOutputError>)
        ensures
            r matches Ok(o) ==> !o.running() && !o.started() && !o.has_pending(),
    {
        self.open_output(format)
    }
}

} // verus!
