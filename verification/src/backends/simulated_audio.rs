//! An audio output that plays nothing: it keeps count of the frames it
//! holds and consumes them at the sample rate as monotonic time passes.
use crate::media::format::AudioTrackFormat;
use crate::media::frame::{AudioBuffer, AudioSamples, DecodedFrame};
use crate::ports::audio_output::{
    AudioOutput, AudioOutputError, AudioOutputFactory, AudioPlaybackPosition, AudioSubmitResult,
    is_fresh_output,
};
use crate::timing::instant::{MonotonicClock, MonotonicInstant};
use vstd::prelude::*;

verus! {

/// The counters of a simulated output: frames held, frames played, the
/// instant of the last update while running, and the fraction of a frame
/// (in units of 1/1e9 frame) carried over.
pub struct SimulatedState {
    pub buffered_frames: u64,
    pub played_frames: u64,
    pub last_update: Option<MonotonicInstant>,
    pub frame_remainder: u128,
}

/// The state after letting the output play from its last update to `now`,
/// or `None` when that fails (`now` before the last update, or the played
/// counter overflowing). Without a last update (paused), nothing changes.
///
/// The frames due are `elapsed * rate + remainder` in units of 1/1e9 frame;
/// at most the held frames are consumed; the fraction carries over while
/// frames remain held.
pub open spec fn advance(s: SimulatedState, rate: int, now: MonotonicInstant) -> Option<
    SimulatedState,
> {
    match s.last_update {
        None => Some(s),
        Some(previous) => if now.nanos() < previous.nanos() {
            None
        } else {
            let scaled = (now.nanos() - previous.nanos()) * rate + s.frame_remainder;
            let due = scaled / 1_000_000_000;
            let consumed = if due < s.buffered_frames {
                due
            } else {
                s.buffered_frames as int
            };
            if s.played_frames + consumed > u64::MAX {
                None
            } else {
                let buffered = s.buffered_frames - consumed;
                Some(
                    SimulatedState {
                        buffered_frames: buffered as u64,
                        played_frames: (s.played_frames + consumed) as u64,
                        last_update: Some(now),
                        frame_remainder: if buffered == 0 {
                            0
                        } else {
                            (scaled % 1_000_000_000) as u128
                        },
                    },
                )
            }
        },
    }
}

/// A simulated audio device with room for `capacity_frames` frames.
pub struct SimulatedAudioOutput {
    sample_rate: u32,
    channels: u16,
    capacity_frames: u64,
    buffered_frames: u64,
    played_frames: u64,
    last_update: Option<MonotonicInstant>,
    frame_remainder: u128,
    clock: MonotonicClock,
    accepted: Ghost<Seq<DecodedFrame<AudioBuffer>>>,
    flushes: Ghost<nat>,
    positions: Ghost<Seq<AudioPlaybackPosition>>,
    drains: Ghost<Seq<bool>>,
}

impl SimulatedAudioOutput {
    #[verifier::type_invariant]
    spec fn well_formed(self) -> bool {
        &&& self.sample_rate > 0
        &&& self.channels == 1 || self.channels == 2
        &&& self.capacity_frames > 0
        &&& self.buffered_frames <= self.capacity_frames
        &&& self.frame_remainder < 1_000_000_000
    }

    pub closed spec fn spec_sample_rate(&self) -> u32 {
        self.sample_rate
    }

    pub closed spec fn spec_channels(&self) -> u16 {
        self.channels
    }

    pub closed spec fn capacity(&self) -> u64 {
        self.capacity_frames
    }

    /// How many times this output was flushed.
    pub closed spec fn flushes(&self) -> nat {
        self.flushes@
    }

    /// The answers this output gave on whether it drained, oldest first.
    pub closed spec fn drains(&self) -> Seq<bool> {
        self.drains@
    }

    /// The positions this output reported, oldest first.
    pub closed spec fn positions(&self) -> Seq<AudioPlaybackPosition> {
        self.positions@
    }

    /// The frames this output has taken, oldest first.
    pub closed spec fn spec_accepted(&self) -> Seq<DecodedFrame<AudioBuffer>> {
        self.accepted@
    }

    /// The counters of this output.
    pub closed spec fn counters(&self) -> SimulatedState {
        SimulatedState {
            buffered_frames: self.buffered_frames,
            played_frames: self.played_frames,
            last_update: self.last_update,
            frame_remainder: self.frame_remainder,
        }
    }

    /// An empty, paused output with its own monotonic clock. The rate must
    /// be positive, the channels one or two, and the capacity positive.
    pub fn new(sample_rate: u32, channels: u16, capacity_frames: u64) -> (r: Result<
        SimulatedAudioOutput,
        AudioOutputError,
    >)
        ensures
            (sample_rate == 0 || (channels != 1 && channels != 2)) ==> (r matches Err(e) && e
                == AudioOutputError::InvalidFormat),
            !(sample_rate == 0 || (channels != 1 && channels != 2)) && capacity_frames == 0
                ==> (r matches Err(e) && e == AudioOutputError::InvalidState),
            !(sample_rate == 0 || (channels != 1 && channels != 2)) && capacity_frames != 0
                ==> (r matches Ok(o) && o.spec_sample_rate() == sample_rate && o.spec_channels()
                == channels && o.capacity() == capacity_frames && is_fresh_output(o)
                && o.counters() == (SimulatedState {
                buffered_frames: 0,
                played_frames: 0,
                last_update: None,
                frame_remainder: 0,
            })),
    {
        if sample_rate == 0 || (channels != 1 && channels != 2) {
            return Err(AudioOutputError::InvalidFormat);
        }
        if capacity_frames == 0 {
            return Err(AudioOutputError::InvalidState);
        }
        Ok(
            SimulatedAudioOutput {
                sample_rate,
                channels,
                capacity_frames,
                buffered_frames: 0,
                played_frames: 0,
                last_update: None,
                frame_remainder: 0,
                clock: MonotonicClock::start(),
                accepted: Ghost(Seq::empty()),
                flushes: Ghost(0),
                positions: Ghost(Seq::empty()),
                drains: Ghost(Seq::empty()),
            },
        )
    }

    /// What `submit_at` does at `now`.
    pub open spec fn submit_outcome(
        before: SimulatedAudioOutput,
        after: SimulatedAudioOutput,
        frame: DecodedFrame<AudioBuffer>, now: MonotonicInstant,
        r: Result<AudioSubmitResult, AudioOutputError>,
    ) -> bool {
        &&& r matches Ok(AudioSubmitResult::Accepted) ==> after.spec_accepted()
            == before.spec_accepted().push(frame)
        &&& !(r matches Ok(AudioSubmitResult::Accepted)) ==> after.spec_accepted()
            == before.spec_accepted()
        &&& after.flushes() == before.flushes()
        &&& after.positions() == before.positions()
        &&& after.drains() == before.drains()
        &&& after.spec_sample_rate() == before.spec_sample_rate()
        &&& after.spec_channels() == before.spec_channels()
        &&& after.capacity() == before.capacity()
        &&& match advance(before.counters(), before.spec_sample_rate() as int, now) {
                None => r matches Err(e) && e == AudioOutputError::InvalidState,
                Some(s) => {
                    let buffer = frame.spec_payload();
                    let frames = buffer.spec_samples().count() / (buffer.channel_count() as nat);
                    if buffer.sample_rate() != before.spec_sample_rate() || buffer.channel_count()
                        != before.spec_channels() || !(buffer.spec_samples() is I16) {
                        r matches Err(e) && e == AudioOutputError::InvalidFormat
                    } else if frames > before.capacity() {
                        r matches Err(e) && e == AudioOutputError::BufferTooLarge
                    } else if frames > before.capacity() - s.buffered_frames {
                        r matches Ok(AudioSubmitResult::Backpressure(f)) && f == frame
                            && after.counters() == s
                    } else {
                        r matches Ok(AudioSubmitResult::Accepted) && after.counters() == (
                        SimulatedState { buffered_frames: (s.buffered_frames + frames) as u64, ..s })
                    }
                }
        }
    }

    /// What `pause_at` does at `now`.
    pub open spec fn pause_outcome(
        before: SimulatedAudioOutput,
        after: SimulatedAudioOutput,
        now: MonotonicInstant,
        r: Result<(), AudioOutputError>,
    ) -> bool {
        &&& after.spec_accepted() == before.spec_accepted()
        &&& after.flushes() == before.flushes()
        &&& after.positions() == before.positions()
        &&& after.drains() == before.drains()
        &&& after.spec_sample_rate() == before.spec_sample_rate()
        &&& after.spec_channels() == before.spec_channels()
        &&& after.capacity() == before.capacity()
        &&& match advance(before.counters(), before.spec_sample_rate() as int, now) {
                None => r matches Err(e) && e == AudioOutputError::InvalidState,
                Some(s) => r is Ok && after.counters() == (SimulatedState {
                    last_update: None,
                    ..s
                })
        }
    }

    /// What `flush_at` does at `now`.
    pub open spec fn flush_outcome(
        before: SimulatedAudioOutput,
        after: SimulatedAudioOutput,
        now: MonotonicInstant,
        r: Result<(), AudioOutputError>,
    ) -> bool {
        &&& after.spec_accepted() == before.spec_accepted()
        &&& after.positions() == before.positions()
        &&& after.drains() == before.drains()
        &&& after.flushes() == before.flushes() + (if r is Ok {
            1nat
        } else {
            0nat
        })
        &&& after.spec_sample_rate() == before.spec_sample_rate()
        &&& after.spec_channels() == before.spec_channels()
        &&& after.capacity() == before.capacity()
        &&& match advance(before.counters(), before.spec_sample_rate() as int, now) {
                None => r matches Err(e) && e == AudioOutputError::InvalidState,
                Some(s) => r is Ok && after.counters() == (SimulatedState {
                    buffered_frames: 0,
                    frame_remainder: 0,
                    ..s
                })
        }
    }

    /// What `playback_position_at` does at `now`.
    pub open spec fn position_outcome(
        before: SimulatedAudioOutput,
        after: SimulatedAudioOutput,
        now: MonotonicInstant,
        r: Result<AudioPlaybackPosition, AudioOutputError>,
    ) -> bool {
        &&& after.spec_accepted() == before.spec_accepted()
        &&& after.flushes() == before.flushes()
        &&& after.positions() == match r {
            Ok(p) => before.positions().push(p),
            Err(_) => before.positions(),
        }
        &&& after.drains() == before.drains()
        &&& after.spec_sample_rate() == before.spec_sample_rate()
        &&& after.spec_channels() == before.spec_channels()
        &&& after.capacity() == before.capacity()
        &&& match advance(before.counters(), before.spec_sample_rate() as int, now) {
                None => r matches Err(e) && e == AudioOutputError::InvalidState,
                Some(s) => r matches Ok(p) && after.counters() == s && p.played_frames()
                    == s.played_frames && p.observed_at() == now
        }
    }

    /// What `is_drained_at` does at `now`.
    pub open spec fn drained_outcome(
        before: SimulatedAudioOutput,
        after: SimulatedAudioOutput,
        now: MonotonicInstant,
        r: Result<bool, AudioOutputError>,
    ) -> bool {
        &&& after.spec_accepted() == before.spec_accepted()
        &&& after.flushes() == before.flushes()
        &&& after.positions() == before.positions()
        &&& after.drains() == match r {
            Ok(b) => before.drains().push(b),
            Err(_) => before.drains(),
        }
        &&& after.spec_sample_rate() == before.spec_sample_rate()
        &&& after.spec_channels() == before.spec_channels()
        &&& after.capacity() == before.capacity()
        &&& match advance(before.counters(), before.spec_sample_rate() as int, now) {
                None => r matches Err(e) && e == AudioOutputError::InvalidState,
                Some(s) => r matches Ok(b) && after.counters() == s && b == (
                s.buffered_frames == 0)
        }
    }

    /// Lets the output play until `now`. Frames are conserved: the played
    /// frames grow by what the held frames shrink.
    pub fn update(&mut self, now: MonotonicInstant) -> (r: Result<(), AudioOutputError>)
        ensures
            final(self).spec_accepted() == old(self).spec_accepted(),
            final(self).flushes() == old(self).flushes(),
            final(self).positions() == old(self).positions(),
            final(self).drains() == old(self).drains(),
            final(self).spec_sample_rate() == old(self).spec_sample_rate(),
            final(self).spec_channels() == old(self).spec_channels(),
            final(self).capacity() == old(self).capacity(),
            match advance(old(self).counters(), old(self).spec_sample_rate() as int, now) {
                Some(s) => r is Ok && final(self).counters() == s,
                None => r matches Err(e) && e == AudioOutputError::InvalidState
                    && final(self).counters() == old(self).counters(),
            },
            final(self).counters().played_frames + final(self).counters().buffered_frames
                == old(self).counters().played_frames + old(self).counters().buffered_frames,
            final(self).counters().played_frames >= old(self).counters().played_frames,
    {
        proof {
            use_type_invariant(&*self);
        }
        let previous = match self.last_update {
            Some(previous) => previous,
            None => return Ok(()),
        };
        let elapsed = match now.checked_duration_since(previous) {
            Some(value) => value,
            None => return Err(AudioOutputError::InvalidState),
        };
        proof {
            vstd::arithmetic::mul::lemma_mul_upper_bound(
                elapsed as int,
                u64::MAX as int,
                self.sample_rate as int,
                u32::MAX as int,
            );
        }
        let scaled_frames = elapsed as u128 * self.sample_rate as u128 + self.frame_remainder;
        let due_frames = scaled_frames / 1_000_000_000;
        let consumed: u64 = if due_frames < self.buffered_frames as u128 {
            due_frames as u64
        } else {
            self.buffered_frames
        };
        let played_frames = match self.played_frames.checked_add(consumed) {
            Some(value) => value,
            None => return Err(AudioOutputError::InvalidState),
        };
        self.buffered_frames = self.buffered_frames - consumed;
        self.played_frames = played_frames;
        self.frame_remainder = if self.buffered_frames == 0 {
            0
        } else {
            scaled_frames % 1_000_000_000
        };
        self.last_update = Some(now);
        Ok(())
    }

    /// Takes `frame` at `now`: it must match the rate and channels of the
    /// output and hold 16-bit samples, and it must fit in the capacity at
    /// all; when the free room is too small the frame comes back.
    pub fn submit_at(&mut self, frame: DecodedFrame<AudioBuffer>, now: MonotonicInstant) -> (r:
        Result<AudioSubmitResult, AudioOutputError>)
        ensures
            Self::submit_outcome(*old(self), *final(self), frame, now, r),
    {
        let ghost given = frame;
        self.update(now)?;
        proof {
            use_type_invariant(&*self);
        }
        let buffer = frame.payload();
        let is_i16 = match buffer.samples() {
            AudioSamples::I16(_) => true,
            AudioSamples::F32(_) => false,
        };
        if buffer.sample_rate() != self.sample_rate || buffer.channel_count() != self.channels
            || !is_i16 {
            return Err(AudioOutputError::InvalidFormat);
        }
        let frames = buffer.frame_count() as u64;
        if frames > self.capacity_frames {
            return Err(AudioOutputError::BufferTooLarge);
        }
        let free_frames = self.capacity_frames - self.buffered_frames;
        if frames > free_frames {
            return Ok(AudioSubmitResult::Backpressure(frame));
        }
        self.buffered_frames = self.buffered_frames + frames;
        self.accepted = Ghost(self.accepted@.push(given));
        Ok(AudioSubmitResult::Accepted)
    }

    /// Starts playing at `now` unless already playing.
    pub fn start_at(&mut self, now: MonotonicInstant) -> (r: Result<(), AudioOutputError>)
        ensures
            final(self).spec_accepted() == old(self).spec_accepted(),
            final(self).flushes() == old(self).flushes(),
            final(self).positions() == old(self).positions(),
            final(self).drains() == old(self).drains(),
            final(self).spec_sample_rate() == old(self).spec_sample_rate(),
            final(self).spec_channels() == old(self).spec_channels(),
            final(self).capacity() == old(self).capacity(),
            r is Ok,
            final(self).counters() == (SimulatedState {
                last_update: if old(self).counters().last_update is None {
                    Some(now)
                } else {
                    old(self).counters().last_update
                },
                ..old(self).counters()
            }),
    {
        proof {
            use_type_invariant(&*self);
        }
        if self.last_update.is_none() {
            self.last_update = Some(now);
        }
        Ok(())
    }

    /// Plays until `now`, then stops consuming frames.
    pub fn pause_at(&mut self, now: MonotonicInstant) -> (r: Result<(), AudioOutputError>)
        ensures
            Self::pause_outcome(*old(self), *final(self), now, r),
    {
        self.update(now)?;
        proof {
            use_type_invariant(&*self);
        }
        self.last_update = None;
        Ok(())
    }

    /// Plays until `now`, then drops every held frame.
    pub fn flush_at(&mut self, now: MonotonicInstant) -> (r: Result<(), AudioOutputError>)
        ensures
            Self::flush_outcome(*old(self), *final(self), now, r),
    {
        self.update(now)?;
        proof {
            use_type_invariant(&*self);
        }
        self.buffered_frames = 0;
        self.frame_remainder = 0;
        self.flushes = Ghost(self.flushes@ + 1);
        Ok(())
    }

    /// Plays until `now` and reports the frames played by then.
    pub fn playback_position_at(&mut self, now: MonotonicInstant) -> (r: Result<
        AudioPlaybackPosition,
        AudioOutputError,
    >)
        ensures
            Self::position_outcome(*old(self), *final(self), now, r),
    {
        self.update(now)?;
        let position = AudioPlaybackPosition::new(self.played_frames, now);
        proof {
            use_type_invariant(&*self);
        }
        self.positions = Ghost(self.positions@.push(position));
        Ok(position)
    }

    /// Plays until `now` and tells whether every held frame was played.
    pub fn is_drained_at(&mut self, now: MonotonicInstant) -> (r: Result<bool, AudioOutputError>)
        ensures
            Self::drained_outcome(*old(self), *final(self), now, r),
    {
        self.update(now)?;
        let drained = self.buffered_frames == 0;
        proof {
            use_type_invariant(&*self);
        }
        self.drains = Ghost(self.drains@.push(drained));
        Ok(drained)
    }
}

impl AudioOutput for SimulatedAudioOutput {
    closed spec fn accepted_frames(&self) -> Seq<DecodedFrame<AudioBuffer>> {
        self.accepted@
    }

    closed spec fn flush_count(&self) -> nat {
        self.flushes@
    }

    closed spec fn reported_positions(&self) -> Seq<AudioPlaybackPosition> {
        self.positions@
    }

    closed spec fn drain_answers(&self) -> Seq<bool> {
        self.drains@
    }

    /// Its rate and channel count.
    closed spec fn created_for(&self) -> (u32, u16) {
        (self.sample_rate, self.channels)
    }

    /// The output plays while it keeps time.
    closed spec fn is_started(&self) -> bool {
        self.last_update is Some
    }

    /// `submit_at` with the current instant of the output's clock.
    fn submit(&mut self, frame: DecodedFrame<AudioBuffer>) -> (r: Result<
        AudioSubmitResult,
        AudioOutputError,
    >)
        ensures
            final(self).spec_sample_rate() == old(self).spec_sample_rate(),
            final(self).spec_channels() == old(self).spec_channels(),
            final(self).capacity() == old(self).capacity(),
            r matches Ok(AudioSubmitResult::Accepted) ==> final(self).counters().buffered_frames
                <= final(self).capacity(),
            exists|now: MonotonicInstant| #[trigger]
                Self::submit_outcome(*old(self), *final(self), frame, now, r),
    {
        let ghost before = *self;
        let ghost submitted = frame;
        let now = self.clock.now();
        let r = self.submit_at(frame, now);
        proof {
            use_type_invariant(&*self);
            assert(Self::submit_outcome(before, *self, submitted, now, r));
        }
        r
    }

    /// `start_at` with the current instant of the output's clock.
    fn start(&mut self) -> (r: Result<(), AudioOutputError>)
        ensures
            r is Ok,
            final(self).counters().last_update is Some,
            final(self).counters().buffered_frames == old(self).counters().buffered_frames,
            final(self).counters().played_frames == old(self).counters().played_frames,
    {
        let now = self.clock.now();
        self.start_at(now)
    }

    /// `pause_at` with the current instant of the output's clock.
    fn pause(&mut self) -> (r: Result<(), AudioOutputError>)
        ensures
            r is Ok ==> final(self).counters().last_update is None,
            exists|now: MonotonicInstant| #[trigger] Self::pause_outcome(*old(self), *final(self), now, r),
    {
        let ghost before = *self;
        let now = self.clock.now();
        let r = self.pause_at(now);
        proof {
            assert(Self::pause_outcome(before, *self, now, r));
        }
        r
    }

    /// `flush_at` with the current instant of the output's clock.
    fn flush(&mut self) -> (r: Result<(), AudioOutputError>)
        ensures
            r is Ok ==> final(self).counters().buffered_frames == 0 && (final(self).counters().last_update is None <==> old(self).counters().last_update is None),
            exists|now: MonotonicInstant| #[trigger] Self::flush_outcome(*old(self), *final(self), now, r),
    {
        let ghost before = *self;
        let now = self.clock.now();
        let r = self.flush_at(now);
        proof {
            assert(Self::flush_outcome(before, *self, now, r));
        }
        r
    }

    /// `playback_position_at` with the current instant of the output's clock.
    fn playback_position(&mut self) -> (r: Result<AudioPlaybackPosition, AudioOutputError>)
        ensures
            r matches Ok(p) ==> p.played_frames() == final(self).counters().played_frames,
            exists|now: MonotonicInstant| #[trigger] Self::position_outcome(*old(self), *final(self), now, r),
    {
        let ghost before = *self;
        let now = self.clock.now();
        let r = self.playback_position_at(now);
        proof {
            assert(Self::position_outcome(before, *self, now, r));
        }
        r
    }

    /// `is_drained_at` with the current instant of the output's clock.
    fn is_drained(&mut self) -> (r: Result<bool, AudioOutputError>)
        ensures
            r matches Ok(b) ==> b == (final(self).counters().buffered_frames == 0),
            exists|now: MonotonicInstant| #[trigger] Self::drained_outcome(*old(self), *final(self), now, r),
    {
        let ghost before = *self;
        let now = self.clock.now();
        let r = self.is_drained_at(now);
        proof {
            assert(Self::drained_outcome(before, *self, now, r));
        }
        r
    }
}

/// Builds simulated outputs of a fixed capacity.
pub struct SimulatedAudioOutputFactory {
    capacity_frames: u64,
}

impl SimulatedAudioOutputFactory {
    pub closed spec fn capacity(&self) -> u64 {
        self.capacity_frames
    }

    pub fn new(capacity_frames: u64) -> (r: SimulatedAudioOutputFactory)
        ensures
            r.capacity() == capacity_frames,
    {
        SimulatedAudioOutputFactory { capacity_frames }
    }
}

impl AudioOutputFactory for SimulatedAudioOutputFactory {
    type Output = SimulatedAudioOutput;

    /// A simulated output with the rate and channels of `format`.
    fn create(&self, format: &AudioTrackFormat) -> (r: Result<
        SimulatedAudioOutput,
        AudioOutputError,
    >)
        ensures
            r matches Ok(o) ==> o.spec_sample_rate() == format.sample_rate() && o.spec_channels()
                == format.channel_count() && o.capacity() == self.capacity(),
            r is Err <==> (format.sample_rate() == 0 || (format.channel_count() != 1
                && format.channel_count() != 2) || self.capacity() == 0),
    {
        SimulatedAudioOutput::new(format.sample_rate(), format.channel_count(), self.capacity_frames)
    }
}

} // verus!
