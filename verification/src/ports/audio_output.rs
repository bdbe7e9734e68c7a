//! The audio output port: takes PCM of bounded length, pushes back when the
//! device queue is full, starts, pauses and flushes, and reports how many
//! frames were really played.
use crate::media::format::AudioTrackFormat;
use crate::media::frame::{AudioBuffer, DecodedFrame};
use crate::timing::instant::MonotonicInstant;
use vstd::prelude::*;

verus! {

/// What a submission did: the PCM was taken, or the output is full and the
/// frame comes back.
#[derive(Debug)]
pub enum AudioSubmitResult {
    Accepted,
    Backpressure(DecodedFrame<AudioBuffer>),
}

/// How many frames the device had played at a monotonic instant.
#[derive(Debug, Clone, Copy, PartialEq, Eq, Structural)]
pub struct AudioPlaybackPosition {
    played_frames: u64,
    observed_at: MonotonicInstant,
}

impl AudioPlaybackPosition {
    pub closed spec fn spec_played_frames(self) -> u64 {
        self.played_frames
    }

    pub closed spec fn spec_observed_at(self) -> MonotonicInstant {
        self.observed_at
    }

    pub fn new(played_frames: u64, observed_at: MonotonicInstant) -> (r: AudioPlaybackPosition)
        ensures
            r.played_frames() == played_frames,
            r.observed_at() == observed_at,
    {
        AudioPlaybackPosition { played_frames, observed_at }
    }

    #[verifier::when_used_as_spec(spec_played_frames)]
    pub fn played_frames(self) -> (r: u64)
        ensures
            r == self.spec_played_frames(),
    {
        self.played_frames
    }

    #[verifier::when_used_as_spec(spec_observed_at)]
    pub fn observed_at(self) -> (r: MonotonicInstant)
        ensures
            r == self.spec_observed_at(),
    {
        self.observed_at
    }
}

#[derive(Debug, Clone, Copy, PartialEq, Eq, Structural)]
pub enum AudioOutputError {
    InvalidFormat,
    InvalidState,
    DeviceUnavailable,
    Platform,
    BufferTooLarge,
}

/// An audio sink.
pub trait AudioOutput {
    /// The frames the output answered `Accepted` for, oldest first.
    spec fn accepted_frames(&self) -> Seq<DecodedFrame<AudioBuffer>>;

    /// Whether the output plays what it holds.
    spec fn is_started(&self) -> bool;

    /// How many times the output was flushed.
    spec fn flush_count(&self) -> nat;

    /// The positions the output reported, oldest first.
    spec fn reported_positions(&self) -> Seq<AudioPlaybackPosition>;

    /// The answers `is_drained` gave, oldest first.
    spec fn drain_answers(&self) -> Seq<bool>;

    /// The sample rate and channel count the output was created for.
    spec fn created_for(&self) -> (u32, u16);

    /// Hands `frame` to the device; a frame that does not fit yet comes back
    /// unchanged. Only an accepted frame is taken.
    fn submit(&mut self, frame: DecodedFrame<AudioBuffer>) -> (r: Result<
        AudioSubmitResult,
        AudioOutputError,
    >)
        ensures
            r matches Ok(AudioSubmitResult::Backpressure(back)) ==> back == frame,
            r matches Ok(AudioSubmitResult::Accepted) ==> final(self).accepted_frames() == old(self).accepted_frames().push(frame),
            !(r matches Ok(AudioSubmitResult::Accepted)) ==> final(self).accepted_frames() == old(self).accepted_frames(),
            final(self).flush_count() == old(self).flush_count(),
            final(self).reported_positions() == old(self).reported_positions(),
            final(self).drain_answers() == old(self).drain_answers(),
    ;

    /// Starts playing.
    fn start(&mut self) -> (r: Result<(), AudioOutputError>)
        ensures
            r is Ok ==> final(self).is_started(),
            final(self).accepted_frames() == old(self).accepted_frames(),
            final(self).flush_count() == old(self).flush_count(),
            final(self).reported_positions() == old(self).reported_positions(),
            final(self).drain_answers() == old(self).drain_answers(),
    ;

    /// Stops playing, keeping what is held.
    fn pause(&mut self) -> (r: Result<(), AudioOutputError>)
        ensures
            r is Ok ==> !final(self).is_started(),
            final(self).accepted_frames() == old(self).accepted_frames(),
            final(self).flush_count() == old(self).flush_count(),
            final(self).reported_positions() == old(self).reported_positions(),
            final(self).drain_answers() == old(self).drain_answers(),
    ;

    /// Drops what is held; a flush that succeeds is counted. It never
    /// starts the output.
    fn flush(&mut self) -> (r: Result<(), AudioOutputError>)
        ensures
            final(self).accepted_frames() == old(self).accepted_frames(),
            final(self).flush_count() == old(self).flush_count() + (if r is Ok {
                1nat
            } else {
                0nat
            }),
            final(self).is_started() ==> old(self).is_started(),
            final(self).reported_positions() == old(self).reported_positions(),
            final(self).drain_answers() == old(self).drain_answers(),
    ;

    /// The frames played so far and when that was observed; a reported
    /// position is recorded.
    fn playback_position(&mut self) -> (r: Result<AudioPlaybackPosition, AudioOutputError>)
        ensures
            final(self).accepted_frames() == old(self).accepted_frames(),
            final(self).flush_count() == old(self).flush_count(),
            match r {
                Ok(p) => final(self).reported_positions() == old(self).reported_positions().push(p),
                Err(_) => final(self).reported_positions() == old(self).reported_positions(),
            },
            final(self).drain_answers() == old(self).drain_answers(),
    ;

    /// Whether everything submitted has been played.
    fn is_drained(&mut self) -> (r: Result<bool, AudioOutputError>)
        ensures
            final(self).accepted_frames() == old(self).accepted_frames(),
            final(self).flush_count() == old(self).flush_count(),
            final(self).reported_positions() == old(self).reported_positions(),
            match r {
                Ok(drained) => final(self).drain_answers() == old(self).drain_answers().push(drained),
                Err(_) => final(self).drain_answers() == old(self).drain_answers(),
            },
    ;
}

/// An output that has taken, played, flushed and reported nothing yet.
pub open spec fn is_fresh_output<O: AudioOutput>(output: O) -> bool {
    &&& output.accepted_frames() == Seq::<DecodedFrame<AudioBuffer>>::empty()
    &&& !output.is_started()
    &&& output.flush_count() == 0
    &&& output.reported_positions() == Seq::<AudioPlaybackPosition>::empty()
    &&& output.drain_answers() == Seq::<bool>::empty()
}

/// Builds an audio output for a track format.
pub trait AudioOutputFactory {
    type Output: AudioOutput;

    /// A fresh output for the rate and channel count of `format`.
    fn create(&self, format: &AudioTrackFormat) -> (r: Result<Self::Output, AudioOutputError>)
        ensures
            r matches Ok(o) ==> is_fresh_output(o) && o.created_for() == (
                format.sample_rate(),
                format.channel_count(),
            ),
    ;
}

} // verus!
