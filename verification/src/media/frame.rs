//! Decoded media frames and their presentation time.
use crate::media::time::MediaTime;
use crate::media::track::TrackId;
use vstd::prelude::*;

verus! {

/// A decoded frame of a track: its presentation time and its payload (PCM
/// samples, a software picture or a hardware buffer token).
#[derive(Debug)]
pub struct DecodedFrame<T> {
    track_id: TrackId,
    pts: MediaTime,
    payload: T,
}

impl<T> DecodedFrame<T> {
    pub closed spec fn spec_track_id(&self) -> TrackId {
        self.track_id
    }

    pub closed spec fn spec_pts(&self) -> MediaTime {
        self.pts
    }

    pub closed spec fn spec_payload(&self) -> T {
        self.payload
    }

    pub fn new(track_id: TrackId, pts: MediaTime, payload: T) -> (r: DecodedFrame<T>)
        ensures
            r.track_id() == track_id,
            r.pts() == pts,
            r.spec_payload() == payload,
    {
        DecodedFrame { track_id, pts, payload }
    }

    #[verifier::when_used_as_spec(spec_track_id)]
    pub fn track_id(&self) -> (r: TrackId)
        ensures
            r == self.spec_track_id(),
    {
        self.track_id
    }

    #[verifier::when_used_as_spec(spec_pts)]
    pub fn pts(&self) -> (r: MediaTime)
        ensures
            r == self.spec_pts(),
    {
        self.pts
    }

    pub fn payload(&self) -> (r: &T)
        ensures
            *r == self.spec_payload(),
    {
        &self.payload
    }

    pub fn into_payload(self) -> (r: T)
        ensures
            r == self.spec_payload(),
    {
        self.payload
    }

    pub fn into_parts(self) -> (r: (TrackId, MediaTime, T))
        ensures
            r == (self.track_id(), self.pts(), self.spec_payload()),
    {
        (self.track_id, self.pts, self.payload)
    }
}

/// Interleaved PCM samples. 32-bit float samples are held as their IEEE 754
/// bit patterns.
#[derive(Debug)]
pub enum AudioSamples {
    I16(Vec<i16>),
    F32(Vec<u32>),
}

impl AudioSamples {
    /// The number of samples, over all channels.
    pub open spec fn count(&self) -> nat {
        match self {
            AudioSamples::I16(data) => data@.len(),
            AudioSamples::F32(data) => data@.len(),
        }
    }

    pub fn len(&self) -> (r: usize)
        ensures
            r == self.count(),
    {
        match self {
            AudioSamples::F32(data) => data.len(),
            AudioSamples::I16(data) => data.len(),
        }
    }

    pub fn is_empty(&self) -> (r: bool)
        ensures
            r == (self.count() == 0),
    {
        self.len() == 0
    }
}

/// A block of interleaved PCM made of whole frames.
#[derive(Debug)]
pub struct AudioBuffer {
    sample_rate: u32,
    channel_count: u16,
    samples: AudioSamples,
}

impl AudioBuffer {
    /// A buffer has a positive rate, at least one channel, and whole frames.
    #[verifier::type_invariant]
    spec fn well_formed(self) -> bool {
        &&& self.sample_rate > 0
        &&& self.channel_count > 0
        &&& self.samples.count() % (self.channel_count as nat) == 0
    }

    pub closed spec fn spec_sample_rate(&self) -> u32 {
        self.sample_rate
    }

    pub closed spec fn spec_channel_count(&self) -> u16 {
        self.channel_count
    }

    pub closed spec fn spec_samples(&self) -> AudioSamples {
        self.samples
    }

    /// Builds a buffer; fails on a zero rate, zero channels, or a sample
    /// count that is not a whole number of frames, checked in that order.
    pub fn new(sample_rate: u32, channel_count: u16, samples: AudioSamples) -> (r: Result<
        AudioBuffer,
        AudioBufferError,
    >)
        ensures
            sample_rate == 0 ==> r == Err::<AudioBuffer, _>(AudioBufferError::InvalidSampleRate),
            sample_rate != 0 && channel_count == 0 ==> r == Err::<AudioBuffer, _>(
                AudioBufferError::InvalidChannelCount,
            ),
            sample_rate != 0 && channel_count != 0 && samples.count() % (channel_count as nat)
                != 0 ==> r == Err::<AudioBuffer, _>(AudioBufferError::IncompleteFrame),
            r matches Ok(b) ==> b.sample_rate() == sample_rate && b.channel_count()
                == channel_count && b.spec_samples() == samples,
            (sample_rate != 0 && channel_count != 0 && samples.count() % (channel_count as nat)
                == 0) ==> r is Ok,
    {
        if sample_rate == 0 {
            return Err(AudioBufferError::InvalidSampleRate);
        }
        if channel_count == 0 {
            return Err(AudioBufferError::InvalidChannelCount);
        }
        if samples.len() % (channel_count as usize) != 0 {
            return Err(AudioBufferError::IncompleteFrame);
        }
        Ok(AudioBuffer { sample_rate, channel_count, samples })
    }

    #[verifier::when_used_as_spec(spec_sample_rate)]
    pub fn sample_rate(&self) -> (r: u32)
        ensures
            r == self.spec_sample_rate(),
    {
        self.sample_rate
    }

    #[verifier::when_used_as_spec(spec_channel_count)]
    pub fn channel_count(&self) -> (r: u16)
        ensures
            r == self.spec_channel_count(),
    {
        self.channel_count
    }

    pub fn samples(&self) -> (r: &AudioSamples)
        ensures
            *r == self.spec_samples(),
    {
        &self.samples
    }

    pub fn sample_count(&self) -> (r: usize)
        ensures
            r == self.spec_samples().count(),
    {
        self.samples.len()
    }

    /// The number of frames: samples divided by channels.
    pub fn frame_count(&self) -> (r: usize)
        ensures
            r == self.spec_samples().count() / (self.channel_count() as nat),
            r * self.channel_count() == self.spec_samples().count(),
    {
        proof {
            use_type_invariant(self);
        }
        let r = self.sample_count() / (self.channel_count as usize);
        proof {
            vstd::arithmetic::div_mod::lemma_fundamental_div_mod(
                self.samples.count() as int,
                self.channel_count as int,
            );
            vstd::arithmetic::mul::lemma_mul_is_commutative(r as int, self.channel_count as int);
        }
        r
    }
}

#[derive(Debug, Clone, Copy, PartialEq, Eq, Structural)]
pub enum AudioBufferError {
    InvalidSampleRate,
    InvalidChannelCount,
    IncompleteFrame,
}

} // verus!
