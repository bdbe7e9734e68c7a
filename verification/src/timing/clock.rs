//! The audio master clock.
use crate::media::time::{fits_i64, MediaDelta, MediaTime};
use crate::ports::audio_output::AudioPlaybackPosition;
use crate::timing::instant::MonotonicInstant;
use vstd::prelude::*;

verus! {

/// At monotonic instant `observed_at`, the audio play head stood at media
/// time `media_time`.
#[derive(Debug, Clone, Copy, PartialEq, Eq, Structural)]
pub struct ClockSnapshot {
    media_time: MediaTime,
    observed_at: MonotonicInstant,
}

impl ClockSnapshot {
    pub closed spec fn spec_media_time(self) -> MediaTime {
        self.media_time
    }

    pub closed spec fn spec_observed_at(self) -> MonotonicInstant {
        self.observed_at
    }

    pub fn new(media_time: MediaTime, observed_at: MonotonicInstant) -> (r: ClockSnapshot)
        ensures
            r.media_time() == media_time,
            r.observed_at() == observed_at,
    {
        ClockSnapshot { media_time, observed_at }
    }

    #[verifier::when_used_as_spec(spec_media_time)]
    pub fn media_time(self) -> (r: MediaTime)
        ensures
            r == self.spec_media_time(),
    {
        self.media_time
    }

    #[verifier::when_used_as_spec(spec_observed_at)]
    pub fn observed_at(self) -> (r: MonotonicInstant)
        ensures
            r == self.spec_observed_at(),
    {
        self.observed_at
    }
}

/// Maps frames played by the audio device to media time: the frame counter
/// stood at `anchor_played_frames` when the play head was at `anchor_media`.
#[derive(Debug)]
pub struct AudioClock {
    sample_rate: u32,
    anchor_media: MediaTime,
    anchor_played_frames: u64,
}

/// The nanoseconds that `frames` frames last at `sample_rate`, rounded down.
pub open spec fn frames_to_nanoseconds(frames: int, sample_rate: int) -> int {
    frames * 1_000_000_000 / sample_rate
}

impl AudioClock {
    #[verifier::type_invariant]
    spec fn positive_rate(self) -> bool {
        self.sample_rate > 0
    }

    pub closed spec fn spec_sample_rate(&self) -> u32 {
        self.sample_rate
    }

    pub closed spec fn anchor_media(&self) -> MediaTime {
        self.anchor_media
    }

    pub closed spec fn anchor_played_frames(&self) -> u64 {
        self.anchor_played_frames
    }

    /// A clock anchored at the given media time and frame count; the rate
    /// must be positive.
    pub fn new(sample_rate: u32, anchor_media: MediaTime, anchor_played_frames: u64) -> (r: Result<
        AudioClock,
        ClockError,
    >)
        ensures
            sample_rate == 0 <==> r is Err,
            r matches Err(e) ==> e == ClockError::InvalidSampleRate,
            r matches Ok(c) ==> c.spec_sample_rate() == sample_rate && c.anchor_media()
                == anchor_media && c.anchor_played_frames() == anchor_played_frames,
    {
        if sample_rate == 0 {
            return Err(ClockError::InvalidSampleRate);
        }
        Ok(AudioClock { sample_rate, anchor_media, anchor_played_frames })
    }

    #[verifier::when_used_as_spec(spec_sample_rate)]
    pub fn sample_rate(&self) -> (r: u32)
        ensures
            r == self.spec_sample_rate(),
            r > 0,
    {
        proof {
            use_type_invariant(self);
        }
        self.sample_rate
    }

    /// What reading `position` through `clock` gives: a position before the
    /// anchor went backward; otherwise the anchor's media time moved by the
    /// frames played since, observed when the position was, unless that
    /// does not fit in an `i64`.
    pub open spec fn snapshot_outcome(
        clock: AudioClock,
        position: AudioPlaybackPosition,
        r: Result<ClockSnapshot, ClockError>,
    ) -> bool {
        if position.played_frames() < clock.anchor_played_frames() {
            r == Err::<ClockSnapshot, ClockError>(ClockError::PositionWentBackward)
        } else {
            let ns = frames_to_nanoseconds(
                position.played_frames() - clock.anchor_played_frames(),
                clock.spec_sample_rate() as int,
            );
            let t = clock.anchor_media().nanoseconds() + ns;
            if fits_i64(ns) && fits_i64(t) {
                r matches Ok(s) && s.media_time().nanoseconds() == t && s.observed_at()
                    == position.observed_at()
            } else {
                r == Err::<ClockSnapshot, ClockError>(ClockError::Overflow)
            }
        }
    }

    /// The media time at which the play head stood when `position` was
    /// observed: the anchor moved by the frames played since the anchor.
    pub fn snapshot(&self, position: AudioPlaybackPosition) -> (r: Result<ClockSnapshot, ClockError>)
        ensures
            Self::snapshot_outcome(*self, position, r),
    {
        proof {
            use_type_invariant(self);
        }
        let delta_frames = match position.played_frames().checked_sub(self.anchor_played_frames) {
            Some(value) => value,
            None => return Err(ClockError::PositionWentBackward),
        };
        proof {
            vstd::arithmetic::mul::lemma_mul_upper_bound(
                delta_frames as int,
                u64::MAX as int,
                1_000_000_000,
                1_000_000_000,
            );
        }
        let scaled = match (delta_frames as i128).checked_mul(1_000_000_000) {
            Some(value) => value,
            None => return Err(ClockError::Overflow),
        };
        let delta_nanoseconds = scaled / (self.sample_rate as i128);
        if delta_nanoseconds > i64::MAX as i128 {
            return Err(ClockError::Overflow);
        }
        let media_time = match self.anchor_media.checked_add(
            MediaDelta::from_nanoseconds(delta_nanoseconds as i64),
        ) {
            Ok(value) => value,
            Err(_) => return Err(ClockError::Overflow),
        };
        Ok(ClockSnapshot { media_time, observed_at: position.observed_at() })
    }
}

#[derive(Debug, Clone, Copy, PartialEq, Eq, Structural)]
pub enum ClockError {
    InvalidSampleRate,
    PositionWentBackward,
    Overflow,
}

} // verus!
