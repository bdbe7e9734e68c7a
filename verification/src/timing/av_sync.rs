//! Audio/video synchronisation: wait for an early video frame, show a
//! slightly late one at once, drop one that is too late.
use crate::media::time::{fits_i64, MediaDelta, MediaTime};
use crate::timing::clock::ClockSnapshot;
use crate::timing::instant::MonotonicInstant;
use vstd::prelude::*;

verus! {

/// What to do with a video frame.
#[derive(Debug, Clone, Copy, PartialEq, Eq, Structural)]
pub enum VideoSyncDecision {
    WaitUntil(MonotonicInstant),
    PresentNow,
    Drop,
}

/// The tolerances of the synchronisation: how early a frame may be shown,
/// and how late.
#[derive(Debug)]
pub struct AvSync {
    early_tolerance: MediaDelta,
    late_tolerance: MediaDelta,
}

/// The decision for a frame at `pts` against the audio clock `snapshot`, at
/// monotonic instant `now`, with tolerances `early` and `late` (both
/// nonnegative).
///
/// The audio clock is extrapolated to `now`; `offset` is how far the frame
/// is ahead of it. A frame more than `early` ahead waits until it is exactly
/// `early` ahead; a frame more than `late` behind is dropped; any other is
/// presented now.
pub open spec fn sync_decision(
    early: int,
    late: int,
    pts: int,
    snapshot: ClockSnapshot,
    now: MonotonicInstant,
) -> Result<VideoSyncDecision, AvSyncError> {
    if now.nanos() < snapshot.observed_at().nanos() {
        Err(AvSyncError::ObservationFromFuture)
    } else {
        let elapsed = now.nanos() - snapshot.observed_at().nanos();
        let audio_now = snapshot.media_time().nanoseconds() + elapsed;
        let offset = pts - audio_now;
        if !fits_i64(elapsed) || !fits_i64(audio_now) || !fits_i64(offset) {
            Err(AvSyncError::Overflow)
        } else if offset > early {
            let deadline = now.nanos() + (offset - early);
            if deadline > u64::MAX {
                Err(AvSyncError::Overflow)
            } else {
                Ok(VideoSyncDecision::WaitUntil(MonotonicInstant::from_nanos_spec(deadline as u64)))
            }
        } else if offset < -late {
            Ok(VideoSyncDecision::Drop)
        } else {
            Ok(VideoSyncDecision::PresentNow)
        }
    }
}

impl AvSync {
    #[verifier::type_invariant]
    spec fn nonnegative(self) -> bool {
        self.early_tolerance.nanoseconds() >= 0 && self.late_tolerance.nanoseconds() >= 0
    }

    pub closed spec fn early(&self) -> int {
        self.early_tolerance.nanoseconds() as int
    }

    pub closed spec fn late(&self) -> int {
        self.late_tolerance.nanoseconds() as int
    }

    /// Tolerances must not be negative.
    pub fn new(early_tolerance: MediaDelta, late_tolerance: MediaDelta) -> (r: Result<
        AvSync,
        AvSyncError,
    >)
        ensures
            (early_tolerance.nanoseconds() < 0 || late_tolerance.nanoseconds() < 0) <==> r is Err,
            r matches Err(e) ==> e == AvSyncError::InvalidTolerance,
            r matches Ok(s) ==> s.early() == early_tolerance.nanoseconds() && s.late()
                == late_tolerance.nanoseconds(),
    {
        if early_tolerance.nanoseconds() < 0 || late_tolerance.nanoseconds() < 0 {
            return Err(AvSyncError::InvalidTolerance);
        }
        Ok(AvSync { early_tolerance, late_tolerance })
    }

    /// Decides what to do with the video frame at `video_pts`.
    pub fn decide(
        &self,
        video_pts: MediaTime,
        audio_snapshot: ClockSnapshot,
        now: MonotonicInstant,
    ) -> (r: Result<VideoSyncDecision, AvSyncError>)
        ensures
            r == sync_decision(
                self.early(),
                self.late(),
                video_pts.nanoseconds() as int,
                audio_snapshot,
                now,
            ),
    {
        proof {
            use_type_invariant(self);
        }
        let elapsed = match now.checked_duration_since(audio_snapshot.observed_at()) {
            Some(value) => value,
            None => return Err(AvSyncError::ObservationFromFuture),
        };
        if elapsed > i64::MAX as u64 {
            return Err(AvSyncError::Overflow);
        }
        let audio_now = match audio_snapshot.media_time().checked_add(
            MediaDelta::from_nanoseconds(elapsed as i64),
        ) {
            Ok(value) => value,
            Err(_) => return Err(AvSyncError::Overflow),
        };
        let offset = match video_pts.checked_delta(audio_now) {
            Ok(value) => value,
            Err(_) => return Err(AvSyncError::Overflow),
        };
        if offset.nanoseconds() > self.early_tolerance.nanoseconds() {
            let wait_nanoseconds = offset.nanoseconds() - self.early_tolerance.nanoseconds();
            let deadline = match now.checked_add_nanos(wait_nanoseconds as u64) {
                Some(value) => value,
                None => return Err(AvSyncError::Overflow),
            };
            return Ok(VideoSyncDecision::WaitUntil(deadline));
        }
        let late_boundary = -self.late_tolerance.nanoseconds();
        if offset.nanoseconds() < late_boundary {
            return Ok(VideoSyncDecision::Drop);
        }
        Ok(VideoSyncDecision::PresentNow)
    }
}

#[derive(Debug, Clone, Copy, PartialEq, Eq, Structural)]
pub enum AvSyncError {
    ObservationFromFuture,
    Overflow,
    InvalidTolerance,
}

} // verus!
