//! Coordination of one decoded video frame with the audio clock.
use crate::media::frame::DecodedFrame;
use crate::ports::video_output::{VideoOutput, VideoOutputError, VideoSubmitResult};
use crate::timing::av_sync::{sync_decision, AvSync, AvSyncError, VideoSyncDecision};
use crate::timing::clock::ClockSnapshot;
use crate::timing::instant::MonotonicInstant;
use vstd::prelude::*;

verus! {

/// What became of a video frame.
#[derive(Debug)]
pub enum VideoStepResult<T> {
    /// Too early: the frame comes back with the instant to show it at.
    WaitUtil { deadline: MonotonicInstant, frame: DecodedFrame<T> },
    /// Handed to the output.
    Submitted,
    /// Too late: discarded through the output.
    Discarded,
    /// The output is busy: the frame comes back.
    Backpressure(DecodedFrame<T>),
}

#[derive(Debug)]
pub enum CoordinateVideoError {
    Sync(AvSyncError),
    Output(VideoOutputError),
}

/// Decides with `sync` what to do with `frame` and does it: an early frame
/// comes back with its deadline, a frame on time is presented, a late frame
/// is discarded. Only a frame on time reaches `present`, only a late one
/// reaches `discard`.
pub fn coordinate_video_frame<O: VideoOutput>(
    sync: &AvSync,
    output: &mut O,
    frame: DecodedFrame<O::FramePayload>,
    audio_snapshot: ClockSnapshot,
    now: MonotonicInstant,
) -> (r: Result<VideoStepResult<O::FramePayload>, CoordinateVideoError>)
    ensures
        match sync_decision(
            sync.early(),
            sync.late(),
            frame.pts().nanoseconds() as int,
            audio_snapshot,
            now,
        ) {
            Err(e) => r matches Err(CoordinateVideoError::Sync(x)) && x == e && *final(output)
                == *old(output),
            Ok(VideoSyncDecision::WaitUntil(deadline)) => r matches Ok(
                VideoStepResult::WaitUtil { deadline: d, frame: f },
            ) && d == deadline && f == frame && *final(output) == *old(output),
            Ok(VideoSyncDecision::PresentNow) => {
                &&& final(output).discarded() == old(output).discarded()
                &&& match r {
                    Ok(VideoStepResult::Submitted) => final(output).presented() == old(output).presented().push(frame) && final(output).failures() == old(output).failures(),
                    Ok(VideoStepResult::Backpressure(f)) => f == frame && final(output).presented()
                        == old(output).presented() && final(output).failures() == old(output).failures(),
                    Err(CoordinateVideoError::Output(e)) => final(output).presented() == old(output).presented() && final(output).failures() == old(output).failures().push(e),
                    _ => false,
                }
            },
            Ok(VideoSyncDecision::Drop) => {
                &&& final(output).presented() == old(output).presented()
                &&& match r {
                    Ok(VideoStepResult::Discarded) => final(output).discarded() == old(output).discarded().push(frame) && final(output).failures() == old(output).failures(),
                    Err(CoordinateVideoError::Output(e)) => final(output).discarded() == old(output).discarded() && final(output).failures() == old(output).failures().push(e),
                    _ => false,
                }
            },
        },
{
    match sync.decide(frame.pts(), audio_snapshot, now) {
        Ok(VideoSyncDecision::WaitUntil(deadline)) => Ok(VideoStepResult::WaitUtil { deadline, frame }),
        Ok(VideoSyncDecision::PresentNow) => match output.present(frame) {
            Ok(VideoSubmitResult::Accepted) => Ok(VideoStepResult::Submitted),
            Ok(VideoSubmitResult::Backpressure(frame)) => Ok(VideoStepResult::Backpressure(frame)),
            Err(err) => Err(CoordinateVideoError::Output(err)),
        },
        Ok(VideoSyncDecision::Drop) => match output.discard(frame) {
            Ok(()) => Ok(VideoStepResult::Discarded),
            Err(err) => Err(CoordinateVideoError::Output(err)),
        },
        Err(err) => Err(CoordinateVideoError::Sync(err)),
    }
}

} // verus!
