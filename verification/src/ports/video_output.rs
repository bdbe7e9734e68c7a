//! The video output port.
use crate::media::frame::DecodedFrame;
use vstd::prelude::*;

verus! {

/// What a presentation did: the frame was taken, or the output is busy and
/// the frame comes back.
#[derive(Debug)]
pub enum VideoSubmitResult<T> {
    Accepted,
    Backpressure(DecodedFrame<T>),
}

#[derive(Debug, Clone, Copy, PartialEq, Eq, Structural)]
pub enum VideoOutputError {
    InvalidFormat,
    InvalidState,
    SurfaceUnavailable,
    Platform,
}

/// A video sink.
pub trait VideoOutput {
    type FramePayload;

    /// The frames the output took for showing, oldest first. An output
    /// written without proofs need not keep this record; the default is
    /// empty.
    closed spec fn presented(&self) -> Seq<DecodedFrame<Self::FramePayload>> {
        Seq::empty()
    }

    /// The frames the output took for discarding, oldest first (empty by
    /// default, as above).
    closed spec fn discarded(&self) -> Seq<DecodedFrame<Self::FramePayload>> {
        Seq::empty()
    }

    /// The errors the output answered, oldest first (empty by default, as
    /// above).
    closed spec fn failures(&self) -> Seq<VideoOutputError> {
        Seq::empty()
    }

    /// Shows `frame`. A frame taken is recorded as presented; a frame that
    /// the output cannot take yet comes back unchanged; an error is
    /// recorded as a failure. Nothing else changes the records.
    fn present(&mut self, frame: DecodedFrame<Self::FramePayload>) -> (r: Result<
        VideoSubmitResult<Self::FramePayload>,
        VideoOutputError,
    >)
        ensures
            final(self).discarded() == old(self).discarded(),
            match r {
                Ok(VideoSubmitResult::Accepted) => final(self).presented() == old(self).presented().push(frame) && final(self).failures() == old(self).failures(),
                Ok(VideoSubmitResult::Backpressure(back)) => back == frame && final(self).presented()
                    == old(self).presented() && final(self).failures() == old(self).failures(),
                Err(e) => final(self).presented() == old(self).presented() && final(self).failures()
                    == old(self).failures().push(e),
            },
    ;

    /// Drops `frame` unshown. A frame taken is recorded as discarded; an
    /// error is recorded as a failure.
    fn discard(&mut self, frame: DecodedFrame<Self::FramePayload>) -> (r: Result<
        (),
        VideoOutputError,
    >)
        ensures
            final(self).presented() == old(self).presented(),
            match r {
                Ok(()) => final(self).discarded() == old(self).discarded().push(frame)
                    && final(self).failures() == old(self).failures(),
                Err(e) => final(self).discarded() == old(self).discarded() && final(self).failures()
                    == old(self).failures().push(e),
            },
    ;

    /// Drops what the output holds; the records of what it took stay.
    fn flush(&mut self) -> (r: Result<(), VideoOutputError>)
        ensures
            final(self).presented() == old(self).presented(),
            final(self).discarded() == old(self).discarded(),
            match r {
                Ok(()) => final(self).failures() == old(self).failures(),
                Err(e) => final(self).failures() == old(self).failures().push(e),
            },
    ;
}

} // verus!
