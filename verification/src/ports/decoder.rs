//! The decoder port: consumes packets, produces decoded frames.
use crate::media::frame::DecodedFrame;
use crate::media::packet::Packet;
use vstd::prelude::*;

verus! {

/// What is handed to a decoder: a packet, or the end of the stream.
#[derive(Debug)]
pub enum DecodeInput {
    Packet(Packet),
    EndOfStream,
}

/// What a submission did: the input was taken, or the decoder is busy and
/// the input comes back.
#[derive(Debug)]
pub enum SubmitResult {
    Accepted,
    Backpressure(DecodeInput),
}

/// What a decoder gives back: a frame, nothing yet, or the end of the
/// stream after it drained.
#[derive(Debug)]
pub enum ReceiveResult<T> {
    Frame(DecodedFrame<T>),
    NotReady,
    EndOfStream,
}

#[derive(Debug, Clone, Copy, PartialEq, Eq, Structural)]
pub enum DecodeError {
    InvalidData,
    InvalidState,
    Unsupported,
    Platform,
}

/// A decoder of one track.
pub trait Decoder {
    type Output;

    /// The inputs the decoder answered `Accepted` for, oldest first.
    spec fn taken_inputs(&self) -> Seq<DecodeInput>;

    /// How many times the decoder was flushed.
    spec fn flush_count(&self) -> nat;

    /// Every input handed to `submit`, whatever the answer, oldest first.
    spec fn offered_inputs(&self) -> Seq<DecodeInput>;

    /// The answers `receive` gave, oldest first.
    spec fn received(&self) -> Seq<ReceiveResult<Self::Output>>;

    /// Hands `input` to the decoder; an input that the decoder cannot take
    /// yet comes back unchanged. Only an accepted input is taken.
    fn submit(&mut self, input: DecodeInput) -> (r: Result<SubmitResult, DecodeError>)
        ensures
            r matches Ok(SubmitResult::Backpressure(back)) ==> back == input,
            r matches Ok(SubmitResult::Accepted) ==> final(self).taken_inputs() == old(self).taken_inputs().push(input),
            !(r matches Ok(SubmitResult::Accepted)) ==> final(self).taken_inputs() == old(self).taken_inputs(),
            final(self).flush_count() == old(self).flush_count(),
            final(self).offered_inputs() == old(self).offered_inputs().push(input),
            final(self).received() == old(self).received(),
    ;

    /// The next decoded frame, the end of the stream, or nothing yet; an
    /// answer is recorded.
    fn receive(&mut self) -> (r: Result<ReceiveResult<Self::Output>, DecodeError>)
        ensures
            final(self).taken_inputs() == old(self).taken_inputs(),
            final(self).flush_count() == old(self).flush_count(),
            final(self).offered_inputs() == old(self).offered_inputs(),
            match r {
                Ok(answer) => final(self).received() == old(self).received().push(answer),
                Err(_) => final(self).received() == old(self).received(),
            },
    ;

    /// Drops what the decoder holds; a flush that succeeds is counted.
    fn flush(&mut self) -> (r: Result<(), DecodeError>)
        ensures
            final(self).taken_inputs() == old(self).taken_inputs(),
            final(self).flush_count() == old(self).flush_count() + (if r is Ok {
                1nat
            } else {
                0nat
            }),
            final(self).offered_inputs() == old(self).offered_inputs(),
            final(self).received() == old(self).received(),
    ;
}

} // verus!
