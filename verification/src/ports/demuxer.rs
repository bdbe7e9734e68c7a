//! The demuxer port: parses a container, finds its tracks, and yields
//! compressed packets in the container's reading order.
use crate::media::packet::Packet;
use crate::media::time::MediaTime;
use crate::media::track::TrackInfo;
use vstd::prelude::*;

verus! {

/// What a read gave: a whole packet, nothing yet, or the normal end.
#[derive(Debug)]
pub enum ReadPacketResult {
    Packet(Packet),
    NotReady,
    EndOfStream,
}

#[derive(Debug, Clone, Copy, PartialEq, Eq, Structural)]
pub enum DemuxError {
    InvalidData,
    Unsupported,
    NotSeekable,
    Io,
}

/// A container reader.
pub trait Demuxer {
    /// The tracks of the container, in its order.
    spec fn spec_tracks(&self) -> Seq<TrackInfo>;

    fn tracks(&self) -> (r: &[TrackInfo])
        ensures
            r@ == self.spec_tracks(),
    ;

    /// The targets of the seeks asked of the demuxer, oldest first.
    spec fn seek_targets(&self) -> Seq<MediaTime>;

    /// The answers `read_packet` gave, oldest first.
    spec fn reads(&self) -> Seq<ReadPacketResult>;

    /// Where the seeks that succeeded landed, oldest first.
    spec fn landings(&self) -> Seq<MediaTime>;

    /// The next packet, nothing yet, or the end of the stream; an answer is
    /// recorded.
    fn read_packet(&mut self) -> (r: Result<ReadPacketResult, DemuxError>)
        ensures
            final(self).seek_targets() == old(self).seek_targets(),
            match r {
                Ok(answer) => final(self).reads() == old(self).reads().push(answer),
                Err(_) => final(self).reads() == old(self).reads(),
            },
            final(self).landings() == old(self).landings(),
    ;

    /// Moves to `target`; returns where reading will resume.
    fn seek(&mut self, target: MediaTime) -> (r: Result<MediaTime, DemuxError>)
        ensures
            final(self).seek_targets() == old(self).seek_targets().push(target),
            final(self).reads() == old(self).reads(),
            match r {
                Ok(landed) => final(self).landings() == old(self).landings().push(landed),
                Err(_) => final(self).landings() == old(self).landings(),
            },
    ;
}

} // verus!
