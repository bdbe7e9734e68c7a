//! Compressed media data produced by a demuxer.
use crate::media::time::{TimeSpan, Timestamp};
use crate::media::track::TrackId;
use vstd::prelude::*;

verus! {

/// One compressed packet of a track, with its timestamps.
#[derive(Debug)]
pub struct Packet {
    track_id: TrackId,
    data: Vec<u8>,
    pts: Option<Timestamp>,
    dts: Option<Timestamp>,
    duration: Option<TimeSpan>,
    is_keyframe: bool,
}

impl Packet {
    pub closed spec fn spec_track_id(&self) -> TrackId {
        self.track_id
    }

    /// The compressed bytes.
    pub closed spec fn bytes(&self) -> Seq<u8> {
        self.data@
    }

    pub closed spec fn spec_pts(&self) -> Option<Timestamp> {
        self.pts
    }

    pub closed spec fn spec_dts(&self) -> Option<Timestamp> {
        self.dts
    }

    pub closed spec fn spec_duration(&self) -> Option<TimeSpan> {
        self.duration
    }

    pub closed spec fn keyframe(&self) -> bool {
        self.is_keyframe
    }

    pub fn new(
        track_id: TrackId,
        data: Vec<u8>,
        pts: Option<Timestamp>,
        dts: Option<Timestamp>,
        duration: Option<TimeSpan>,
        is_keyframe: bool,
    ) -> (r: Packet)
        ensures
            r.track_id() == track_id,
            r.bytes() == data@,
            r.pts() == pts,
            r.dts() == dts,
            r.duration() == duration,
            r.keyframe() == is_keyframe,
    {
        Packet { track_id, data, pts, dts, duration, is_keyframe }
    }

    #[verifier::when_used_as_spec(spec_track_id)]
    pub fn track_id(&self) -> (r: TrackId)
        ensures
            r == self.spec_track_id(),
    {
        self.track_id
    }

    pub fn data(&self) -> (r: &[u8])
        ensures
            r@ == self.bytes(),
    {
        self.data.as_slice()
    }

    #[verifier::when_used_as_spec(spec_pts)]
    pub fn pts(&self) -> (r: Option<Timestamp>)
        ensures
            r == self.spec_pts(),
    {
        self.pts
    }

    #[verifier::when_used_as_spec(spec_dts)]
    pub fn dts(&self) -> (r: Option<Timestamp>)
        ensures
            r == self.spec_dts(),
    {
        self.dts
    }

    #[verifier::when_used_as_spec(spec_duration)]
    pub fn duration(&self) -> (r: Option<TimeSpan>)
        ensures
            r == self.spec_duration(),
    {
        self.duration
    }
}

} // verus!
