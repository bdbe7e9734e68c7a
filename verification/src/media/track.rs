//! Track identifiers and track descriptions.
use crate::media::format::TrackFormat;
use crate::media::time::{TimeBase, TimeSpan, Timestamp};
use vstd::prelude::*;

verus! {

/// The identifier of a track within a container.
#[derive(Debug, Clone, Copy, PartialEq, Eq, Structural, Hash)]
pub struct TrackId(u32);

impl TrackId {
    pub closed spec fn spec_value(self) -> u32 {
        self.0
    }

    pub fn new(value: u32) -> (r: TrackId)
        ensures
            r.value() == value,
    {
        TrackId(value)
    }

    #[verifier::when_used_as_spec(spec_value)]
    pub fn value(self) -> (r: u32)
        ensures
            r == self.spec_value(),
    {
        self.0
    }

    /// Two identifiers are equal exactly when their values are.
    pub proof fn lemma_value_injective(a: TrackId, b: TrackId)
        ensures
            a == b <==> a.value() == b.value(),
    {
    }
}

/// The description of one track: its identifier, time base, start, length
/// and format.
#[derive(Debug, Clone, PartialEq, Eq)]
pub struct TrackInfo {
    id: TrackId,
    time_base: TimeBase,
    start_ticks: Option<i64>,
    duration_ticks: Option<u64>,
    format: TrackFormat,
}

impl TrackInfo {
    pub closed spec fn spec_id(&self) -> TrackId {
        self.id
    }

    pub closed spec fn spec_time_base(&self) -> TimeBase {
        self.time_base
    }

    pub closed spec fn start_ticks(&self) -> Option<i64> {
        self.start_ticks
    }

    pub closed spec fn duration_ticks(&self) -> Option<u64> {
        self.duration_ticks
    }

    pub closed spec fn spec_format(&self) -> TrackFormat {
        self.format
    }

    pub fn new(
        id: TrackId,
        time_base: TimeBase,
        start_ticks: Option<i64>,
        duration_ticks: Option<u64>,
        format: TrackFormat,
    ) -> (r: TrackInfo)
        ensures
            r.id() == id,
            r.time_base() == time_base,
            r.start_ticks() == start_ticks,
            r.duration_ticks() == duration_ticks,
            r.spec_format() == format,
    {
        TrackInfo { id, time_base, start_ticks, duration_ticks, format }
    }

    #[verifier::when_used_as_spec(spec_id)]
    pub fn id(&self) -> (r: TrackId)
        ensures
            r == self.spec_id(),
    {
        self.id
    }

    #[verifier::when_used_as_spec(spec_time_base)]
    pub fn time_base(&self) -> (r: TimeBase)
        ensures
            r == self.spec_time_base(),
    {
        self.time_base
    }

    /// The start of the track as a timestamp in the track's time base.
    pub fn start_time(&self) -> (r: Option<Timestamp>)
        ensures
            self.start_ticks() is None <==> r is None,
            r matches Some(t) ==> t.ticks() == self.start_ticks()->0 && t.time_base()
                == self.time_base(),
    {
        match self.start_ticks {
            Some(ticks) => Some(Timestamp::new(ticks, self.time_base)),
            None => None,
        }
    }

    /// The length of the track as a span in the track's time base.
    pub fn duration(&self) -> (r: Option<TimeSpan>)
        ensures
            self.duration_ticks() is None <==> r is None,
            r matches Some(t) ==> t.ticks() == self.duration_ticks()->0 && t.time_base()
                == self.time_base(),
    {
        match self.duration_ticks {
            Some(ticks) => Some(TimeSpan::new(ticks, self.time_base)),
            None => None,
        }
    }

    pub fn format(&self) -> (r: &TrackFormat)
        ensures
            *r == self.spec_format(),
    {
        &self.format
    }
}

} // verus!
