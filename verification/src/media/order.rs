//! The order of points and distances on the media timeline: that of their
//! nanosecond counts.
use crate::media::time::{MediaDelta, MediaTime};
use core::cmp::Ordering;
use vstd::prelude::*;
use vstd::std_specs::cmp::PartialOrdSpec;

verus! {

/// How two nanosecond counts compare.
pub open spec fn order_of(left: i64, right: i64) -> Ordering {
    if left < right {
        Ordering::Less
    } else if left == right {
        Ordering::Equal
    } else {
        Ordering::Greater
    }
}

impl PartialOrd for MediaTime {
    fn partial_cmp(&self, other: &MediaTime) -> (r: Option<Ordering>) {
        let left = self.nanoseconds();
        let right = other.nanoseconds();
        if left < right {
            Some(Ordering::Less)
        } else if left == right {
            Some(Ordering::Equal)
        } else {
            Some(Ordering::Greater)
        }
    }
}

impl vstd::std_specs::cmp::PartialOrdSpecImpl for MediaTime {
    open spec fn obeys_partial_cmp_spec() -> bool {
        true
    }

    open spec fn partial_cmp_spec(&self, other: &MediaTime) -> Option<Ordering> {
        Some(order_of(self.nanoseconds(), other.nanoseconds()))
    }
}

impl PartialOrd for MediaDelta {
    fn partial_cmp(&self, other: &MediaDelta) -> (r: Option<Ordering>) {
        let left = self.nanoseconds();
        let right = other.nanoseconds();
        if left < right {
            Some(Ordering::Less)
        } else if left == right {
            Some(Ordering::Equal)
        } else {
            Some(Ordering::Greater)
        }
    }
}

impl vstd::std_specs::cmp::PartialOrdSpecImpl for MediaDelta {
    open spec fn obeys_partial_cmp_spec() -> bool {
        true
    }

    open spec fn partial_cmp_spec(&self, other: &MediaDelta) -> Option<Ordering> {
        Some(order_of(self.nanoseconds(), other.nanoseconds()))
    }
}

/// Media times are ordered as their nanosecond counts are: one is less than
/// another exactly when its count is smaller, and equal to it exactly when
/// they are the same time.
pub proof fn lemma_media_time_order(a: MediaTime, b: MediaTime)
    ensures
        a.partial_cmp_spec(&b) == Some(order_of(a.nanoseconds(), b.nanoseconds())),
        (a.partial_cmp_spec(&b) == Some(Ordering::Less)) <==> a.nanoseconds() < b.nanoseconds(),
        (a.partial_cmp_spec(&b) == Some(Ordering::Equal)) <==> a == b,
        (a.partial_cmp_spec(&b) == Some(Ordering::Less)) <==> (b.partial_cmp_spec(&a) == Some(
            Ordering::Greater,
        )),
{
    a.lemma_same_nanoseconds(b);
}

/// Media distances are ordered as their nanosecond counts are.
pub proof fn lemma_media_delta_order(a: MediaDelta, b: MediaDelta)
    ensures
        a.partial_cmp_spec(&b) == Some(order_of(a.nanoseconds(), b.nanoseconds())),
        (a.partial_cmp_spec(&b) == Some(Ordering::Less)) <==> a.nanoseconds() < b.nanoseconds(),
        (a.partial_cmp_spec(&b) == Some(Ordering::Equal)) <==> a == b,
        (a.partial_cmp_spec(&b) == Some(Ordering::Less)) <==> (b.partial_cmp_spec(&a) == Some(
            Ordering::Greater,
        )),
{
    a.lemma_same_nanoseconds(b);
}

} // verus!
