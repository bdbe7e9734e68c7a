//! Generations of the playback timeline, and values tagged with the
//! generation they were produced for.
use vstd::prelude::*;

verus! {

/// The generation of the playback timeline. Each seek starts a new one.
#[derive(Debug, Clone, Copy, PartialEq, Eq, Structural, Hash)]
pub struct PlaybackEpoch(u64);

impl PlaybackEpoch {
    pub closed spec fn spec_value(self) -> u64 {
        self.0
    }

    /// The first generation.
    pub fn initial() -> (r: PlaybackEpoch)
        ensures
            r.value() == 0,
    {
        PlaybackEpoch(0)
    }

    #[verifier::when_used_as_spec(spec_value)]
    pub fn value(self) -> (r: u64)
        ensures
            r == self.spec_value(),
    {
        self.0
    }

    /// The following generation; fails only after the last representable one.
    pub fn next(self) -> (r: Result<PlaybackEpoch, EpochError>)
        ensures
            self.value() == u64::MAX <==> r is Err,
            r matches Err(e) ==> e == EpochError::Overflow,
            r matches Ok(n) ==> n.value() == self.value() + 1,
    {
        match self.0.checked_add(1) {
            Some(value) => Ok(PlaybackEpoch(value)),
            None => Err(EpochError::Overflow),
        }
    }

    /// Generations are equal exactly when their numbers are.
    pub proof fn lemma_value_injective(a: PlaybackEpoch, b: PlaybackEpoch)
        ensures
            a == b <==> a.value() == b.value(),
    {
    }
}

/// A value tagged with the generation it belongs to.
#[derive(Debug)]
pub struct EpochItem<T> {
    epoch: PlaybackEpoch,
    value: T,
}

impl<T> EpochItem<T> {
    pub closed spec fn spec_epoch(&self) -> PlaybackEpoch {
        self.epoch
    }

    pub closed spec fn spec_value(&self) -> T {
        self.value
    }

    pub fn new(epoch: PlaybackEpoch, value: T) -> (r: EpochItem<T>)
        ensures
            r.epoch() == epoch,
            r.spec_value() == value,
    {
        EpochItem { epoch, value }
    }

    #[verifier::when_used_as_spec(spec_epoch)]
    pub fn epoch(&self) -> (r: PlaybackEpoch)
        ensures
            r == self.spec_epoch(),
    {
        self.epoch
    }

    pub fn value(&self) -> (r: &T)
        ensures
            *r == self.spec_value(),
    {
        &self.value
    }

    pub fn into_value(self) -> (r: T)
        ensures
            r == self.spec_value(),
    {
        self.value
    }

    pub fn into_parts(self) -> (r: (PlaybackEpoch, T))
        ensures
            r == (self.epoch(), self.spec_value()),
    {
        (self.epoch, self.value)
    }
}

#[derive(Debug, Clone, Copy, PartialEq, Eq, Structural)]
pub enum EpochError {
    Overflow,
}

} // verus!
