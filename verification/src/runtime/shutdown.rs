//! The report of a player shutdown.
use crate::runtime::effect_executor::EffectLoopExit;
use vstd::prelude::*;

verus! {

/// How a thread ended.
#[derive(Debug)]
pub enum ThreadTermination<T> {
    Exited(T),
    Panicked,
}

/// Why the control loop ended.
#[derive(Debug, Clone, Copy, PartialEq, Eq, Structural)]
pub enum ControlLoopExit {
    /// It handled a release.
    Released,
    /// Every sender of messages went away.
    InputDisconnected,
    /// The effect loop went away.
    ResultsDisconnected,
}

/// What the shutdown of a player observed: whether the release command was
/// sent, and how the control thread and the effect thread ended.
#[derive(Debug)]
pub struct ShutdownReport {
    pub release_sent: bool,
    pub control: ThreadTermination<ControlLoopExit>,
    pub effect: ThreadTermination<EffectLoopExit>,
}

impl ShutdownReport {
    /// The release was sent and both threads exited because of it.
    pub open spec fn spec_is_clean(&self) -> bool {
        &&& self.release_sent
        &&& self.control matches ThreadTermination::Exited(ControlLoopExit::Released)
        &&& self.effect matches ThreadTermination::Exited(EffectLoopExit::Released)
    }

    #[verifier::when_used_as_spec(spec_is_clean)]
    pub fn is_clean(&self) -> (r: bool)
        ensures
            r == self.spec_is_clean(),
    {
        self.release_sent && match &self.control {
            ThreadTermination::Exited(ControlLoopExit::Released) => true,
            _ => false,
        } && match &self.effect {
            ThreadTermination::Exited(EffectLoopExit::Released) => true,
            _ => false,
        }
    }
}

} // verus!
