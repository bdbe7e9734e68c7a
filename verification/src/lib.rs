use vstd::prelude::*;

pub mod backends;
pub mod bridge;
pub mod demo;
pub mod error;
pub mod media;
pub mod pipeline;
pub mod player;
pub mod reason;
pub mod ports;
pub mod runtime;
pub mod source;
pub mod timing;
pub mod wav;

verus! {

/// The version of this library.
pub fn version() -> (v: &'static str)
    ensures
        v@ == "0.1.0"@,
{
    "0.1.0"
}

} // verus!
