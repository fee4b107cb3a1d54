//! Device capabilities: the uniform operation surface any controllable
//! light exposes. Each submodule defines the closed option set of one
//! capability; the communication protocol turns an option into bytes.

use vstd::prelude::*;

use crate::error::CapabilityError;

pub mod animate;
pub mod brightness;
pub mod color;
pub mod hw_animate;
pub mod light;
pub mod sw_animate;

verus! {

/// Power options of the light capability.
#[derive(Clone, Copy, PartialEq, Eq, Structural, Debug)]
pub enum LightOption {
    On,
    Off,
}

/// Entry point of the light capability for callers that carry their own
/// device and protocol values; currently a no-op that always succeeds.
#[allow(unused_variables)]
pub fn light<D, P>(device: D, protocol: P) -> (r: Result<(), CapabilityError>)
    ensures
        r is Ok,
{
    Ok(())
}

} // verus!
