//! The light (power) capability: turning a device on or off.

use vstd::prelude::*;

verus! {

/// Power options of the light capability.
#[derive(Clone, Copy, PartialEq, Eq, Structural, Debug)]
pub enum LightOption {
    On,
    Off,
}

} // verus!
