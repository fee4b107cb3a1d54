//! The hardware animation capability: effects executed by the peripheral
//! itself once a single command has been written.

use vstd::prelude::*;

verus! {

/// Hardware animation options.
#[derive(Clone, Copy, PartialEq, Eq, Structural, Debug)]
pub enum HWAnimateOption {
    Pulsating(HWStaticColorOption, HWAnimationSpeedSetting),
}

/// The static colors a hardware effect can pulse in.
#[derive(Clone, Copy, PartialEq, Eq, Structural, Debug)]
pub enum HWStaticColorOption {
    Red,
    Green,
    Blue,
}

/// The nine discrete speed levels of a hardware effect, fastest first.
#[derive(Clone, Copy, PartialEq, Eq, Structural, Debug)]
pub enum HWAnimationSpeedSetting {
    Speed1,
    Speed2,
    Speed3,
    Speed4,
    Speed5,
    Speed6,
    Speed7,
    Speed8,
    Speed9,
}

} // verus!
