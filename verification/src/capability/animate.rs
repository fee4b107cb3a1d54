//! Animation option types shared by hardware-driven effects.

use vstd::prelude::*;

verus! {

/// Animation options.
#[derive(Clone, Copy, PartialEq, Eq, Structural, Debug)]
pub enum AnimateOption {
    Pulsating(StaticColorOption, AnimationSpeedSetting),
}

/// The static colors an effect can pulse in.
#[derive(Clone, Copy, PartialEq, Eq, Structural, Debug)]
pub enum StaticColorOption {
    Red,
    Green,
    Blue,
}

/// The nine discrete speed levels of an effect, fastest first.
#[derive(Clone, Copy, PartialEq, Eq, Structural, Debug)]
pub enum AnimationSpeedSetting {
    Speed1,
    Speed2,
    Speed3,
    Speed4,
    Speed5,
    Speed6,
    Speed7,
    Speed8,
    Speed9,
}

} // verus!
