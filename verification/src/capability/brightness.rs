//! The brightness capability: dimming a color.
//!
//! A brightness level is a percentage in `0 ..= 100` of full brightness;
//! `0` is dark and `100` leaves the color unchanged.

use vstd::prelude::*;

use crate::capability::color::ColorOption;

verus! {

/// Brightness options. `Level` alone carries no color and has no defined
/// encoding in the generic RGB protocol; `LevelWithColor` scales the given
/// color by the level.
#[derive(Clone, Copy, PartialEq, Eq, Structural, Debug)]
pub enum BrightnessOption {
    Level(u8),
    LevelWithColor(u8, ColorOption),
}

impl BrightnessOption {
    /// The brightness level is a percentage and must not exceed 100.
    pub open spec fn valid(&self) -> bool {
        match *self {
            BrightnessOption::Level(level) => level <= 100,
            BrightnessOption::LevelWithColor(level, _) => level <= 100,
        }
    }
}

} // verus!
