//! The "GenericRGB" command set, shared by common RGB led strips, lamps
//! and light bulbs.

use vstd::prelude::*;

use crate::capability::brightness::BrightnessOption;
use crate::capability::color::ColorOption;
use crate::capability::hw_animate::{HWAnimateOption, HWAnimationSpeedSetting, HWStaticColorOption};
use crate::capability::light::LightOption;
use crate::communication_protocol::Protocol;
use crate::error::CapabilityError;

verus! {

/// The GenericRGB protocol encoder. Stateless: every encoding depends on
/// the capability option alone.
#[derive(Clone, Copy, PartialEq, Eq, Structural, Debug)]
pub struct GenericRGB {}

impl Default for GenericRGB {
    fn default() -> (s: Self)
        ensures
            s == (GenericRGB {}),
    {
        GenericRGB {}
    }
}

/// One color channel scaled by a brightness level given as a percentage:
/// the channel value is multiplied by the level and truncated back into
/// byte range.
pub open spec fn scaled(channel: u8, level: u8) -> u8 {
    ((channel as int) * (level as int) / 100) as u8
}

/// Law: at level 0 every channel goes dark, and at level 100 every channel
/// keeps its full value.
pub proof fn lemma_scaled_extremes(channel: u8)
    ensures
        scaled(channel, 0) == 0,
        scaled(channel, 100) == channel,
{
    assert((channel as int) * 0 / 100 == 0) by (nonlinear_arith);
    assert((channel as int) * 100 / 100 == channel as int) by (nonlinear_arith);
}

/// Scales one color channel by a brightness percentage.
pub fn scale_channel(channel: u8, level: u8) -> (r: u8)
    requires
        level <= 100,
    ensures
        r == scaled(channel, level),
{
    proof {
        assert((channel as int) * (level as int) <= 255 * 100) by (nonlinear_arith)
            requires
                channel <= 255,
                level <= 100,
        ;
    }
    let wide: u32 = (channel as u32) * (level as u32);
    (wide / 100) as u8
}

impl Protocol for GenericRGB {
    open spec fn light_spec(&self, option: LightOption) -> Seq<u8> {
        match option {
            LightOption::On => seq![0xccu8, 0x23u8, 0x33u8],
            LightOption::Off => seq![0xccu8, 0x24u8, 0x33u8],
        }
    }

    open spec fn color_spec(&self, option: ColorOption) -> Seq<u8> {
        match option {
            ColorOption::RGB(r, g, b) => seq![0x56u8, r, g, b, 0x00u8, 0xF0u8, 0xAAu8],
        }
    }

    open spec fn brightness_spec(&self, option: BrightnessOption) -> Result<Seq<u8>, CapabilityError> {
        match option {
            BrightnessOption::Level(_) => Err(CapabilityError::NotSupported),
            BrightnessOption::LevelWithColor(level, color) => match color {
                ColorOption::RGB(r, g, b) => Ok(
                    self.color_spec(ColorOption::RGB(scaled(r, level), scaled(g, level), scaled(b, level))),
                ),
            },
        }
    }

    open spec fn hw_animate_spec(&self, option: HWAnimateOption) -> Seq<u8> {
        match option {
            HWAnimateOption::Pulsating(color, speed) => seq![
                0xBBu8,
                Self::static_color_spec(color),
                Self::animation_speed_spec(speed),
                0x44u8,
            ],
        }
    }

    open spec fn animation_speed_spec(setting: HWAnimationSpeedSetting) -> u8 {
        match setting {
            HWAnimationSpeedSetting::Speed1 => 0x1F,
            HWAnimationSpeedSetting::Speed2 => 0x1B,
            HWAnimationSpeedSetting::Speed3 => 0x1A,
            HWAnimationSpeedSetting::Speed4 => 0x17,
            HWAnimationSpeedSetting::Speed5 => 0x13,
            HWAnimationSpeedSetting::Speed6 => 0x10,
            HWAnimationSpeedSetting::Speed7 => 0x0C,
            HWAnimationSpeedSetting::Speed8 => 0x05,
            HWAnimationSpeedSetting::Speed9 => 0x01,
        }
    }

    open spec fn static_color_spec(color: HWStaticColorOption) -> u8 {
        match color {
            HWStaticColorOption::Red => 0x26,
            HWStaticColorOption::Green => 0x27,
            HWStaticColorOption::Blue => 0x28,
        }
    }

    fn light(&self, option: &LightOption) -> (r: Vec<u8>) {
        match option {
            LightOption::On => {
                let v: Vec<u8> = vec![0xcc, 0x23, 0x33];
                proof {
                    assert(v@ =~= self.light_spec(LightOption::On));
                }
                v
            }
            LightOption::Off => {
                let v: Vec<u8> = vec![0xcc, 0x24, 0x33];
                proof {
                    assert(v@ =~= self.light_spec(LightOption::Off));
                }
                v
            }
        }
    }

    fn color(&self, option: &ColorOption) -> (r: Vec<u8>) {
        match option {
            ColorOption::RGB(red, green, blue) => {
                let v: Vec<u8> = vec![0x56, *red, *green, *blue, 0x00, 0xF0, 0xAA];
                proof {
                    assert(v@ =~= self.color_spec(*option));
                }
                v
            }
        }
    }

    fn brightness(&self, option: &BrightnessOption) -> (r: Result<Vec<u8>, CapabilityError>) {
        match option {
            BrightnessOption::Level(_) => Err(CapabilityError::NotSupported),
            BrightnessOption::LevelWithColor(level, color) => match color {
                ColorOption::RGB(red, green, blue) => {
                    let r = scale_channel(*red, *level);
                    let g = scale_channel(*green, *level);
                    let b = scale_channel(*blue, *level);
                    Ok(self.color(&ColorOption::RGB(r, g, b)))
                }
            },
        }
    }

    fn hw_animate(&self, option: &HWAnimateOption) -> (r: Vec<u8>) {
        match option {
            HWAnimateOption::Pulsating(color, speed) => {
                let v: Vec<u8> = vec![
                    0xBB,
                    GenericRGB::_static_color(color),
                    GenericRGB::_animation_speed(speed),
                    0x44,
                ];
                proof {
                    assert(v@ =~= self.hw_animate_spec(*option));
                }
                v
            }
        }
    }

    fn _animation_speed(setting: &HWAnimationSpeedSetting) -> (code: u8) {
        match setting {
            HWAnimationSpeedSetting::Speed1 => 0x1F,
            HWAnimationSpeedSetting::Speed2 => 0x1B,
            HWAnimationSpeedSetting::Speed3 => 0x1A,
            HWAnimationSpeedSetting::Speed4 => 0x17,
            HWAnimationSpeedSetting::Speed5 => 0x13,
            HWAnimationSpeedSetting::Speed6 => 0x10,
            HWAnimationSpeedSetting::Speed7 => 0x0C,
            HWAnimationSpeedSetting::Speed8 => 0x05,
            HWAnimationSpeedSetting::Speed9 => 0x01,
        }
    }

    fn _static_color(color: &HWStaticColorOption) -> (code: u8) {
        match color {
            HWStaticColorOption::Red => 0x26,
            HWStaticColorOption::Green => 0x27,
            HWStaticColorOption::Blue => 0x28,
        }
    }
}

} // verus!
