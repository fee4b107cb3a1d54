//! An earlier, trait-based surface of the GenericRGB command set, kept for
//! devices that encode their commands directly.

use vstd::prelude::*;

use crate::communication_protocol::generic_rgb::GenericRGB;

verus! {

/// The nine discrete speed levels of a pulsating effect, fastest first.
#[derive(Clone, Copy, PartialEq, Eq, Structural, Debug)]
pub enum AnimationSpeedSetting {
    Speed1,
    Speed2,
    Speed3,
    Speed4,
    Speed5,
    Speed6,
    Speed7,
    Speed8,
    Speed9,
}

/// The static colors a pulsating effect can pulse in.
#[derive(Clone, Copy, PartialEq, Eq, Structural, Debug)]
pub enum PulsatingColor {
    Red,
    Green,
    Blue,
}

/// The wire code of a pulsating speed setting.
pub open spec fn animation_speed_code(setting: AnimationSpeedSetting) -> u8 {
    match setting {
        AnimationSpeedSetting::Speed1 => 0x1F,
        AnimationSpeedSetting::Speed2 => 0x1B,
        AnimationSpeedSetting::Speed3 => 0x1A,
        AnimationSpeedSetting::Speed4 => 0x17,
        AnimationSpeedSetting::Speed5 => 0x13,
        AnimationSpeedSetting::Speed6 => 0x10,
        AnimationSpeedSetting::Speed7 => 0x0C,
        AnimationSpeedSetting::Speed8 => 0x05,
        AnimationSpeedSetting::Speed9 => 0x01,
    }
}

/// Maps a pulsating speed setting to its wire code.
pub fn animation_speed(setting: &AnimationSpeedSetting) -> (code: u8)
    ensures
        code == animation_speed_code(*setting),
{
    match setting {
        AnimationSpeedSetting::Speed1 => 0x1F,
        AnimationSpeedSetting::Speed2 => 0x1B,
        AnimationSpeedSetting::Speed3 => 0x1A,
        AnimationSpeedSetting::Speed4 => 0x17,
        AnimationSpeedSetting::Speed5 => 0x13,
        AnimationSpeedSetting::Speed6 => 0x10,
        AnimationSpeedSetting::Speed7 => 0x0C,
        AnimationSpeedSetting::Speed8 => 0x05,
        AnimationSpeedSetting::Speed9 => 0x01,
    }
}

/// The wire code of a pulsating static color.
pub open spec fn pulsating_color_code(color: PulsatingColor) -> u8 {
    match color {
        PulsatingColor::Red => 0x26,
        PulsatingColor::Green => 0x27,
        PulsatingColor::Blue => 0x28,
    }
}

/// Maps a pulsating static color to its wire code.
pub fn pulsating_color(color: &PulsatingColor) -> (code: u8)
    ensures
        code == pulsating_color_code(*color),
{
    match color {
        PulsatingColor::Red => 0x26,
        PulsatingColor::Green => 0x27,
        PulsatingColor::Blue => 0x28,
    }
}

/// A light that speaks the GenericRGB command set. Every method comes with
/// its encoding, so implementing the trait takes nothing beyond naming it.
pub trait GenericRGBLight {
    /// Encodes "off" as black: every channel at zero.
    fn turn_off(&self) -> (r: Vec<u8>)
        ensures
            r@ == seq![0x56u8, 0u8, 0u8, 0u8, 0x00u8, 0xF0u8, 0xAAu8],
    {
        self.encode_color(0, 0, 0)
    }

    /// Encodes the power-on command.
    fn turn_on(&self) -> (r: Vec<u8>)
        ensures
            r@ == seq![0xccu8, 0x23u8, 0x33u8],
    {
        let v: Vec<u8> = vec![0xcc, 0x23, 0x33];
        proof {
            assert(v@ =~= seq![0xccu8, 0x23u8, 0x33u8]);
        }
        v
    }

    /// Encodes a hardware pulsating effect.
    fn pulsating(&self, color: &PulsatingColor, speed_setting: &AnimationSpeedSetting) -> (r: Vec<u8>)
        ensures
            r@ == seq![
                0xBBu8,
                pulsating_color_code(*color),
                animation_speed_code(*speed_setting),
                0x44u8,
            ],
    {
        let v: Vec<u8> = vec![0xBB, pulsating_color(color), animation_speed(speed_setting), 0x44];
        proof {
            assert(v@ =~= seq![
                0xBBu8,
                pulsating_color_code(*color),
                animation_speed_code(*speed_setting),
                0x44u8,
            ]);
        }
        v
    }

    /// Encodes a static RGB color.
    fn encode_color(&self, red: u8, green: u8, blue: u8) -> (r: Vec<u8>)
        ensures
            r@ == seq![0x56u8, red, green, blue, 0x00u8, 0xF0u8, 0xAAu8],
    {
        let v: Vec<u8> = vec![0x56, red, green, blue, 0x00, 0xF0, 0xAA];
        proof {
            assert(v@ =~= seq![0x56u8, red, green, blue, 0x00u8, 0xF0u8, 0xAAu8]);
        }
        v
    }
}

impl GenericRGBLight for GenericRGB {

}

} // verus!
