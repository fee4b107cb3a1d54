//! Communication protocols: the pure mapping from a capability option to
//! the wire-ready byte buffer of one peripheral family.

use vstd::prelude::*;

use crate::capability::brightness::BrightnessOption;
use crate::capability::color::ColorOption;
use crate::capability::hw_animate::{HWAnimateOption, HWAnimationSpeedSetting, HWStaticColorOption};
use crate::capability::light::LightOption;
use crate::error::CapabilityError;

pub mod generic_rgb;
pub mod generic_rgb_light;

pub use self::generic_rgb::GenericRGB;

verus! {

/// A communication protocol encodes each capability option into the byte
/// buffer written to the peripheral. Every encoder is deterministic and
/// side-effect-free; each implementation fixes its byte layouts once, as
/// spec functions, and the executable encoders are proved against them.
pub trait Protocol {
    /// The bytes encoding a power option.
    spec fn light_spec(&self, option: LightOption) -> Seq<u8>;

    /// The bytes encoding a color option.
    spec fn color_spec(&self, option: ColorOption) -> Seq<u8>;

    /// The bytes encoding a brightness option, or the capability error for
    /// an option combination without a defined layout.
    spec fn brightness_spec(&self, option: BrightnessOption) -> Result<Seq<u8>, CapabilityError>;

    /// The bytes encoding a hardware animation option.
    spec fn hw_animate_spec(&self, option: HWAnimateOption) -> Seq<u8>;

    /// The wire code of a hardware animation speed setting.
    spec fn animation_speed_spec(setting: HWAnimationSpeedSetting) -> u8;

    /// The wire code of a hardware animation static color.
    spec fn static_color_spec(color: HWStaticColorOption) -> u8;

    /// Encodes a power option.
    fn light(&self, option: &LightOption) -> (r: Vec<u8>)
        ensures
            r@ == self.light_spec(*option),
    ;

    /// Encodes a color option.
    fn color(&self, option: &ColorOption) -> (r: Vec<u8>)
        ensures
            r@ == self.color_spec(*option),
    ;

    /// Encodes a brightness option; fails exactly on the option
    /// combinations for which the protocol defines no layout.
    fn brightness(&self, option: &BrightnessOption) -> (r: Result<Vec<u8>, CapabilityError>)
        requires
            option.valid(),
        ensures
            match self.brightness_spec(*option) {
                Ok(bytes) => r matches Ok(v) && v@ == bytes,
                Err(e) => r matches Err(a) && a == e,
            },
    ;

    /// Encodes a hardware animation option.
    fn hw_animate(&self, option: &HWAnimateOption) -> (r: Vec<u8>)
        ensures
            r@ == self.hw_animate_spec(*option),
    ;

    /// Maps a hardware animation speed setting to its wire code.
    fn _animation_speed(setting: &HWAnimationSpeedSetting) -> (code: u8)
        ensures
            code == Self::animation_speed_spec(*setting),
    ;

    /// Maps a hardware animation static color to its wire code.
    fn _static_color(color: &HWStaticColorOption) -> (code: u8)
        ensures
            code == Self::static_color_spec(*color),
    ;
}

} // verus!
