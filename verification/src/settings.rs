//! Color-grade settings.
//!
//! The settings block parametrizes the per-pixel color transform: contrast,
//! brightness, saturation, an invert flag, and a reserved color-temperature
//! field. The three continuous parameters are fixed-point values counted in
//! thousandths (milli-units), so that the transform is exact integer
//! arithmetic:
//!
//! - `contrast` is a linear multiplier around mid-gray; `1000` (that is,
//!   1.000) is neutral, and the accepted range is `0 ..= 2000`.
//! - `brightness` is an additive offset as a fraction of full scale;
//!   `0` is neutral, and the accepted range is `-500 ..= 500`.
//! - `saturation` is the blend factor away from luminance; `1000` is
//!   neutral (unchanged), `0` is fully desaturated, and the accepted range
//!   is `0 ..= 2000`.
//! - `temperature` is a color temperature in kelvin, carried in the
//!   parameter block but not yet wired into the transform.

use vstd::prelude::*;

verus! {

/// Neutral contrast multiplier, in milli-units.
pub const CONTRAST_NEUTRAL: u32 = 1000;

/// Largest accepted contrast multiplier, in milli-units.
pub const CONTRAST_MAX: u32 = 2000;

/// Largest accepted brightness offset magnitude, in milli-units.
pub const BRIGHTNESS_MAX: i32 = 500;

/// Neutral saturation factor, in milli-units.
pub const SATURATION_NEUTRAL: u32 = 1000;

/// Largest accepted saturation factor, in milli-units.
pub const SATURATION_MAX: u32 = 2000;

/// Largest accepted color temperature, in kelvin.
pub const TEMPERATURE_MAX: u32 = 40000;

/// Default color temperature, in kelvin.
pub const TEMPERATURE_DEFAULT: u32 = 5500;

/// The parameter block of the color-grade pass, in fixed-point milli-units.
#[derive(Clone, Copy, Debug, PartialEq, Eq, Structural)]
pub struct Settings {
    /// Linear contrast multiplier around mid-gray, milli-units.
    pub contrast: u32,
    /// Additive brightness offset as a fraction of full scale, milli-units.
    pub brightness: i32,
    /// Blend factor away from luminance, milli-units.
    pub saturation: u32,
    /// Whether each color channel is inverted before grading.
    pub invert: bool,
    /// Color temperature in kelvin; reserved, not read by the transform.
    pub temperature: u32,
}

impl Settings {
    /// All fields within their accepted ranges.
    pub open spec fn valid(self) -> bool {
        &&& self.contrast <= CONTRAST_MAX
        &&& -BRIGHTNESS_MAX <= self.brightness <= BRIGHTNESS_MAX
        &&& self.saturation <= SATURATION_MAX
        &&& self.temperature <= TEMPERATURE_MAX
    }

    /// Settings under which the color transform is the identity.
    pub open spec fn is_neutral(self) -> bool {
        &&& self.contrast == CONTRAST_NEUTRAL
        &&& self.brightness == 0
        &&& self.saturation == SATURATION_NEUTRAL
        &&& !self.invert
    }

    /// Settings that only invert: every other parameter is neutral.
    pub open spec fn is_invert_only(self) -> bool {
        &&& self.contrast == CONTRAST_NEUTRAL
        &&& self.brightness == 0
        &&& self.saturation == SATURATION_NEUTRAL
        &&& self.invert
    }

    /// The neutral parameter block: every adjustment switched off.
    pub fn new() -> (s: Settings)
        ensures
            s.valid(),
            s.is_neutral(),
            s.temperature == TEMPERATURE_DEFAULT,
    {
        Settings {
            contrast: CONTRAST_NEUTRAL,
            brightness: 0,
            saturation: SATURATION_NEUTRAL,
            invert: false,
            temperature: TEMPERATURE_DEFAULT,
        }
    }

    /// Sets the contrast multiplier, clamping to the accepted range.
    pub fn set_contrast(&mut self, milli: u32)
        requires
            old(self).valid(),
        ensures
            final(self).valid(),
            final(self).contrast == (if milli > CONTRAST_MAX {
                CONTRAST_MAX
            } else {
                milli
            }),
            final(self).brightness == old(self).brightness,
            final(self).saturation == old(self).saturation,
            final(self).invert == old(self).invert,
            final(self).temperature == old(self).temperature,
    {
        self.contrast = if milli > CONTRAST_MAX {
            CONTRAST_MAX
        } else {
            milli
        };
    }

    /// Sets the brightness offset, clamping to the accepted range.
    pub fn set_brightness(&mut self, milli: i32)
        requires
            old(self).valid(),
        ensures
            final(self).valid(),
            final(self).brightness == (if milli > BRIGHTNESS_MAX {
                BRIGHTNESS_MAX as int
            } else if milli < -BRIGHTNESS_MAX {
                -BRIGHTNESS_MAX as int
            } else {
                milli as int
            }),
            final(self).contrast == old(self).contrast,
            final(self).saturation == old(self).saturation,
            final(self).invert == old(self).invert,
            final(self).temperature == old(self).temperature,
    {
        self.brightness = if milli > BRIGHTNESS_MAX {
            BRIGHTNESS_MAX
        } else if milli < -BRIGHTNESS_MAX {
            -BRIGHTNESS_MAX
        } else {
            milli
        };
    }

    /// Sets the saturation factor, clamping to the accepted range.
    pub fn set_saturation(&mut self, milli: u32)
        requires
            old(self).valid(),
        ensures
            final(self).valid(),
            final(self).saturation == (if milli > SATURATION_MAX {
                SATURATION_MAX
            } else {
                milli
            }),
            final(self).contrast == old(self).contrast,
            final(self).brightness == old(self).brightness,
            final(self).invert == old(self).invert,
            final(self).temperature == old(self).temperature,
    {
        self.saturation = if milli > SATURATION_MAX {
            SATURATION_MAX
        } else {
            milli
        };
    }

    /// Switches channel inversion on or off.
    pub fn set_invert(&mut self, on: bool)
        requires
            old(self).valid(),
        ensures
            final(self).valid(),
            final(self).invert == on,
            final(self).contrast == old(self).contrast,
            final(self).brightness == old(self).brightness,
            final(self).saturation == old(self).saturation,
            final(self).temperature == old(self).temperature,
    {
        self.invert = on;
    }

    /// Sets the color temperature, clamping to the accepted range.
    pub fn set_temperature(&mut self, kelvin: u32)
        requires
            old(self).valid(),
        ensures
            final(self).valid(),
            final(self).temperature == (if kelvin > TEMPERATURE_MAX {
                TEMPERATURE_MAX
            } else {
                kelvin
            }),
            final(self).contrast == old(self).contrast,
            final(self).brightness == old(self).brightness,
            final(self).saturation == old(self).saturation,
            final(self).invert == old(self).invert,
    {
        self.temperature = if kelvin > TEMPERATURE_MAX {
            TEMPERATURE_MAX
        } else {
            kelvin
        };
    }
}

impl Default for Settings {
    /// The neutral parameter block.
    fn default() -> (s: Settings)
        ensures
            s.valid(),
            s.is_neutral(),
            s.temperature == TEMPERATURE_DEFAULT,
    {
        Settings::new()
    }
}

} // verus!
