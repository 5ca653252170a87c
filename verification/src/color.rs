//! Linear color values and the brightness / color-correction compositor.
//!
//! Protocol encoding works on colors in a linear light space, where channel
//! values are directly proportional to emitted light. A channel is held as a
//! 16-bit fraction of full intensity: `0` is off and `0xFFFF` is full power,
//! standing for the closed interval from zero to one. Global brightness and
//! per-channel correction are scale factors in the same 16-bit fraction form,
//! and are applied in linear space, before the value is narrowed to the wire
//! word width, so that the scaling is physically accurate.

use vstd::prelude::*;

verus! {

/// Full intensity of a 16-bit linear channel, standing for 1.0.
pub const CHANNEL_MAX: u16 = 0xFFFF;

/// A color in linear RGB space; each channel is a 16-bit fraction of full
/// intensity.
#[derive(Clone, Copy, Debug, PartialEq, Eq, Structural)]
pub struct LinearRgb {
    /// Red channel, `0` to `0xFFFF`.
    pub red: u16,
    /// Green channel, `0` to `0xFFFF`.
    pub green: u16,
    /// Blue channel, `0` to `0xFFFF`.
    pub blue: u16,
}

impl LinearRgb {
    /// Creates a linear RGB color from its three channels.
    pub fn new(red: u16, green: u16, blue: u16) -> (r: LinearRgb)
        ensures
            r == (LinearRgb { red, green, blue }),
    {
        LinearRgb { red, green, blue }
    }
}

/// A color in linear RGB space with a dedicated white channel; each channel
/// is a 16-bit fraction of full intensity.
#[derive(Clone, Copy, Debug, PartialEq, Eq, Structural)]
pub struct LinearRgbw {
    /// Red channel, `0` to `0xFFFF`.
    pub red: u16,
    /// Green channel, `0` to `0xFFFF`.
    pub green: u16,
    /// Blue channel, `0` to `0xFFFF`.
    pub blue: u16,
    /// White channel, `0` to `0xFFFF`.
    pub white: u16,
}

/// The smaller of two channel values.
pub open spec fn spec_min_u16(a: u16, b: u16) -> u16 {
    if a <= b {
        a
    } else {
        b
    }
}

impl LinearRgbw {
    /// Creates a linear RGBW color from its four channels.
    pub fn new(red: u16, green: u16, blue: u16, white: u16) -> (r: LinearRgbw)
        ensures
            r == (LinearRgbw { red, green, blue, white }),
    {
        LinearRgbw { red, green, blue, white }
    }

    /// Derives a white channel from a linear RGB color.
    ///
    /// The white channel takes the common part of the three colored channels
    /// (their minimum), and that part is subtracted from each colored channel,
    /// so the total light output per channel is preserved while the neutral
    /// load shifts onto the dedicated white emitter.
    pub fn from_linear_rgb(color: LinearRgb) -> (r: LinearRgbw)
        ensures
            r.white == spec_min_u16(color.red, spec_min_u16(color.green, color.blue)),
            r.red + r.white == color.red,
            r.green + r.white == color.green,
            r.blue + r.white == color.blue,
    {
        let white = if color.red <= color.green && color.red <= color.blue {
            color.red
        } else if color.green <= color.red && color.green <= color.blue {
            color.green
        } else {
            color.blue
        };
        LinearRgbw {
            red: color.red - white,
            green: color.green - white,
            blue: color.blue - white,
            white,
        }
    }
}

/// Per-channel correction factors, multiplied into a linear color after
/// global brightness. Each factor is a 16-bit fraction, `0xFFFF` being a
/// factor of one.
#[derive(Clone, Copy, Debug, PartialEq, Eq, Structural)]
pub struct ColorCorrection {
    /// Scale factor for the red channel.
    pub red: u16,
    /// Scale factor for the green channel.
    pub green: u16,
    /// Scale factor for the blue channel.
    pub blue: u16,
}

impl ColorCorrection {
    /// Creates a correction from its three per-channel factors.
    pub fn new(red: u16, green: u16, blue: u16) -> (r: ColorCorrection)
        ensures
            r == (ColorCorrection { red, green, blue }),
    {
        ColorCorrection { red, green, blue }
    }
}

impl Default for ColorCorrection {
    /// The neutral correction: every channel keeps its value.
    fn default() -> (r: ColorCorrection)
        ensures
            r == (ColorCorrection { red: CHANNEL_MAX, green: CHANNEL_MAX, blue: CHANNEL_MAX }),
    {
        ColorCorrection { red: CHANNEL_MAX, green: CHANNEL_MAX, blue: CHANNEL_MAX }
    }
}

/// `value` scaled by `factor`, both 16-bit fractions: the floor of
/// `value * factor / 0xFFFF`.
pub open spec fn spec_scale16(value: u16, factor: u16) -> u16 {
    ((value * factor) / (CHANNEL_MAX as int)) as u16
}

/// Scales a 16-bit channel value by a 16-bit fraction.
pub fn scale16(value: u16, factor: u16) -> (r: u16)
    ensures
        r == spec_scale16(value, factor),
        r <= value,
        factor == CHANNEL_MAX ==> r == value,
{
    proof {
        assert(value * factor <= 0xFFFF * 0xFFFF) by (nonlinear_arith)
            requires
                0 <= value <= 0xFFFF,
                0 <= factor <= 0xFFFF,
        ;
    }
    let wide: u32 = (value as u32) * (factor as u32);
    let scaled: u32 = wide / (CHANNEL_MAX as u32);
    proof {
        assert(value * factor <= value * (CHANNEL_MAX as int)) by (nonlinear_arith)
            requires
                factor <= (CHANNEL_MAX as int),
                0 <= value,
        ;
        assert((value * (CHANNEL_MAX as int)) / (CHANNEL_MAX as int) == value) by (nonlinear_arith)
            requires
                0 <= value,
        ;
        assert((value * factor) / (CHANNEL_MAX as int) <= (value * (CHANNEL_MAX as int)) / (
        CHANNEL_MAX as int)) by (nonlinear_arith)
            requires
                value * factor <= value * (CHANNEL_MAX as int),
        ;
    }
    scaled as u16
}

/// A 16-bit channel narrowed to an 8-bit wire word, rounding to nearest: the
/// integer quotient `(value + 0x80) / 0x100`, saturating at `0xFF`.
pub open spec fn spec_to_8bit(value: u16) -> u8 {
    if value >= 0xFF80 {
        0xFF
    } else {
        ((value + 0x80) / 0x100) as u8
    }
}

/// Narrows a 16-bit channel value to 8 bits, rounding to nearest.
pub fn to_8bit(value: u16) -> (r: u8)
    ensures
        r == spec_to_8bit(value),
{
    if value >= 0xFF80 {
        0xFF
    } else {
        ((value + 0x80) / 0x100) as u8
    }
}

/// One channel of a pixel taken from linear intensity to its 8-bit wire word:
/// scaled by global brightness, then by the channel's correction factor, then
/// narrowed to 8 bits with rounding.
pub open spec fn spec_channel_word(value: u16, brightness: u16, correction: u16) -> u8 {
    spec_to_8bit(spec_scale16(spec_scale16(value, brightness), correction))
}

/// Applies brightness and correction to one linear channel and narrows it to
/// its 8-bit wire word.
pub fn channel_word(value: u16, brightness: u16, correction: u16) -> (r: u8)
    ensures
        r == spec_channel_word(value, brightness, correction),
{
    to_8bit(scale16(scale16(value, brightness), correction))
}

/// Conversion from another color representation.
pub trait FromColor<Color>: Sized {
    /// Converts `color` into this representation.
    fn from_color(color: Color) -> Self;
}

/// Conversion into another color representation.
pub trait IntoColor<Color>: Sized {
    /// Converts this value into the target representation.
    fn into_color(self) -> Color;
}

impl<T, U: FromColor<T>> IntoColor<U> for T {
    fn into_color(self) -> U {
        U::from_color(self)
    }
}

impl FromColor<LinearRgb> for LinearRgbw {
    /// Converts by deriving the white channel from the common part of R, G
    /// and B.
    fn from_color(color: LinearRgb) -> Self {
        LinearRgbw::from_linear_rgb(color)
    }
}

impl FromColor<LinearRgb> for LinearRgb {
    fn from_color(color: LinearRgb) -> Self {
        color
    }
}

/// Strategy for mapping a hue angle onto colors; implementors are type-level
/// markers chosen by patterns.
pub trait HueMap {

}

/// Hue mapping that spreads the primaries evenly around the hue circle.
pub struct HueRainbow;

impl HueMap for HueRainbow {

}

/// Hue mapping that follows the light spectrum.
pub struct HueSpectrum;

impl HueMap for HueSpectrum {

}

} // verus!
