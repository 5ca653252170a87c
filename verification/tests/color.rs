use blinksy::color::{
    channel_word, scale16, to_8bit, ColorCorrection, FromColor, IntoColor, LinearRgb, LinearRgbw,
    CHANNEL_MAX,
};
use blinksy::leds::{brightness_5bit, to_7bit};

#[test]
fn test_scale16_identity_and_zero() {
    assert_eq!(scale16(0x1234, CHANNEL_MAX), 0x1234);
    assert_eq!(scale16(0x1234, 0), 0);
    assert_eq!(scale16(0, 0x8000), 0);
}

#[test]
fn test_scale16_half() {
    // 0x8000 / 0xFFFF is just over one half
    assert_eq!(scale16(0xFFFF, 0x8000), 0x8000);
    assert_eq!(scale16(0x8000, 0x8000), 0x4000);
}

#[test]
fn test_to_8bit_rounding() {
    assert_eq!(to_8bit(0), 0);
    assert_eq!(to_8bit(0x007F), 0);
    assert_eq!(to_8bit(0x0080), 1);
    assert_eq!(to_8bit(0xFFFF), 0xFF);
    assert_eq!(to_8bit(0xFF7F), 0xFF);
    assert_eq!(to_8bit(0x8000), 0x80);
}

#[test]
fn test_channel_word_full_brightness() {
    assert_eq!(channel_word(CHANNEL_MAX, CHANNEL_MAX, CHANNEL_MAX), 0xFF);
    assert_eq!(channel_word(CHANNEL_MAX, 0, CHANNEL_MAX), 0);
    assert_eq!(channel_word(0, CHANNEL_MAX, CHANNEL_MAX), 0);
}

#[test]
fn test_color_correction_default_is_neutral() {
    let correction = ColorCorrection::default();
    assert_eq!(correction.red, CHANNEL_MAX);
    assert_eq!(correction.green, CHANNEL_MAX);
    assert_eq!(correction.blue, CHANNEL_MAX);
}

#[test]
fn test_rgbw_derivation_preserves_channels() {
    let color = LinearRgb::new(500, 1000, 300);
    let rgbw = LinearRgbw::from_linear_rgb(color);
    assert_eq!(rgbw.white, 300);
    assert_eq!(rgbw.red + rgbw.white, 500);
    assert_eq!(rgbw.green + rgbw.white, 1000);
    assert_eq!(rgbw.blue + rgbw.white, 300);
}

#[test]
fn test_rgbw_derivation_grey_is_pure_white() {
    let rgbw = LinearRgbw::from_linear_rgb(LinearRgb::new(4242, 4242, 4242));
    assert_eq!(rgbw.red, 0);
    assert_eq!(rgbw.green, 0);
    assert_eq!(rgbw.blue, 0);
    assert_eq!(rgbw.white, 4242);
}

#[test]
fn test_from_color_and_into_color() {
    let color = LinearRgb::new(9, 9, 9);
    let rgbw = LinearRgbw::from_color(color);
    assert_eq!(rgbw.white, 9);
    let rgbw2: LinearRgbw = color.into_color();
    assert_eq!(rgbw2, rgbw);
}

#[test]
fn test_to_7bit_values() {
    // a zero channel keeps only the mandatory latch bit
    assert_eq!(to_7bit(0), 0x80);
    // near-full channels saturate at all seven data bits
    assert_eq!(to_7bit(0xFFFF), 0xFF);
    assert_eq!(to_7bit(0xFF00), 0xFF);
    // a mid value rounds to its 8-bit form and is halved
    assert_eq!(to_7bit(0x8000), 0x80 + 0x40);
}

#[test]
fn test_brightness_5bit_values() {
    assert_eq!(brightness_5bit(0), 0);
    assert_eq!(brightness_5bit(0xFFFF), 31);
    assert_eq!(brightness_5bit(0x8000), 16);
}
