//! Chipset definitions: the protocol parameters of concrete LED parts.

use vstd::prelude::*;

use crate::channels::{ColorChannels, RgbChannels};
use crate::clocked::{spec_clocked_frame, spec_led_frames, ClockedLed};
use crate::clockless::{clockless_frame_buffer_size, ClocklessLed, ProtocolTiming};
use crate::color::{
    channel_word, scale16, spec_channel_word, spec_scale16, ColorCorrection, LinearRgb,
    CHANNEL_MAX,
};

verus! {

/// WS2812 family: single-wire clockless chipset, 3 bytes per pixel in GRB
/// order.
///
/// A `0` bit is a short high pulse (400 ns) followed by a long low pulse
/// (850 ns); a `1` bit is a long high pulse (800 ns) followed by a short low
/// pulse (450 ns); a frame is latched by holding the line low for at least
/// 50 us.
pub struct Ws2812;

impl Ws2812 {
    /// Size in bytes of the frame for a pixel count.
    pub fn frame_buffer_size(pixel_count: usize) -> (r: usize)
        requires
            pixel_count * 3 <= usize::MAX,
        ensures
            r == pixel_count * 3,
    {
        clockless_frame_buffer_size(pixel_count)
    }
}

impl ClocklessLed for Ws2812 {
    open spec fn spec_timing() -> ProtocolTiming {
        ProtocolTiming { t_0h: 400, t_0l: 850, t_1h: 800, t_1l: 450, t_reset: 50_000 }
    }

    open spec fn spec_channels() -> ColorChannels {
        ColorChannels::Rgb(RgbChannels::GRB)
    }

    fn timing() -> (r: ProtocolTiming) {
        ProtocolTiming { t_0h: 400, t_0l: 850, t_1h: 800, t_1l: 450, t_reset: 50_000 }
    }

    fn channels() -> (r: ColorChannels) {
        ColorChannels::Rgb(RgbChannels::GRB)
    }
}

/// A 16-bit brightness fraction narrowed to the 5-bit hardware brightness
/// field, rounding to nearest.
pub open spec fn spec_brightness_5bit(brightness: u16) -> u8 {
    ((brightness * 31 + 0x7FFF) / 0xFFFF) as u8
}

/// Narrows a 16-bit brightness fraction to the 5-bit hardware brightness
/// field, rounding to nearest.
pub fn brightness_5bit(brightness: u16) -> (r: u8)
    ensures
        r == spec_brightness_5bit(brightness),
        r <= 31,
{
    let r = ((brightness as u32 * 31 + 0x7FFF) / 0xFFFF) as u8;
    proof {
        assert(brightness * 31 + 0x7FFF <= 0xFFFF * 31 + 0x7FFF) by (nonlinear_arith)
            requires
                brightness <= 0xFFFF,
        ;
        assert((brightness * 31 + 0x7FFF) / 0xFFFF <= 31) by (nonlinear_arith)
            requires
                brightness * 31 + 0x7FFF <= 0xFFFF * 31 + 0x7FFF,
        ;
    }
    r
}

/// APA102 family (two-wire clocked chipset with a per-pixel brightness
/// header).
///
/// The start frame is four zero bytes. Each pixel is one header byte - the
/// top three bits set, the low five bits the global brightness - followed by
/// the three color bytes in BGR order, with per-channel correction applied in
/// linear space. The end frame is one zero byte per started group of sixteen
/// pixels past the first, which flushes the chain's shift registers.
pub struct Apa102;

impl Apa102 {
    /// Size in bytes of the full transmission for a pixel count.
    pub fn frame_buffer_size(pixel_count: usize) -> (r: usize)
        requires
            pixel_count >= 1,
            pixel_count * 5 <= usize::MAX - 5,
        ensures
            r == 4 + pixel_count * 4 + ((pixel_count - 1) + 15) / 16,
    {
        4 + pixel_count * 4 + (pixel_count - 1 + 15) / 16
    }
}

impl ClockedLed for Apa102 {
    open spec fn spec_start() -> Seq<u8> {
        seq![0u8, 0u8, 0u8, 0u8]
    }

    open spec fn spec_led(color: LinearRgb, brightness: u16, correction: ColorCorrection) -> Seq<
        u8,
    > {
        let header = (0xE0 + spec_brightness_5bit(brightness)) as u8;
        let r = spec_channel_word(color.red, CHANNEL_MAX, correction.red);
        let g = spec_channel_word(color.green, CHANNEL_MAX, correction.green);
        let b = spec_channel_word(color.blue, CHANNEL_MAX, correction.blue);
        seq![header] + RgbChannels::BGR.spec_reorder(seq![r, g, b])
    }

    open spec fn spec_end(pixel_count: nat) -> Seq<u8> {
        if pixel_count == 0 {
            Seq::empty()
        } else {
            Seq::new(((pixel_count - 1) + 15) as nat / 16, |i: int| 0u8)
        }
    }

    fn start() -> (r: Vec<u8>) {
        let words = vec![0u8, 0u8, 0u8, 0u8];
        proof {
            assert(words@ =~= Self::spec_start());
        }
        words
    }

    fn led(color: LinearRgb, brightness: u16, correction: ColorCorrection) -> (r: Vec<u8>) {
        let header = 0xE0 + brightness_5bit(brightness);
        let red = channel_word(color.red, CHANNEL_MAX, correction.red);
        let green = channel_word(color.green, CHANNEL_MAX, correction.green);
        let blue = channel_word(color.blue, CHANNEL_MAX, correction.blue);
        let words = vec![header, blue, green, red];
        proof {
            assert(words@ =~= Self::spec_led(color, brightness, correction));
        }
        words
    }

    fn end(pixel_count: usize) -> (r: Vec<u8>) {
        let mut words: Vec<u8> = Vec::new();
        if pixel_count == 0 {
            proof {
                assert(words@ =~= Self::spec_end(pixel_count as nat));
            }
            return words;
        }
        let count = (pixel_count - 1) / 16 + if (pixel_count - 1) % 16 == 0 {
            0
        } else {
            1
        };
        proof {
            assert(count == ((pixel_count - 1) + 15) / 16);
        }
        let mut i: usize = 0;
        while i < count
            invariant
                i <= count,
                words@ == Seq::new(i as nat, |k: int| 0u8),
            decreases count - i,
        {
            words.push(0u8);
            proof {
                assert(words@ =~= Seq::new((i + 1) as nat, |k: int| 0u8));
            }
            i = i + 1;
        }
        proof {
            assert(words@ =~= Self::spec_end(pixel_count as nat));
        }
        words
    }
}

/// The number of per-pixel words of an APA102 transmission is four per pixel.
pub proof fn lemma_apa102_led_frames_len(
    pixels: Seq<LinearRgb>,
    brightness: u16,
    correction: ColorCorrection,
)
    ensures
        spec_led_frames::<Apa102>(pixels, brightness, correction).len() == pixels.len() * 4,
    decreases pixels.len(),
{
    if pixels.len() == 0 {
    } else {
        lemma_apa102_led_frames_len(pixels.skip(1), brightness, correction);
    }
}

/// A 16-bit channel narrowed to the seven-bit data field of an LPD8806 word:
/// the rounded, saturating 8-bit value halved, with the mandatory top bit set.
pub open spec fn spec_to_7bit(value: u16) -> u8 {
    let sat = if value == 0 {
        0u8
    } else if value >= 0xFF00 {
        0xFFu8
    } else {
        ((value + 0x80) / 0x100) as u8
    };
    (0x80 + sat / 2) as u8
}

/// Narrows a 16-bit channel value to an LPD8806 data word: seven data bits
/// with the top (latch) bit set.
pub fn to_7bit(value: u16) -> (r: u8)
    ensures
        r == spec_to_7bit(value),
{
    let sat: u8 = if value == 0 {
        0
    } else if value >= 0xFF00 {
        0xFF
    } else {
        ((value + 0x80) / 0x100) as u8
    };
    0x80 + sat / 2
}

/// LPD8806: two-wire clocked chipset with seven data bits per channel word.
///
/// The start frame is four zero bytes. Each pixel is three channel words in
/// GRB order, each the corrected linear channel narrowed to seven bits with
/// the top bit set; global brightness does not enter the words (the chipset
/// has no brightness field, and brightness is left to the caller's colors).
/// The end frame is one zero byte per started group of sixteen pixels past
/// the first.
pub struct Lpd8806;

impl Lpd8806 {
    /// Size in bytes of the full transmission for a pixel count.
    pub fn frame_buffer_size(pixel_count: usize) -> (r: usize)
        requires
            pixel_count >= 1,
            pixel_count * 4 <= usize::MAX - 5,
        ensures
            r == 4 + pixel_count * 3 + ((pixel_count - 1) + 15) / 16,
    {
        4 + pixel_count * 3 + (pixel_count - 1 + 15) / 16
    }
}

impl ClockedLed for Lpd8806 {
    open spec fn spec_start() -> Seq<u8> {
        seq![0u8, 0u8, 0u8, 0u8]
    }

    open spec fn spec_led(color: LinearRgb, brightness: u16, correction: ColorCorrection) -> Seq<
        u8,
    > {
        let r = spec_to_7bit(spec_scale16(color.red, correction.red));
        let g = spec_to_7bit(spec_scale16(color.green, correction.green));
        let b = spec_to_7bit(spec_scale16(color.blue, correction.blue));
        RgbChannels::GRB.spec_reorder(seq![r, g, b])
    }

    open spec fn spec_end(pixel_count: nat) -> Seq<u8> {
        if pixel_count == 0 {
            Seq::empty()
        } else {
            Seq::new(((pixel_count - 1) + 15) as nat / 16, |i: int| 0u8)
        }
    }

    fn start() -> (r: Vec<u8>) {
        let words = vec![0u8, 0u8, 0u8, 0u8];
        proof {
            assert(words@ =~= Self::spec_start());
        }
        words
    }

    fn led(color: LinearRgb, _brightness: u16, correction: ColorCorrection) -> (r: Vec<u8>) {
        let red = to_7bit(scale16(color.red, correction.red));
        let green = to_7bit(scale16(color.green, correction.green));
        let blue = to_7bit(scale16(color.blue, correction.blue));
        let words = vec![green, red, blue];
        proof {
            assert(words@ =~= Self::spec_led(color, _brightness, correction));
        }
        words
    }

    fn end(pixel_count: usize) -> (r: Vec<u8>) {
        let mut words: Vec<u8> = Vec::new();
        if pixel_count == 0 {
            proof {
                assert(words@ =~= Self::spec_end(pixel_count as nat));
            }
            return words;
        }
        let count = (pixel_count - 1) / 16 + if (pixel_count - 1) % 16 == 0 {
            0
        } else {
            1
        };
        proof {
            assert(count == ((pixel_count - 1) + 15) / 16);
        }
        let mut i: usize = 0;
        while i < count
            invariant
                i <= count,
                words@ == Seq::new(i as nat, |k: int| 0u8),
            decreases count - i,
        {
            words.push(0u8);
            proof {
                assert(words@ =~= Seq::new((i + 1) as nat, |k: int| 0u8));
            }
            i = i + 1;
        }
        proof {
            assert(words@ =~= Self::spec_end(pixel_count as nat));
        }
        words
    }
}

/// The number of per-pixel words of an LPD8806 transmission is three per
/// pixel.
pub proof fn lemma_lpd8806_led_frames_len(
    pixels: Seq<LinearRgb>,
    brightness: u16,
    correction: ColorCorrection,
)
    ensures
        spec_led_frames::<Lpd8806>(pixels, brightness, correction).len() == pixels.len() * 3,
    decreases pixels.len(),
{
    if pixels.len() == 0 {
    } else {
        lemma_lpd8806_led_frames_len(pixels.skip(1), brightness, correction);
    }
}


/// The total byte count of an APA102 transmission: four start bytes, four
/// bytes per pixel, and one trailing zero byte per started group of sixteen
/// pixels past the first.
pub proof fn lemma_apa102_frame_len(
    pixels: Seq<LinearRgb>,
    brightness: u16,
    correction: ColorCorrection,
)
    requires
        pixels.len() >= 1,
    ensures
        spec_clocked_frame::<Apa102>(pixels, brightness, correction).len() == 4 + pixels.len() * 4
            + ((pixels.len() - 1) + 15) / 16,
{
    lemma_apa102_led_frames_len(pixels, brightness, correction);
}

/// The total byte count of an LPD8806 transmission equals its
/// `frame_buffer_size` formula: four start bytes, three bytes per pixel, and
/// one trailing zero byte per started group of sixteen pixels past the first.
pub proof fn lemma_lpd8806_frame_len(
    pixels: Seq<LinearRgb>,
    brightness: u16,
    correction: ColorCorrection,
)
    requires
        pixels.len() >= 1,
    ensures
        spec_clocked_frame::<Lpd8806>(pixels, brightness, correction).len() == 4 + pixels.len() * 3
            + ((pixels.len() - 1) + 15) / 16,
{
    lemma_lpd8806_led_frames_len(pixels, brightness, correction);
}

} // verus!
