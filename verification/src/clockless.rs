//! The clockless wire protocol family.
//!
//! Clockless chipsets use a single data line: each bit is encoded by the
//! duration of a high pulse followed by a low pulse, so timing is the signal.
//! A chipset is described by five duration constants and its channel order.
//! Each data byte is transmitted most-significant bit first; the bytes of one
//! pixel follow the chipset's channel order, pixels run back to back, and the
//! frame ends with the line held low for at least the reset duration, which
//! latches the frame.

use vstd::prelude::*;

use crate::bits::Word;
use crate::channels::{spec_pixel_words, ColorChannels};
use crate::color::{ColorCorrection, LinearRgb};
use crate::driver::DriverError;

verus! {

/// The five duration constants of a clockless chipset, in nanoseconds:
/// high and low pulse widths for a `0` bit, high and low pulse widths for a
/// `1` bit, and the minimum idle time that latches a frame.
///
/// Chipsets with a constant total cycle time have `t_0h + t_0l` equal (or
/// very close) to `t_1h + t_1l`; chipsets that tolerate a variable cycle time
/// may break that equality, and only the individual pulse widths matter.
#[derive(Clone, Copy, Debug, PartialEq, Eq, Structural)]
pub struct ProtocolTiming {
    /// High pulse width of a `0` bit.
    pub t_0h: u32,
    /// Low pulse width of a `0` bit.
    pub t_0l: u32,
    /// High pulse width of a `1` bit.
    pub t_1h: u32,
    /// Low pulse width of a `1` bit.
    pub t_1l: u32,
    /// Minimum reset (idle low) duration that latches a frame.
    pub t_reset: u32,
}

impl ProtocolTiming {
    /// Whether the per-bit cycle durations can be added without overflow.
    pub open spec fn wf(self) -> bool {
        self.t_0h + self.t_0l <= u32::MAX && self.t_1h + self.t_1l <= u32::MAX
    }

    /// The longer of the two bit cycle durations.
    pub fn cycle_ns(&self) -> (r: u32)
        requires
            self.wf(),
        ensures
            r == if self.t_0h + self.t_0l >= self.t_1h + self.t_1l {
                self.t_0h + self.t_0l
            } else {
                self.t_1h + self.t_1l
            },
    {
        let zero_cycle = self.t_0h + self.t_0l;
        let one_cycle = self.t_1h + self.t_1l;
        if zero_cycle >= one_cycle {
            zero_cycle
        } else {
            one_cycle
        }
    }
}

/// One transmitted bit as a pair of pulse widths: the line is driven high for
/// `high_ns` nanoseconds, then low for `low_ns` nanoseconds.
#[derive(Clone, Copy, Debug, PartialEq, Eq, Structural)]
pub struct Pulse {
    /// Duration of the high phase, in nanoseconds.
    pub high_ns: u32,
    /// Duration of the low phase, in nanoseconds.
    pub low_ns: u32,
}

/// A chipset of the clockless protocol family: its timing constants and its
/// channel order.
pub trait ClocklessLed {
    /// The chipset's timing constants.
    spec fn spec_timing() -> ProtocolTiming;

    /// The chipset's channel order.
    spec fn spec_channels() -> ColorChannels;

    /// The chipset's timing constants.
    fn timing() -> (r: ProtocolTiming)
        ensures
            r == Self::spec_timing(),
            r.wf(),
    ;

    /// The chipset's channel order.
    fn channels() -> (r: ColorChannels)
        ensures
            r == Self::spec_channels(),
    ;
}

/// The pulse pair that encodes one bit under the given timing.
pub open spec fn spec_bit_pulse(timing: ProtocolTiming, bit: bool) -> Pulse {
    if bit {
        Pulse { high_ns: timing.t_1h, low_ns: timing.t_1l }
    } else {
        Pulse { high_ns: timing.t_0h, low_ns: timing.t_0l }
    }
}

/// The pulse pairs that encode a byte sequence: eight pulse pairs per byte,
/// most significant bit first, bytes in order.
pub open spec fn spec_frame_pulses(timing: ProtocolTiming, frame: Seq<u8>) -> Seq<Pulse> {
    Seq::new(
        frame.len() * 8,
        |k: int| spec_bit_pulse(timing, frame[k / 8].spec_bit((7 - (k % 8)) as u32)),
    )
}

/// Expands a byte frame into the pulse pairs that transmit it: eight pulses
/// per byte, most significant bit first, a `1` bit as `t_1h`/`t_1l` and a `0`
/// bit as `t_0h`/`t_0l`.
pub fn frame_pulses(timing: ProtocolTiming, frame: &Vec<u8>) -> (r: Vec<Pulse>)
    requires
        frame@.len() * 8 <= usize::MAX,
    ensures
        r@ == spec_frame_pulses(timing, frame@),
        r@.len() == frame@.len() * 8,
{
    let mut pulses: Vec<Pulse> = Vec::new();
    let mut i: usize = 0;
    while i < frame.len()
        invariant
            i <= frame@.len(),
            frame@.len() * 8 <= usize::MAX,
            pulses@.len() == i * 8,
            forall|k: int|
                0 <= k < i * 8 ==> pulses@[k] == spec_bit_pulse(
                    timing,
                    frame@[k / 8].spec_bit((7 - (k % 8)) as u32),
                ),
        decreases frame@.len() - i,
    {
        let byte = frame[i];
        let mut j: u32 = 0;
        while j < 8
            invariant
                j <= 8,
                i < frame@.len(),
                frame@.len() * 8 <= usize::MAX,
                byte == frame@[i as int],
                pulses@.len() == i * 8 + j,
                forall|k: int|
                    0 <= k < i * 8 + j ==> pulses@[k] == spec_bit_pulse(
                        timing,
                        frame@[k / 8].spec_bit((7 - (k % 8)) as u32),
                    ),
            decreases 8 - j,
        {
            let bit = byte.bit_at(7 - j);
            let pulse = if bit {
                Pulse { high_ns: timing.t_1h, low_ns: timing.t_1l }
            } else {
                Pulse { high_ns: timing.t_0h, low_ns: timing.t_0l }
            };
            pulses.push(pulse);
            proof {
                let k = i * 8 + j;
                assert(k / 8 == i as int && k % 8 == j as int) by (nonlinear_arith)
                    requires
                        0 <= j < 8,
                        0 <= i,
                        k == i * 8 + j,
                ;
            }
            j = j + 1;
        }
        i = i + 1;
    }
    proof {
        assert(pulses@ =~= spec_frame_pulses(timing, frame@));
    }
    pulses
}


/// The byte frame of a pixel sequence: each pixel's wire words under the
/// chipset's channel order, pixels in index order, back to back.
pub open spec fn spec_clockless_frame(
    channels: ColorChannels,
    pixels: Seq<LinearRgb>,
    brightness: u16,
    correction: ColorCorrection,
) -> Seq<u8>
    decreases pixels.len(),
{
    if pixels.len() == 0 {
        Seq::empty()
    } else {
        spec_pixel_words(channels, pixels[0], brightness, correction) + spec_clockless_frame(
            channels,
            pixels.skip(1),
            brightness,
            correction,
        )
    }
}

/// Appending a pixel to a sequence appends its wire words to the frame.
pub proof fn lemma_clockless_frame_push(
    channels: ColorChannels,
    pixels: Seq<LinearRgb>,
    pixel: LinearRgb,
    brightness: u16,
    correction: ColorCorrection,
)
    ensures
        spec_clockless_frame(channels, pixels.push(pixel), brightness, correction)
            == spec_clockless_frame(channels, pixels, brightness, correction) + spec_pixel_words(
            channels,
            pixel,
            brightness,
            correction,
        ),
    decreases pixels.len(),
{
    if pixels.len() == 0 {
        assert(pixels.push(pixel).skip(1) =~= pixels);
        assert(spec_clockless_frame(channels, pixels, brightness, correction)
            =~= Seq::<u8>::empty());
        assert(spec_clockless_frame(channels, pixels.push(pixel), brightness, correction)
            =~= spec_clockless_frame(channels, pixels, brightness, correction) + spec_pixel_words(
            channels,
            pixel,
            brightness,
            correction,
        ));
    } else {
        lemma_clockless_frame_push(channels, pixels.skip(1), pixel, brightness, correction);
        assert(pixels.push(pixel).skip(1) =~= pixels.skip(1).push(pixel));
        assert(spec_clockless_frame(channels, pixels.push(pixel), brightness, correction)
            =~= spec_clockless_frame(channels, pixels, brightness, correction) + spec_pixel_words(
            channels,
            pixel,
            brightness,
            correction,
        ));
    }
}

/// The frame of a pixel sequence is as long as the pixel count times the
/// channel count.
pub proof fn lemma_clockless_frame_len(
    channels: ColorChannels,
    pixels: Seq<LinearRgb>,
    brightness: u16,
    correction: ColorCorrection,
)
    ensures
        spec_clockless_frame(channels, pixels, brightness, correction).len() == pixels.len()
            * channels.spec_channel_count(),
    decreases pixels.len(),
{
    if pixels.len() == 0 {
    } else {
        lemma_clockless_frame_len(channels, pixels.skip(1), brightness, correction);
        lemma_pixel_words_len(channels, pixels[0], brightness, correction);
        let c = channels.spec_channel_count() as int;
        assert((pixels.len() - 1) * c + c == pixels.len() * c) by (nonlinear_arith);
    }
}

/// One pixel's wire words are as many as the format's channel count.
pub proof fn lemma_pixel_words_len(
    channels: ColorChannels,
    color: LinearRgb,
    brightness: u16,
    correction: ColorCorrection,
)
    ensures
        spec_pixel_words(channels, color, brightness, correction).len()
            == channels.spec_channel_count(),
{
    match channels {
        ColorChannels::Rgb(order) => {
            assert(spec_pixel_words(channels, color, brightness, correction).len() == 3);
        },
        ColorChannels::Rgbw(order) => {
            assert(spec_pixel_words(channels, color, brightness, correction).len() == 4);
        },
    }
}

/// Encodes a pixel sequence into the byte frame for a chipset with the given
/// channel order, applying brightness and correction to each pixel.
pub fn clockless_frame(
    channels: ColorChannels,
    pixels: &Vec<LinearRgb>,
    brightness: u16,
    correction: ColorCorrection,
) -> (r: Vec<u8>)
    requires
        pixels@.len() * 4 <= usize::MAX,
    ensures
        r@ == spec_clockless_frame(channels, pixels@, brightness, correction),
        r@.len() == pixels@.len() * channels.spec_channel_count(),
{
    let mut words: Vec<u8> = Vec::new();
    let mut i: usize = 0;
    proof {
        lemma_clockless_frame_len(channels, pixels@, brightness, correction);
    }
    while i < pixels.len()
        invariant
            i <= pixels@.len(),
            pixels@.len() * 4 <= usize::MAX,
            words@ == spec_clockless_frame(channels, pixels@.take(i as int), brightness, correction),
            words@.len() == i * channels.spec_channel_count(),
        decreases pixels@.len() - i,
    {
        let arr = channels.to_array(pixels[i], brightness, correction);
        let s = arr.as_slice();
        let mut j: usize = 0;
        while j < s.len()
            invariant
                j <= s@.len(),
                words@ == spec_clockless_frame(channels, pixels@.take(i as int), brightness, correction)
                    + s@.take(j as int),
            decreases s@.len() - j,
        {
            let word = s[j];
            words.push(word);
            proof {
                assert(words@ =~= spec_clockless_frame(channels, pixels@.take(i as int), brightness, correction)
                    + s@.take(j + 1));
            }
            j = j + 1;
        }
        proof {
            assert(s@.take(s@.len() as int) =~= s@);
            lemma_clockless_frame_push(channels, pixels@.take(i as int), pixels@[i as int], brightness, correction);
            assert(pixels@.take(i as int).push(pixels@[i as int]) =~= pixels@.take(i + 1));
            lemma_clockless_frame_len(channels, pixels@.take(i + 1), brightness, correction);
        }
        i = i + 1;
    }
    proof {
        assert(pixels@.take(pixels@.len() as int) =~= pixels@);
    }
    words
}

/// Size in bytes of the frame for a pixel count, for a three-channel
/// clockless chipset.
pub fn clockless_frame_buffer_size(pixel_count: usize) -> (r: usize)
    requires
        pixel_count * 3 <= usize::MAX,
    ensures
        r == pixel_count * 3,
{
    pixel_count * 3
}

/// A clockless frame as it goes onto the line: the data pulses, then the line
/// held low for at least the reset duration.
pub struct ClocklessSignal {
    /// One pulse pair per transmitted bit, in transmission order.
    pub pulses: Vec<Pulse>,
    /// Idle low duration that follows the pulses and latches the frame, in
    /// nanoseconds.
    pub reset_ns: u32,
}

/// Driver front end for a clockless chipset: turns a frame of colors into
/// wire bytes or into the full pulse train.
///
/// The pixel count is fixed at construction; a frame of any other length is
/// reported as a configuration fault and nothing is encoded.
pub struct ClocklessDriver<Led> {
    led: core::marker::PhantomData<Led>,
    pixel_count: usize,
}

impl<Led: ClocklessLed> ClocklessDriver<Led> {
    /// The fixed number of pixels per frame.
    pub closed spec fn spec_pixel_count(self) -> usize {
        self.pixel_count
    }

    /// Builds a driver for a chain of `pixel_count` pixels.
    pub fn new(pixel_count: usize) -> (r: ClocklessDriver<Led>)
        requires
            pixel_count * 4 <= usize::MAX,
        ensures
            r.spec_pixel_count() == pixel_count,
    {
        ClocklessDriver { led: core::marker::PhantomData, pixel_count }
    }

    /// Encodes one frame of colors into the chipset's wire bytes.
    ///
    /// Returns the configuration fault (and encodes nothing) exactly when
    /// `pixels` does not hold the driver's fixed pixel count.
    pub fn frame(
        &self,
        pixels: &Vec<LinearRgb>,
        brightness: u16,
        correction: ColorCorrection,
    ) -> (r: Result<Vec<u8>, DriverError<()>>)
        requires
            self.spec_pixel_count() * 4 <= usize::MAX,
        ensures
            r is Err <==> pixels@.len() != self.spec_pixel_count(),
            r is Err ==> r == Result::<Vec<u8>, DriverError<()>>::Err(
                DriverError::PixelCountMismatch,
            ),
            r matches Ok(frame) ==> frame@ == spec_clockless_frame(
                Led::spec_channels(),
                pixels@,
                brightness,
                correction,
            ) && frame@.len() == pixels@.len() * Led::spec_channels().spec_channel_count(),
    {
        if pixels.len() != self.pixel_count {
            return Err(DriverError::PixelCountMismatch);
        }
        let channels = Led::channels();
        Ok(clockless_frame(channels, pixels, brightness, correction))
    }

    /// Encodes one frame of colors into the full line signal: the data pulse
    /// train, most significant bit first per byte, followed by the reset
    /// duration.
    ///
    /// Returns the configuration fault (and encodes nothing) exactly when
    /// `pixels` does not hold the driver's fixed pixel count.
    pub fn signal(
        &self,
        pixels: &Vec<LinearRgb>,
        brightness: u16,
        correction: ColorCorrection,
    ) -> (r: Result<ClocklessSignal, DriverError<()>>)
        requires
            self.spec_pixel_count() * 32 <= usize::MAX,
        ensures
            r is Err <==> pixels@.len() != self.spec_pixel_count(),
            r is Err ==> r == Result::<ClocklessSignal, DriverError<()>>::Err(
                DriverError::PixelCountMismatch,
            ),
            r matches Ok(signal) ==> signal.pulses@ == spec_frame_pulses(
                Led::spec_timing(),
                spec_clockless_frame(Led::spec_channels(), pixels@, brightness, correction),
            ) && signal.reset_ns == Led::spec_timing().t_reset,
    {
        let frame = match self.frame(pixels, brightness, correction) {
            Ok(frame) => frame,
            Err(_) => {
                return Err(DriverError::PixelCountMismatch);
            },
        };
        let timing = Led::timing();
        proof {
            let c = Led::spec_channels().spec_channel_count() as int;
            assert(c <= 4);
            assert(frame@.len() <= self.spec_pixel_count() * 4) by (nonlinear_arith)
                requires
                    frame@.len() == self.spec_pixel_count() * c,
                    0 <= c <= 4,
                    0 <= self.spec_pixel_count(),
            ;
            assert(frame@.len() * 8 <= self.spec_pixel_count() * 32) by (nonlinear_arith)
                requires
                    frame@.len() <= self.spec_pixel_count() * 4,
            ;
        }
        let pulses = frame_pulses(timing, &frame);
        Ok(ClocklessSignal { pulses, reset_ns: timing.t_reset })
    }
}

} // verus!
