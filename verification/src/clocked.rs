//! The clocked wire protocol family.
//!
//! Clocked chipsets have separate data and clock lines, so only the clock
//! frequency matters, not the exact timing of toggles. A chipset is described
//! by three word-producing operations: a start frame that opens a
//! transmission, a per-pixel frame, and an end frame whose size may depend on
//! the pixel count. A transmission is exactly the start frame, one frame per
//! pixel in index order, and the end frame; no backend may truncate or pad
//! that sequence.

use vstd::prelude::*;

use crate::bits::Word;
use crate::color::{ColorCorrection, LinearRgb};
use crate::driver::{Driver, DriverError};

verus! {

/// A sink that accepts data words for a clocked protocol, such as a hardware
/// synchronous bus or a pair of bit-banged GPIO lines.
///
/// The view `written()` is the sequence of every byte the sink has accepted.
/// A failed write may leave the sink in an indeterminate state; nothing is
/// promised of `written()` then.
pub trait ClockedWriter {
    /// Fault type a write can report.
    type Error;

    /// Every byte this writer has accepted so far, in order.
    spec fn written(&self) -> Seq<u8>;

    /// Writes the given words to the protocol, in order.
    fn write(&mut self, words: &[u8]) -> (r: Result<(), Self::Error>)
        ensures
            r is Ok ==> final(self).written() == old(self).written() + words@,
    ;
}

/// An in-memory [`ClockedWriter`] that records every byte written to it.
///
/// It stands in for a transmission channel in tests and simulations, and its
/// buffer can be handed as-is to a hardware bus.
pub struct BufferWriter {
    bytes: Vec<u8>,
}

impl BufferWriter {
    /// Creates an empty writer.
    pub fn new() -> (r: BufferWriter)
        ensures
            r.written() == Seq::<u8>::empty(),
    {
        BufferWriter { bytes: Vec::new() }
    }

    /// The bytes written so far.
    pub fn bytes(&self) -> (r: &Vec<u8>)
        ensures
            r@ == self.written(),
    {
        &self.bytes
    }

    /// Appends the given words to the buffer. Unlike a hardware sink, the
    /// in-memory writer never fails.
    pub fn write(&mut self, words: &[u8]) -> (r: Result<(), ()>)
        ensures
            r is Ok,
            final(self).written() == old(self).written() + words@,
    {
        self.bytes.extend_from_slice(words);
        proof {
            assert(final(self).written() =~= old(self).written() + words@);
        }
        Ok(())
    }
}

impl ClockedWriter for BufferWriter {
    type Error = ();

    closed spec fn written(&self) -> Seq<u8> {
        self.bytes@
    }

    fn write(&mut self, words: &[u8]) -> (r: Result<(), Self::Error>) {
        self.write(words)
    }
}

/// A chipset of the clocked protocol family: the three word-producing
/// operations that make up a transmission.
pub trait ClockedLed {
    /// The words that open a transmission.
    spec fn spec_start() -> Seq<u8>;

    /// The words that carry one pixel.
    spec fn spec_led(color: LinearRgb, brightness: u16, correction: ColorCorrection) -> Seq<u8>;

    /// The words that close a transmission of `pixel_count` pixels.
    spec fn spec_end(pixel_count: nat) -> Seq<u8>;

    /// Produces the words that open a transmission.
    fn start() -> (r: Vec<u8>)
        ensures
            r@ == Self::spec_start(),
    ;

    /// Produces the words that carry one pixel, with brightness and
    /// correction applied.
    fn led(color: LinearRgb, brightness: u16, correction: ColorCorrection) -> (r: Vec<u8>)
        ensures
            r@ == Self::spec_led(color, brightness, correction),
    ;

    /// Produces the words that close a transmission of `pixel_count` pixels.
    fn end(pixel_count: usize) -> (r: Vec<u8>)
        ensures
            r@ == Self::spec_end(pixel_count as nat),
    ;
}

/// The concatenated per-pixel frames of a pixel sequence, in index order.
pub open spec fn spec_led_frames<Led: ClockedLed>(
    pixels: Seq<LinearRgb>,
    brightness: u16,
    correction: ColorCorrection,
) -> Seq<u8>
    decreases pixels.len(),
{
    if pixels.len() == 0 {
        Seq::empty()
    } else {
        Led::spec_led(pixels[0], brightness, correction) + spec_led_frames::<Led>(
            pixels.skip(1),
            brightness,
            correction,
        )
    }
}

/// Appending a pixel to a sequence appends its frame to the per-pixel words.
pub proof fn lemma_led_frames_push<Led: ClockedLed>(
    pixels: Seq<LinearRgb>,
    pixel: LinearRgb,
    brightness: u16,
    correction: ColorCorrection,
)
    ensures
        spec_led_frames::<Led>(pixels.push(pixel), brightness, correction) == spec_led_frames::<
            Led,
        >(pixels, brightness, correction) + Led::spec_led(pixel, brightness, correction),
    decreases pixels.len(),
{
    if pixels.len() == 0 {
        assert(pixels.push(pixel).skip(1) =~= pixels);
        assert(spec_led_frames::<Led>(pixels, brightness, correction) =~= Seq::<u8>::empty());
        assert(spec_led_frames::<Led>(pixels.push(pixel), brightness, correction)
            =~= spec_led_frames::<Led>(pixels, brightness, correction) + Led::spec_led(
            pixel,
            brightness,
            correction,
        ));
    } else {
        lemma_led_frames_push::<Led>(pixels.skip(1), pixel, brightness, correction);
        assert(pixels.push(pixel).skip(1) =~= pixels.skip(1).push(pixel));
        assert(spec_led_frames::<Led>(pixels.push(pixel), brightness, correction)
            =~= spec_led_frames::<Led>(pixels, brightness, correction) + Led::spec_led(
            pixel,
            brightness,
            correction,
        ));
    }
}

/// The words of one full transmission: the start frame, then every pixel's
/// frame in index order, then the end frame for the pixel count.
pub open spec fn spec_clocked_frame<Led: ClockedLed>(
    pixels: Seq<LinearRgb>,
    brightness: u16,
    correction: ColorCorrection,
) -> Seq<u8> {
    Led::spec_start() + spec_led_frames::<Led>(pixels, brightness, correction) + Led::spec_end(
        pixels.len(),
    )
}

/// Assembles the full transmission for one frame of colors: start frame,
/// per-pixel frames in index order, end frame. The total length is exactly
/// the sum of the three parts.
pub fn clocked_frame<Led: ClockedLed>(
    pixels: &Vec<LinearRgb>,
    brightness: u16,
    correction: ColorCorrection,
) -> (r: Vec<u8>)
    ensures
        r@ == spec_clocked_frame::<Led>(pixels@, brightness, correction),
{
    let mut words: Vec<u8> = Led::start();
    let mut i: usize = 0;
    while i < pixels.len()
        invariant
            i <= pixels@.len(),
            words@ == Led::spec_start() + spec_led_frames::<Led>(
                pixels@.take(i as int),
                brightness,
                correction,
            ),
        decreases pixels@.len() - i,
    {
        let mut led = Led::led(pixels[i], brightness, correction);
        words.append(&mut led);
        proof {
            lemma_led_frames_push::<Led>(
                pixels@.take(i as int),
                pixels@[i as int],
                brightness,
                correction,
            );
            assert(pixels@.take(i as int).push(pixels@[i as int]) =~= pixels@.take(i + 1));
            assert(words@ =~= Led::spec_start() + spec_led_frames::<Led>(
                pixels@.take(i + 1),
                brightness,
                correction,
            ));
        }
        i = i + 1;
    }
    let mut end = Led::end(pixels.len());
    words.append(&mut end);
    proof {
        assert(pixels@.take(pixels@.len() as int) =~= pixels@);
        assert(words@ =~= spec_clocked_frame::<Led>(pixels@, brightness, correction));
    }
    words
}

/// Driver for a clocked chipset over any [`ClockedWriter`].
///
/// The pixel count is fixed at construction; a frame of any other length is
/// reported as a configuration fault before anything is written.
pub struct ClockedDriver<Led, Writer> {
    led: core::marker::PhantomData<Led>,
    writer: Writer,
    pixel_count: usize,
}

impl<Led: ClockedLed, Writer: ClockedWriter> ClockedDriver<Led, Writer> {
    /// The fixed number of pixels per frame.
    pub closed spec fn spec_pixel_count(self) -> usize {
        self.pixel_count
    }

    /// The underlying writer.
    pub closed spec fn spec_writer(self) -> Writer {
        self.writer
    }

    /// Builds a driver that owns `writer` and drives a chain of
    /// `pixel_count` pixels.
    pub fn new(writer: Writer, pixel_count: usize) -> (r: ClockedDriver<Led, Writer>)
        ensures
            r.spec_pixel_count() == pixel_count,
            r.spec_writer() == writer,
    {
        ClockedDriver { led: core::marker::PhantomData, writer, pixel_count }
    }

    /// A reference to the underlying writer.
    pub fn writer(&self) -> (r: &Writer)
        ensures
            r == self.spec_writer(),
    {
        &self.writer
    }

    /// Encodes one frame of colors and writes the full transmission to the
    /// writer: start frame, per-pixel frames, end frame.
    ///
    /// Returns the configuration fault, with nothing written, exactly when
    /// `pixels` does not hold the driver's fixed pixel count. A transmission
    /// fault is passed on as reported by the writer.
    pub fn write(&mut self, pixels: &Vec<LinearRgb>, brightness: u16, correction: ColorCorrection)
        -> (r: Result<(), DriverError<Writer::Error>>)
        ensures
            final(self).spec_pixel_count() == old(self).spec_pixel_count(),
            r matches Err(DriverError::PixelCountMismatch) <==> pixels@.len() != old(
                self,
            ).spec_pixel_count(),
            pixels@.len() != old(self).spec_pixel_count() ==> final(self).spec_writer() == old(
                self,
            ).spec_writer(),
            r is Ok ==> final(self).spec_writer().written() == old(self).spec_writer().written()
                + spec_clocked_frame::<Led>(pixels@, brightness, correction),
    {
        if pixels.len() != self.pixel_count {
            return Err(DriverError::PixelCountMismatch);
        }
        let frame = clocked_frame::<Led>(pixels, brightness, correction);
        match self.writer.write(frame.as_slice()) {
            Ok(()) => Ok(()),
            Err(e) => Err(DriverError::Io(e)),
        }
    }
}

impl<Led: ClockedLed, Writer: ClockedWriter> Driver for ClockedDriver<Led, Writer> {
    type Error = DriverError<Writer::Error>;

    type Color = LinearRgb;

    fn write(&mut self, pixels: &Vec<LinearRgb>, brightness: u16, correction: ColorCorrection)
        -> Result<(), DriverError<Writer::Error>> {
        self.write(pixels, brightness, correction)
    }
}


/// One step of the bit-banged transmission of a clocked protocol.
#[derive(Clone, Copy, Debug, PartialEq, Eq, Structural)]
pub enum ClockedAction {
    /// Drive the data line to the given level.
    SetData(bool),
    /// Hold the lines for the given number of nanoseconds.
    Delay(u32),
    /// Drive the clock line high.
    SetClockHigh,
    /// Drive the clock line low.
    SetClockLow,
}

/// The five steps that transmit one bit: data line to the bit's level, half a
/// clock cycle, clock high, half a clock cycle, clock low.
pub open spec fn spec_clocked_bit_actions(half_cycle_ns: u32, bit: bool) -> Seq<ClockedAction> {
    seq![
        ClockedAction::SetData(bit),
        ClockedAction::Delay(half_cycle_ns),
        ClockedAction::SetClockHigh,
        ClockedAction::Delay(half_cycle_ns),
        ClockedAction::SetClockLow,
    ]
}

/// The steps that transmit the first `bits` bits of a word, most significant
/// first.
pub open spec fn spec_clocked_word_prefix(half_cycle_ns: u32, word: u8, bits: nat) -> Seq<
    ClockedAction,
>
    recommends
        bits <= 8,
    decreases bits,
{
    if bits == 0 {
        Seq::empty()
    } else {
        spec_clocked_word_prefix(half_cycle_ns, word, (bits - 1) as nat) + spec_clocked_bit_actions(
            half_cycle_ns,
            word.spec_bit((8 - bits) as u32),
        )
    }
}

/// The steps that transmit a word sequence, each word most significant bit
/// first, words in order.
pub open spec fn spec_clocked_actions(half_cycle_ns: u32, words: Seq<u8>) -> Seq<ClockedAction>
    decreases words.len(),
{
    if words.len() == 0 {
        Seq::empty()
    } else {
        spec_clocked_word_prefix(half_cycle_ns, words[0], 8) + spec_clocked_actions(
            half_cycle_ns,
            words.skip(1),
        )
    }
}

/// Appending a word appends its steps.
pub proof fn lemma_clocked_actions_push(half_cycle_ns: u32, words: Seq<u8>, word: u8)
    ensures
        spec_clocked_actions(half_cycle_ns, words.push(word)) == spec_clocked_actions(
            half_cycle_ns,
            words,
        ) + spec_clocked_word_prefix(half_cycle_ns, word, 8),
    decreases words.len(),
{
    if words.len() == 0 {
        assert(words.push(word).skip(1) =~= words);
        assert(spec_clocked_actions(half_cycle_ns, words) =~= Seq::<ClockedAction>::empty());
        assert(spec_clocked_actions(half_cycle_ns, words.push(word)) =~= spec_clocked_actions(
            half_cycle_ns,
            words,
        ) + spec_clocked_word_prefix(half_cycle_ns, word, 8));
    } else {
        lemma_clocked_actions_push(half_cycle_ns, words.skip(1), word);
        assert(words.push(word).skip(1) =~= words.skip(1).push(word));
        assert(spec_clocked_actions(half_cycle_ns, words.push(word)) =~= spec_clocked_actions(
            half_cycle_ns,
            words,
        ) + spec_clocked_word_prefix(half_cycle_ns, word, 8));
    }
}

/// Half of one clock cycle, in nanoseconds, for a data rate in megahertz.
pub fn clocked_half_cycle_ns(data_rate_mhz: u32) -> (r: u32)
    requires
        data_rate_mhz >= 1,
    ensures
        r == (1000u32 / data_rate_mhz) / 2,
{
    (1000 / data_rate_mhz) / 2
}

/// Expands a word sequence into the bit-banging steps that transmit it over a
/// data line and a clock line: per bit, most significant first, the data line
/// takes the bit's level, the clock is raised after half a cycle and lowered
/// after another half.
///
/// Transmission requires a delay primitive with nanosecond-to-microsecond
/// resolution; on a coarser timer the emitted delays are shorter than the
/// timer can honor and the signal will be malformed.
pub fn clocked_signal(words: &Vec<u8>, t_half_cycle_ns: u32) -> (r: Vec<ClockedAction>)
    requires
        words@.len() * 40 <= usize::MAX,
    ensures
        r@ == spec_clocked_actions(t_half_cycle_ns, words@),
{
    let mut actions: Vec<ClockedAction> = Vec::new();
    let mut i: usize = 0;
    while i < words.len()
        invariant
            i <= words@.len(),
            actions@ == spec_clocked_actions(t_half_cycle_ns, words@.take(i as int)),
        decreases words@.len() - i,
    {
        let byte = words[i];
        let mut j: u32 = 0;
        while j < 8
            invariant
                j <= 8,
                i < words@.len(),
                byte == words@[i as int],
                actions@ == spec_clocked_actions(t_half_cycle_ns, words@.take(i as int))
                    + spec_clocked_word_prefix(t_half_cycle_ns, byte, j as nat),
            decreases 8 - j,
        {
            let bit = byte.bit_at(7 - j);
            actions.push(ClockedAction::SetData(bit));
            actions.push(ClockedAction::Delay(t_half_cycle_ns));
            actions.push(ClockedAction::SetClockHigh);
            actions.push(ClockedAction::Delay(t_half_cycle_ns));
            actions.push(ClockedAction::SetClockLow);
            proof {
                assert(8 - (j + 1) == 7 - j);
                assert(actions@ =~= spec_clocked_actions(t_half_cycle_ns, words@.take(i as int))
                    + spec_clocked_word_prefix(t_half_cycle_ns, byte, (j + 1) as nat));
            }
            j = j + 1;
        }
        proof {
            lemma_clocked_actions_push(t_half_cycle_ns, words@.take(i as int), words@[i as int]);
            assert(words@.take(i as int).push(words@[i as int]) =~= words@.take(i + 1));
        }
        i = i + 1;
    }
    proof {
        assert(words@.take(words@.len() as int) =~= words@);
    }
    actions
}

} // verus!
