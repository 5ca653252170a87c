//! Hardware pulse-code backend for clockless chipsets.
//!
//! A pulse-generation peripheral removes the software thread from the
//! timing-critical path: instead of toggling a pin under a delay timer, the
//! driver precomputes one pulse code per bit value (and one for the reset
//! hold) from the chipset's timing constants and the peripheral's clock rate,
//! maps every encoded bit to its code, and hands the codes to the peripheral
//! in buffer-sized transactions.
//!
//! A pulse code packs two timed line levels into one 32-bit word: bits 0 to
//! 14 the first duration in peripheral clock ticks, bit 15 the first level,
//! bits 16 to 30 the second duration, bit 31 the second level. A code of all
//! zero bits marks the end of a transaction's buffer.

use vstd::prelude::*;

use crate::bits::Word;
use crate::clockless::{ClocklessLed, ProtocolTiming};

verus! {

/// Largest duration, in peripheral clock ticks, that one half of a pulse code
/// can hold.
pub const PULSE_TICKS_LIMIT: u16 = 0x7FFF;

/// The pulse code for two timed line levels: `level1` held for `ticks1`
/// peripheral clock ticks, then `level2` held for `ticks2`.
pub open spec fn spec_pulse_code(level1: bool, ticks1: u16, level2: bool, ticks2: u16) -> u32 {
    ((ticks1 as int) + (if level1 {
        0x8000int
    } else {
        0int
    }) + (ticks2 as int) * 0x10000 + (if level2 {
        0x80000000int
    } else {
        0int
    })) as u32
}

/// Packs two timed line levels into a pulse code.
pub fn pulse_code(level1: bool, ticks1: u16, level2: bool, ticks2: u16) -> (r: u32)
    requires
        ticks1 <= PULSE_TICKS_LIMIT,
        ticks2 <= PULSE_TICKS_LIMIT,
    ensures
        r == spec_pulse_code(level1, ticks1, level2, ticks2),
{
    (ticks1 as u32) + (if level1 {
        0x8000u32
    } else {
        0u32
    }) + (ticks2 as u32) * 0x10000 + (if level2 {
        0x80000000u32
    } else {
        0u32
    })
}

/// The three precomputed pulse codes of a clockless chipset on a pulse
/// peripheral: one per bit value, one for the reset hold.
#[derive(Clone, Copy, Debug, PartialEq, Eq, Structural)]
pub struct RmtPulses {
    /// Code transmitting a `0` bit: high for the `0`-bit high duration, low
    /// for the `0`-bit low duration.
    pub zero: u32,
    /// Code transmitting a `1` bit.
    pub one: u32,
    /// Code holding the line low for the reset duration.
    pub reset: u32,
}

/// Faults of the pulse-code backend.
#[derive(Clone, Copy, Debug, PartialEq, Eq, Structural)]
pub enum ClocklessRmtDriverError {
    /// Capacity fault: the encoded frame does not fit the configured
    /// peripheral buffer. Reported before anything is handed to the
    /// peripheral; no partial frame is transmitted.
    BufferSizeExceeded,
    /// Configuration fault: a timing constant of the chipset, converted to
    /// peripheral clock ticks, is zero or does not fit a pulse code's
    /// duration field.
    InvalidTiming,
}

/// A duration in nanoseconds converted to peripheral clock ticks at
/// `clock_mhz` megahertz.
pub open spec fn spec_ticks(duration_ns: u32, clock_mhz: u32) -> int {
    (duration_ns * clock_mhz) / 1000
}

/// Whether a duration is representable as a nonzero pulse-code duration at
/// this clock rate.
pub open spec fn spec_ticks_ok(duration_ns: u32, clock_mhz: u32) -> bool {
    1 <= spec_ticks(duration_ns, clock_mhz) <= PULSE_TICKS_LIMIT
}

/// Converts a duration to peripheral clock ticks, reporting the configuration
/// fault exactly when the result is zero or too large for a pulse code.
fn duration_ticks(duration_ns: u32, clock_mhz: u32) -> (r: Result<u16, ClocklessRmtDriverError>)
    ensures
        r is Ok <==> spec_ticks_ok(duration_ns, clock_mhz),
        r matches Ok(t) ==> t == spec_ticks(duration_ns, clock_mhz),
        r is Err ==> r == Result::<u16, ClocklessRmtDriverError>::Err(
            ClocklessRmtDriverError::InvalidTiming,
        ),
{
    proof {
        assert(duration_ns * clock_mhz <= 0xFFFF_FFFFu64 * 0xFFFF_FFFFu64) by (nonlinear_arith)
            requires
                0 <= duration_ns <= 0xFFFF_FFFFu64,
                0 <= clock_mhz <= 0xFFFF_FFFFu64,
        ;
    }
    let wide: u64 = (duration_ns as u64) * (clock_mhz as u64);
    let ticks: u64 = wide / 1000;
    if ticks == 0 || ticks > PULSE_TICKS_LIMIT as u64 {
        Err(ClocklessRmtDriverError::InvalidTiming)
    } else {
        Ok(ticks as u16)
    }
}

/// The precomputed pulse codes for a timing at a peripheral clock rate.
pub open spec fn spec_rmt_pulses(timing: ProtocolTiming, clock_mhz: u32) -> RmtPulses {
    RmtPulses {
        zero: spec_pulse_code(
            true,
            spec_ticks(timing.t_0h, clock_mhz) as u16,
            false,
            spec_ticks(timing.t_0l, clock_mhz) as u16,
        ),
        one: spec_pulse_code(
            true,
            spec_ticks(timing.t_1h, clock_mhz) as u16,
            false,
            spec_ticks(timing.t_1l, clock_mhz) as u16,
        ),
        reset: spec_pulse_code(false, spec_ticks(timing.t_reset, clock_mhz) as u16, false, 0),
    }
}

/// Whether every duration of a timing is representable at a clock rate.
pub open spec fn spec_timing_ok(timing: ProtocolTiming, clock_mhz: u32) -> bool {
    spec_ticks_ok(timing.t_0h, clock_mhz) && spec_ticks_ok(timing.t_0l, clock_mhz) && spec_ticks_ok(
        timing.t_1h,
        clock_mhz,
    ) && spec_ticks_ok(timing.t_1l, clock_mhz) && spec_ticks_ok(timing.t_reset, clock_mhz)
}

/// Computes the three pulse codes of a timing at a peripheral clock rate,
/// reporting the configuration fault exactly when some duration is zero or
/// too large in ticks.
pub fn setup_pulses(timing: ProtocolTiming, clock_mhz: u32) -> (r: Result<
    RmtPulses,
    ClocklessRmtDriverError,
>)
    ensures
        r is Ok <==> spec_timing_ok(timing, clock_mhz),
        r matches Ok(p) ==> p == spec_rmt_pulses(timing, clock_mhz),
        r is Err ==> r == Result::<RmtPulses, ClocklessRmtDriverError>::Err(
            ClocklessRmtDriverError::InvalidTiming,
        ),
{
    let t_0h = duration_ticks(timing.t_0h, clock_mhz)?;
    let t_0l = duration_ticks(timing.t_0l, clock_mhz)?;
    let t_1h = duration_ticks(timing.t_1h, clock_mhz)?;
    let t_1l = duration_ticks(timing.t_1l, clock_mhz)?;
    let t_reset = duration_ticks(timing.t_reset, clock_mhz)?;
    Ok(
        RmtPulses {
            zero: pulse_code(true, t_0h, false, t_0l),
            one: pulse_code(true, t_1h, false, t_1l),
            reset: pulse_code(false, t_reset, false, 0),
        },
    )
}

/// The pulse codes that transmit a byte frame: eight codes per byte, most
/// significant bit first, then the reset code.
pub open spec fn spec_rmt_codes(pulses: RmtPulses, frame: Seq<u8>) -> Seq<u32> {
    Seq::new(
        frame.len() * 8,
        |k: int|
            if frame[k / 8].spec_bit((7 - (k % 8)) as u32) {
                pulses.one
            } else {
                pulses.zero
            },
    ) + seq![pulses.reset]
}

/// Maps a byte frame to its pulse codes: eight codes per byte, most
/// significant bit first, then the reset code.
fn rmt_codes(pulses: RmtPulses, frame: &Vec<u8>) -> (r: Vec<u32>)
    requires
        frame@.len() * 8 <= usize::MAX - 1,
    ensures
        r@ == spec_rmt_codes(pulses, frame@),
        r@.len() == frame@.len() * 8 + 1,
{
    let mut codes: Vec<u32> = Vec::new();
    let mut i: usize = 0;
    while i < frame.len()
        invariant
            i <= frame@.len(),
            frame@.len() * 8 <= usize::MAX - 1,
            codes@.len() == i * 8,
            forall|k: int|
                0 <= k < i * 8 ==> codes@[k] == (if frame@[k / 8].spec_bit((7 - (k % 8)) as u32) {
                    pulses.one
                } else {
                    pulses.zero
                }),
        decreases frame@.len() - i,
    {
        let byte = frame[i];
        let mut j: u32 = 0;
        while j < 8
            invariant
                j <= 8,
                i < frame@.len(),
                frame@.len() * 8 <= usize::MAX - 1,
                byte == frame@[i as int],
                codes@.len() == i * 8 + j,
                forall|k: int|
                    0 <= k < i * 8 + j ==> codes@[k] == (if frame@[k / 8].spec_bit(
                        (7 - (k % 8)) as u32,
                    ) {
                        pulses.one
                    } else {
                        pulses.zero
                    }),
            decreases 8 - j,
        {
            let bit = byte.bit_at(7 - j);
            codes.push(
                if bit {
                    pulses.one
                } else {
                    pulses.zero
                },
            );
            proof {
                let k = i * 8 + j;
                assert(k / 8 == i as int && k % 8 == j as int) by (nonlinear_arith)
                    requires
                        0 <= j < 8,
                        0 <= i,
                        k == i * 8 + j,
                ;
            }
            j = j + 1;
        }
        i = i + 1;
    }
    codes.push(pulses.reset);
    proof {
        assert(codes@ =~= spec_rmt_codes(pulses, frame@));
    }
    codes
}


/// The data codes carried by a sequence of transaction buffers: every buffer
/// minus its terminator, in order.
pub open spec fn spec_chunks_payload(chunks: Seq<Vec<u32>>) -> Seq<u32>
    decreases chunks.len(),
{
    if chunks.len() == 0 {
        Seq::empty()
    } else {
        chunks[0]@.drop_last() + spec_chunks_payload(chunks.skip(1))
    }
}

/// Appending a buffer appends its payload.
pub proof fn lemma_chunks_payload_push(chunks: Seq<Vec<u32>>, chunk: Vec<u32>)
    ensures
        spec_chunks_payload(chunks.push(chunk)) == spec_chunks_payload(chunks) + chunk@.drop_last(),
    decreases chunks.len(),
{
    if chunks.len() == 0 {
        assert(chunks.push(chunk).skip(1) =~= chunks);
        assert(spec_chunks_payload(chunks) =~= Seq::<u32>::empty());
        assert(spec_chunks_payload(chunks.push(chunk)) =~= spec_chunks_payload(chunks)
            + chunk@.drop_last());
    } else {
        lemma_chunks_payload_push(chunks.skip(1), chunk);
        assert(chunks.push(chunk).skip(1) =~= chunks.skip(1).push(chunk));
        assert(spec_chunks_payload(chunks.push(chunk)) =~= spec_chunks_payload(chunks)
            + chunk@.drop_last());
    }
}

/// Driver state for a clockless chipset on a pulse-code peripheral: the three
/// precomputed codes and the size of the peripheral's transaction buffer.
pub struct ClocklessRmtDriver<Led> {
    led: core::marker::PhantomData<Led>,
    pulses: RmtPulses,
    rmt_buffer_size: usize,
}

impl<Led> ClocklessRmtDriver<Led> {
    /// A transaction buffer always has room for one code and the terminator.
    #[verifier::type_invariant]
    closed spec fn type_wf(self) -> bool {
        self.rmt_buffer_size >= 2
    }
}

impl<Led: ClocklessLed> ClocklessRmtDriver<Led> {
    /// The precomputed pulse codes.
    pub closed spec fn spec_pulses(self) -> RmtPulses {
        self.pulses
    }

    /// The configured transaction buffer size, in codes.
    pub closed spec fn spec_rmt_buffer_size(self) -> usize {
        self.rmt_buffer_size
    }

    /// Builds the driver for a peripheral clocked at `clock_mhz`, with a
    /// transaction buffer of `rmt_buffer_size` codes.
    ///
    /// Reports the capacity fault when the buffer cannot hold even one code
    /// plus the terminator, and the configuration fault when some timing
    /// duration of the chipset is zero or too large in peripheral ticks; both
    /// are surfaced here, at construction, not at write time.
    pub fn new(clock_mhz: u32, rmt_buffer_size: usize) -> (r: Result<
        ClocklessRmtDriver<Led>,
        ClocklessRmtDriverError,
    >)
        ensures
            r is Ok <==> rmt_buffer_size >= 2 && spec_timing_ok(Led::spec_timing(), clock_mhz),
            r matches Ok(d) ==> d.spec_pulses() == spec_rmt_pulses(Led::spec_timing(), clock_mhz)
                && d.spec_rmt_buffer_size() == rmt_buffer_size,
            rmt_buffer_size < 2 ==> r == Result::<
                ClocklessRmtDriver<Led>,
                ClocklessRmtDriverError,
            >::Err(ClocklessRmtDriverError::BufferSizeExceeded),
            rmt_buffer_size >= 2 && !spec_timing_ok(Led::spec_timing(), clock_mhz) ==> r
                == Result::<ClocklessRmtDriver<Led>, ClocklessRmtDriverError>::Err(
                ClocklessRmtDriverError::InvalidTiming,
            ),
    {
        if rmt_buffer_size < 2 {
            return Err(ClocklessRmtDriverError::BufferSizeExceeded);
        }
        let timing = Led::timing();
        let pulses = setup_pulses(timing, clock_mhz)?;
        Ok(ClocklessRmtDriver { led: core::marker::PhantomData, pulses, rmt_buffer_size })
    }

    /// Encodes a byte frame into one transaction buffer: the data codes, the
    /// reset code, and the terminator.
    ///
    /// Reports the capacity fault, with nothing encoded, exactly when the
    /// codes do not fit the configured buffer, so no partial frame ever
    /// reaches the peripheral.
    pub fn encode(&self, frame: &Vec<u8>) -> (r: Result<Vec<u32>, ClocklessRmtDriverError>)
        requires
            frame@.len() * 8 <= usize::MAX - 2,
        ensures
            r is Ok <==> frame@.len() * 8 + 2 <= self.spec_rmt_buffer_size(),
            r is Err ==> r == Result::<Vec<u32>, ClocklessRmtDriverError>::Err(
                ClocklessRmtDriverError::BufferSizeExceeded,
            ),
            r matches Ok(buffer) ==> buffer@ == spec_rmt_codes(self.spec_pulses(), frame@)
                + seq![0u32] && buffer@.len() <= self.spec_rmt_buffer_size(),
    {
        proof {
            use_type_invariant(self);
        }
        if frame.len() > (self.rmt_buffer_size - 2) / 8 {
            proof {
                assert(frame@.len() * 8 + 2 > self.rmt_buffer_size) by (nonlinear_arith)
                    requires
                        frame@.len() > ((self.rmt_buffer_size - 2) as int) / 8,
                        self.rmt_buffer_size >= 0,
                ;
            }
            return Err(ClocklessRmtDriverError::BufferSizeExceeded);
        }
        proof {
            assert(frame@.len() * 8 + 2 <= self.rmt_buffer_size) by (nonlinear_arith)
                requires
                    frame@.len() <= ((self.rmt_buffer_size - 2) as int) / 8,
                    self.rmt_buffer_size >= 2,
            ;
        }
        let mut buffer = rmt_codes(self.pulses, frame);
        buffer.push(0u32);
        proof {
            assert(buffer@ =~= spec_rmt_codes(self.spec_pulses(), frame@) + seq![0u32]);
        }
        Ok(buffer)
    }

    /// Encodes a byte frame into as many transaction buffers as it needs:
    /// the data codes followed by the reset code, cut into pieces of the
    /// buffer size less one, each closed by the terminator.
    ///
    /// Every buffer before the last is filled to the configured size: keeping
    /// the buffers maximal keeps the transaction boundaries, and with them the
    /// gaps on the line, as few as the buffer allows. Transmitting the buffers
    /// in order as separate peripheral transactions transmits exactly the
    /// encoded frame: no piece is issued before the previous transaction
    /// completed, and nothing is truncated or padded.
    pub fn encode_chunks(&self, frame: &Vec<u8>) -> (r: Vec<Vec<u32>>)
        requires
            frame@.len() * 8 <= usize::MAX - 2,
        ensures
            spec_chunks_payload(r@) == spec_rmt_codes(self.spec_pulses(), frame@),
            forall|i: int|
                0 <= i < r@.len() ==> (#[trigger] r@[i])@.len() <= self.spec_rmt_buffer_size()
                    && r@[i]@.len() >= 2 && r@[i]@.last() == 0,
            forall|i: int|
                0 <= i < r@.len() - 1 ==> (#[trigger] r@[i])@.len()
                    == self.spec_rmt_buffer_size(),
    {
        proof {
            use_type_invariant(self);
        }
        let codes = rmt_codes(self.pulses, frame);
        let cap = self.rmt_buffer_size - 1;
        let mut chunks: Vec<Vec<u32>> = Vec::new();
        let mut pos: usize = 0;
        while pos < codes.len()
            invariant
                pos <= codes@.len(),
                cap >= 1,
                cap + 1 == self.spec_rmt_buffer_size(),
                spec_chunks_payload(chunks@) == codes@.take(pos as int),
                forall|i: int|
                    0 <= i < chunks@.len() ==> (#[trigger] chunks@[i])@.len()
                        <= self.spec_rmt_buffer_size() && chunks@[i]@.len() >= 2
                        && chunks@[i]@.last() == 0,
                forall|i: int|
                    0 <= i < chunks@.len() - 1 ==> (#[trigger] chunks@[i])@.len()
                        == self.spec_rmt_buffer_size(),
                chunks@.len() > 0 && pos < codes@.len() ==> chunks@[chunks@.len() - 1]@.len()
                    == self.spec_rmt_buffer_size(),
            decreases codes@.len() - pos,
        {
            let take = if codes.len() - pos < cap {
                codes.len() - pos
            } else {
                cap
            };
            let mut chunk: Vec<u32> = Vec::new();
            let mut j: usize = 0;
            while j < take
                invariant
                    j <= take,
                    pos + take <= codes@.len(),
                    codes@.len() <= usize::MAX,
                    chunk@ == codes@.subrange(pos as int, pos + j),
                decreases take - j,
            {
                proof {
                    assert(pos + j < codes@.len());
                }
                chunk.push(codes[pos + j]);
                proof {
                    assert(chunk@ =~= codes@.subrange(pos as int, pos + j + 1));
                }
                j = j + 1;
            }
            chunk.push(0u32);
            proof {
                assert(chunk@.drop_last() =~= codes@.subrange(pos as int, pos + take));
                lemma_chunks_payload_push(chunks@, chunk);
                assert(codes@.take(pos as int) + codes@.subrange(pos as int, pos + take)
                    =~= codes@.take(pos + take));
            }
            chunks.push(chunk);
            pos = pos + take;
        }
        proof {
            assert(codes@.take(pos as int) =~= codes@);
        }
        chunks
    }
}

/// Builder for a [`ClocklessRmtDriver`]: picks the chipset and the
/// peripheral's transaction buffer size, then builds the driver for a clock
/// rate.
pub struct ClocklessRmt<Led> {
    led: core::marker::PhantomData<Led>,
    rmt_buffer_size: usize,
}

impl ClocklessRmt<()> {
    /// Starts a builder with no chipset chosen and an unset buffer size.
    pub fn new() -> (r: ClocklessRmt<()>)
        ensures
            r.spec_rmt_buffer_size() == 0,
    {
        ClocklessRmt { led: core::marker::PhantomData, rmt_buffer_size: 0 }
    }
}

impl<Led> ClocklessRmt<Led> {
    /// The chosen transaction buffer size, in codes.
    pub closed spec fn spec_rmt_buffer_size(self) -> usize {
        self.rmt_buffer_size
    }

    /// Sets the peripheral's transaction buffer size, in codes.
    pub fn with_rmt_buffer_size(self, rmt_buffer_size: usize) -> (r: ClocklessRmt<Led>)
        ensures
            r.spec_rmt_buffer_size() == rmt_buffer_size,
    {
        ClocklessRmt { led: self.led, rmt_buffer_size }
    }

    /// Chooses the chipset the driver will speak to.
    pub fn with_led<NewLed>(self) -> (r: ClocklessRmt<NewLed>)
        ensures
            r.spec_rmt_buffer_size() == self.spec_rmt_buffer_size(),
    {
        ClocklessRmt { led: core::marker::PhantomData, rmt_buffer_size: self.rmt_buffer_size }
    }
}

impl<Led: ClocklessLed> ClocklessRmt<Led> {
    /// Builds the driver for a peripheral clocked at `clock_mhz`, reporting
    /// capacity and configuration faults as [`ClocklessRmtDriver::new`] does.
    pub fn build(self, clock_mhz: u32) -> (r: Result<
        ClocklessRmtDriver<Led>,
        ClocklessRmtDriverError,
    >)
        ensures
            r is Ok <==> self.spec_rmt_buffer_size() >= 2 && spec_timing_ok(
                Led::spec_timing(),
                clock_mhz,
            ),
            r matches Ok(d) ==> d.spec_pulses() == spec_rmt_pulses(Led::spec_timing(), clock_mhz)
                && d.spec_rmt_buffer_size() == self.spec_rmt_buffer_size(),
    {
        ClocklessRmtDriver::<Led>::new(clock_mhz, self.rmt_buffer_size)
    }
}

} // verus!
