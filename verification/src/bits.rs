//! Iteration over the individual bits of unsigned integer words.
//!
//! Timing-sensitive LED protocols transmit each data word one bit at a time,
//! most-significant bit first. This module provides the bit-level view of a
//! word that the protocol encoders are specified against, together with
//! iterator-style cursors over a word's bits in either direction.

use vstd::prelude::*;

verus! {

/// Direction in which the bits of a word are walked.
#[derive(Clone, Copy, Debug, PartialEq, Eq, Structural)]
pub enum BitOrder {
    /// Highest-numbered bit first.
    MostSignificantBit,
    /// Lowest-numbered bit first.
    LeastSignificantBit,
}

/// An unsigned integer word whose bits can be inspected one at a time.
pub trait Word: Sized + Copy {
    /// Number of bits in the word.
    spec fn spec_width() -> u32;

    /// Whether bit `i` of the word is set, with bit 0 the least significant.
    spec fn spec_bit(self, i: u32) -> bool;

    /// Number of bits in the word.
    fn width() -> (r: u32)
        ensures
            r == Self::spec_width(),
            r >= 1,
    ;

    /// Whether bit `i` of the word is set, with bit 0 the least significant.
    fn bit_at(self, i: u32) -> (r: bool)
        requires
            i < Self::spec_width(),
        ensures
            r == self.spec_bit(i),
    ;
}

impl Word for u8 {
    open spec fn spec_width() -> u32 {
        8
    }

    open spec fn spec_bit(self, i: u32) -> bool {
        (self >> i) & 1 == 1
    }

    fn width() -> (r: u32) {
        8
    }

    fn bit_at(self, i: u32) -> (r: bool) {
        (self >> i) & 1 == 1
    }
}

impl Word for u16 {
    open spec fn spec_width() -> u32 {
        16
    }

    open spec fn spec_bit(self, i: u32) -> bool {
        (self >> i) & 1 == 1
    }

    fn width() -> (r: u32) {
        16
    }

    fn bit_at(self, i: u32) -> (r: bool) {
        (self >> i) & 1 == 1
    }
}

impl Word for u32 {
    open spec fn spec_width() -> u32 {
        32
    }

    open spec fn spec_bit(self, i: u32) -> bool {
        (self >> i) & 1 == 1
    }

    fn width() -> (r: u32) {
        32
    }

    fn bit_at(self, i: u32) -> (r: bool) {
        (self >> i) & 1 == 1
    }
}

impl Word for u64 {
    open spec fn spec_width() -> u32 {
        64
    }

    open spec fn spec_bit(self, i: u32) -> bool {
        (self >> i) & 1 == 1
    }

    fn width() -> (r: u32) {
        64
    }

    fn bit_at(self, i: u32) -> (r: bool) {
        (self >> i) & 1 == 1
    }
}

impl Word for u128 {
    open spec fn spec_width() -> u32 {
        128
    }

    open spec fn spec_bit(self, i: u32) -> bool {
        (self >> i) & 1 == 1
    }

    fn width() -> (r: u32) {
        128
    }

    fn bit_at(self, i: u32) -> (r: bool) {
        (self >> i) & 1 == 1
    }
}

/// The bits of `w`, most significant first, as a sequence of booleans.
pub open spec fn spec_bits_msb<T: Word>(w: T) -> Seq<bool> {
    Seq::new(T::spec_width() as nat, |k: int| w.spec_bit((T::spec_width() - 1 - k) as u32))
}

/// The bits of `w`, least significant first, as a sequence of booleans.
pub open spec fn spec_bits_lsb<T: Word>(w: T) -> Seq<bool> {
    Seq::new(T::spec_width() as nat, |k: int| w.spec_bit(k as u32))
}

/// Cursor over the bits of a word, most significant bit first.
#[derive(Clone, Copy, Debug)]
pub struct BitsMsb<T: Word> {
    v: T,
    remaining: u32,
}

impl<T: Word> BitsMsb<T> {
    /// The bits this cursor has yet to yield, in order.
    pub closed spec fn pending(self) -> Seq<bool> {
        spec_bits_msb(self.v).skip(T::spec_width() - self.remaining)
    }

    /// Whether the cursor's position lies within the word.
    pub closed spec fn wf(self) -> bool {
        self.remaining <= T::spec_width()
    }

    /// Starts a cursor over all bits of `word`, most significant first.
    pub fn new(word: T) -> (r: BitsMsb<T>)
        ensures
            r.wf(),
            r.pending() == spec_bits_msb(word),
    {
        let r = BitsMsb { v: word, remaining: T::width() };
        proof {
            assert(r.pending() =~= spec_bits_msb(word));
        }
        r
    }

    /// Yields the next bit, or `None` once every bit has been yielded.
    pub fn next(&mut self) -> (r: Option<bool>)
        requires
            old(self).wf(),
        ensures
            final(self).wf(),
            old(self).pending().len() == 0 ==> r is None && final(self).pending() == old(self).pending(),
            old(self).pending().len() > 0 ==> r == Some(old(self).pending()[0]) && final(self).pending() == old(self).pending().skip(1),
    {
        if self.remaining == 0 {
            return None;
        }
        let bit = self.v.bit_at(self.remaining - 1);
        self.remaining = self.remaining - 1;
        proof {
            assert(final(self).pending() =~= old(self).pending().skip(1));
        }
        Some(bit)
    }

    /// How many bits are still pending.
    pub fn len(&self) -> (r: usize)
        requires
            self.wf(),
        ensures
            r == self.pending().len(),
    {
        self.remaining as usize
    }
}

/// Cursor over the bits of a word, least significant bit first.
#[derive(Clone, Copy, Debug)]
pub struct BitsLsb<T: Word> {
    v: T,
    position: u32,
}

impl<T: Word> BitsLsb<T> {
    /// The bits this cursor has yet to yield, in order.
    pub closed spec fn pending(self) -> Seq<bool> {
        spec_bits_lsb(self.v).skip(self.position as int)
    }

    /// Whether the cursor's position lies within the word.
    pub closed spec fn wf(self) -> bool {
        self.position <= T::spec_width()
    }

    /// Starts a cursor over all bits of `word`, least significant first.
    pub fn new(word: T) -> (r: BitsLsb<T>)
        ensures
            r.wf(),
            r.pending() == spec_bits_lsb(word),
    {
        let r = BitsLsb { v: word, position: 0 };
        proof {
            assert(r.pending() =~= spec_bits_lsb(word));
        }
        r
    }

    /// Yields the next bit, or `None` once every bit has been yielded.
    pub fn next(&mut self) -> (r: Option<bool>)
        requires
            old(self).wf(),
        ensures
            final(self).wf(),
            old(self).pending().len() == 0 ==> r is None && final(self).pending() == old(self).pending(),
            old(self).pending().len() > 0 ==> r == Some(old(self).pending()[0]) && final(self).pending() == old(self).pending().skip(1),
    {
        if self.position == T::width() {
            return None;
        }
        let bit = self.v.bit_at(self.position);
        self.position = self.position + 1;
        proof {
            assert(final(self).pending() =~= old(self).pending().skip(1));
        }
        Some(bit)
    }

    /// How many bits are still pending.
    pub fn len(&self) -> (r: usize)
        requires
            self.wf(),
        ensures
            r == self.pending().len(),
    {
        (T::width() - self.position) as usize
    }
}

/// Cursor over the bits of a word in either direction.
#[derive(Clone, Copy, Debug)]
pub enum Bits<T: Word> {
    /// Most significant bit first.
    Msb(BitsMsb<T>),
    /// Least significant bit first.
    Lsb(BitsLsb<T>),
}

impl<T: Word> Bits<T> {
    /// The bits this cursor has yet to yield, in order.
    pub open spec fn pending(self) -> Seq<bool> {
        match self {
            Bits::Msb(it) => it.pending(),
            Bits::Lsb(it) => it.pending(),
        }
    }

    /// Whether the cursor's position lies within the word.
    pub open spec fn wf(self) -> bool {
        match self {
            Bits::Msb(it) => it.wf(),
            Bits::Lsb(it) => it.wf(),
        }
    }

    /// Yields the next bit, or `None` once every bit has been yielded.
    pub fn next(&mut self) -> (r: Option<bool>)
        requires
            old(self).wf(),
        ensures
            final(self).wf(),
            old(self).pending().len() == 0 ==> r is None && final(self).pending() == old(self).pending(),
            old(self).pending().len() > 0 ==> r == Some(old(self).pending()[0]) && final(self).pending() == old(self).pending().skip(1),
    {
        match self {
            Bits::Msb(it) => it.next(),
            Bits::Lsb(it) => it.next(),
        }
    }

    /// How many bits are still pending.
    pub fn len(&self) -> (r: usize)
        requires
            self.wf(),
        ensures
            r == self.pending().len(),
    {
        match self {
            Bits::Msb(it) => it.len(),
            Bits::Lsb(it) => it.len(),
        }
    }
}

/// Starts a cursor over the bits of `word` in the given order.
pub fn bits_of<T: Word>(word: &T, order: BitOrder) -> (r: Bits<T>)
    ensures
        r.wf(),
        order == BitOrder::MostSignificantBit ==> r.pending() == spec_bits_msb(*word),
        order == BitOrder::LeastSignificantBit ==> r.pending() == spec_bits_lsb(*word),
{
    match order {
        BitOrder::MostSignificantBit => Bits::Msb(BitsMsb::new(*word)),
        BitOrder::LeastSignificantBit => Bits::Lsb(BitsLsb::new(*word)),
    }
}

/// Starts a cursor over the bits of `word`, most significant first.
pub fn bits_of_msb<T: Word>(word: T) -> (r: BitsMsb<T>)
    ensures
        r.wf(),
        r.pending() == spec_bits_msb(word),
{
    BitsMsb::new(word)
}

/// Starts a cursor over the bits of `word`, least significant first.
pub fn bits_of_lsb<T: Word>(word: T) -> (r: BitsLsb<T>)
    ensures
        r.wf(),
        r.pending() == spec_bits_lsb(word),
{
    BitsLsb::new(word)
}

} // verus!
