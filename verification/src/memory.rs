//! Byte-addressed backing stores that sit behind the memory bus.

use vstd::prelude::*;

verus! {

/// Combines a low and a high byte into a little-endian 16-bit word.
#[verifier::opaque]
pub open spec fn word_of(low: u8, high: u8) -> u16 {
    (low as int + 256 * (high as int)) as u16
}

/// The low byte of a 16-bit word.
#[verifier::opaque]
pub open spec fn low_byte(word: u16) -> u8 {
    (word as int % 256) as u8
}

/// The high byte of a 16-bit word.
#[verifier::opaque]
pub open spec fn high_byte(word: u16) -> u8 {
    (word as int / 256) as u8
}

/// Executable form of [`word_of`].
pub fn make_word(low: u8, high: u8) -> (word: u16)
    ensures
        word == word_of(low, high),
{
    reveal(word_of);
    (low as u16) + 256 * (high as u16)
}

/// Executable form of [`low_byte`].
pub fn word_low(word: u16) -> (low: u8)
    ensures
        low == low_byte(word),
{
    reveal(low_byte);
    (word % 256) as u8
}

/// Executable form of [`high_byte`].
pub fn word_high(word: u16) -> (high: u8)
    ensures
        high == high_byte(word),
{
    reveal(high_byte);
    (word / 256) as u8
}

/// A block of `SIZE` bytes that answers for the bus addresses from `BASE`
/// to `BASE + SIZE - 1`.
pub struct Memory<const BASE: u16, const SIZE: usize> {
    bytes: [u8; SIZE],
}

/// Video memory.
pub type VRAM = Memory<0x8000, 0x2000>;

/// Work memory.
pub type WRAM = Memory<0xC000, 0x2000>;

/// Object attribute memory.
pub type OAM = Memory<0xFE00, 0xA0>;

/// High memory.
pub type HRAM = Memory<0xFF80, 0x7F>;

impl<const BASE: u16, const SIZE: usize> Memory<BASE, SIZE> {
    /// The stored bytes; index 0 is the byte at `BASE`.
    pub closed spec fn view(&self) -> Seq<u8> {
        self.bytes@
    }

    /// Whether `address` falls inside the block.
    pub open spec fn contains(address: int) -> bool {
        BASE <= address < BASE + SIZE
    }

    /// The block holds `SIZE` bytes.
    pub proof fn lemma_size(&self)
        ensures
            self@.len() == SIZE,
    {
    }

    /// Creates a zero-filled block.
    pub fn new() -> (memory: Self)
        ensures
            memory@ == Seq::new(SIZE as nat, |i: int| 0u8),
    {
        let memory = Memory { bytes: [0u8; SIZE] };
        assert(memory.bytes@ =~= Seq::new(SIZE as nat, |i: int| 0u8));
        memory
    }

    /// Reads the byte stored for `address`.
    pub fn read_byte(&self, address: u16) -> (value: u8)
        requires
            Self::contains(address as int),
        ensures
            value == self@[address - BASE],
    {
        self.bytes[(address - BASE) as usize]
    }

    /// Stores `value` for `address`, leaving every other byte as it was.
    pub fn write_byte(&mut self, address: u16, value: u8)
        requires
            Self::contains(address as int),
        ensures
            final(self)@ == old(self)@.update(address - BASE, value),
    {
        let offset: usize = (address - BASE) as usize;
        self.bytes[offset] = value;
    }

    /// Reads the little-endian word whose low byte is stored for `address`.
    pub fn read_word(&self, address: u16) -> (value: u16)
        requires
            Self::contains(address as int),
            Self::contains(address + 1),
        ensures
            value == word_of(self@[address - BASE], self@[address - BASE + 1]),
    {
        let offset: usize = (address - BASE) as usize;
        make_word(self.bytes[offset], self.bytes[offset + 1])
    }

    /// Stores `value` little-endian: low byte for `address`, high byte for
    /// the address after it.
    pub fn write_word(&mut self, address: u16, value: u16)
        requires
            Self::contains(address as int),
            Self::contains(address + 1),
        ensures
            final(self)@ == old(self)@.update(address - BASE, low_byte(value)).update(
                address - BASE + 1,
                high_byte(value),
            ),
    {
        let offset: usize = (address - BASE) as usize;
        self.bytes[offset] = word_low(value);
        self.bytes[offset + 1] = word_high(value);
    }
}

/// Splitting a word into its bytes and joining them again gives the word
/// back, and the other way round.
pub proof fn lemma_word_bytes(word: u16, low: u8, high: u8)
    ensures
        word_of(low_byte(word), high_byte(word)) == word,
        low_byte(word_of(low, high)) == low,
        high_byte(word_of(low, high)) == high,
{
    reveal(word_of);
    reveal(low_byte);
    reveal(high_byte);
}

} // verus!
