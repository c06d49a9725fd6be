//! Execution core of a handheld game console emulator built around an
//! LR35902 processor: registers, memory map, interpreter, timer, pixel
//! pipeline and joypad latch.

pub mod cartridge;
pub mod cpu;
pub mod decode;
pub mod flags;
pub mod graphics;
pub mod joypad;
pub mod mmu;
pub mod execute;
pub mod registers;
pub mod system;
pub mod timer;

use vstd::prelude::*;

verus! {

/// The 16-bit word whose high byte is `hi` and low byte is `lo`.
pub open spec fn word(hi: u8, lo: u8) -> u16 {
    (hi * 256 + lo) as u16
}

/// High byte of a word.
pub open spec fn hi_byte(w: u16) -> u8 {
    (w / 256) as u8
}

/// Low byte of a word.
pub open spec fn lo_byte(w: u16) -> u8 {
    (w % 256) as u8
}

/// Whether bit `bit` of `byte` is set.
pub open spec fn bit_set(byte: u8, bit: u8) -> bool {
    (byte >> bit) & 1 == 1
}

/// Joins a high and a low byte into a word.
pub fn word_from(left: u8, right: u8) -> (r: u16)
    ensures
        r == word(left, right),
{
    (left as u16) * 256 + (right as u16)
}

/// Splits a word into its high and low bytes.
pub fn bytes_from(word: u16) -> (r: (u8, u8))
    ensures
        r.0 == hi_byte(word),
        r.1 == lo_byte(word),
        crate::word(r.0, r.1) == word,
{
    ((word / 256) as u8, (word % 256) as u8)
}

/// Reads one bit of a byte.
pub fn check_bit(byte: u8, bit: u8) -> (r: bool)
    requires
        bit < 8,
    ensures
        r == bit_set(byte, bit),
{
    (byte >> bit) & 1 == 1
}

/// Sets one bit of a byte.
pub fn set_bit(byte: &mut u8, bit: u8)
    requires
        bit < 8,
    ensures
        *final(byte) == *old(byte) | (1u8 << bit),
{
    *byte = *byte | (1u8 << bit);
}

/// Clears one bit of a byte.
pub fn unset_bit(byte: &mut u8, bit: u8)
    requires
        bit < 8,
    ensures
        *final(byte) == *old(byte) & !(1u8 << bit),
{
    *byte = *byte & !(1u8 << bit);
}

/// Flips one bit of a byte.
pub fn toggle_bit(byte: &mut u8, bit: u8)
    requires
        bit < 8,
    ensures
        *final(byte) == *old(byte) ^ (1u8 << bit),
{
    *byte = *byte ^ (1u8 << bit);
}

} // verus!
