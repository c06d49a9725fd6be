use vstd::prelude::*;
use crate::flags::Flags;
use crate::{bytes_from, word_from, word, hi_byte, lo_byte};

verus! {

/// An 8-bit operand: one of the seven byte registers, or the memory byte
/// addressed by HL.
#[derive(Clone, Copy, PartialEq, Eq, Structural, Debug)]
pub enum R8 {
    A,
    B,
    C,
    D,
    E,
    H,
    L,
    HLRam,
}

/// The 8-bit operand that a 3-bit field of an opcode names:
/// B, C, D, E, H, L, (HL), A in that order.
pub open spec fn r8_of(index: u8) -> R8 {
    if index == 0 {
        R8::B
    } else if index == 1 {
        R8::C
    } else if index == 2 {
        R8::D
    } else if index == 3 {
        R8::E
    } else if index == 4 {
        R8::H
    } else if index == 5 {
        R8::L
    } else if index == 6 {
        R8::HLRam
    } else {
        R8::A
    }
}

impl R8 {
    /// Decodes the 3-bit operand field of an opcode.
    pub fn from_spec(index: u8) -> (r: Self)
        requires
            index < 8,
        ensures
            r == r8_of(index),
    {
        match index {
            0 => Self::B,
            1 => Self::C,
            2 => Self::D,
            3 => Self::E,
            4 => Self::H,
            5 => Self::L,
            6 => Self::HLRam,
            _ => Self::A,
        }
    }
}

/// A 16-bit register or register pair.
#[derive(Clone, Copy, PartialEq, Eq, Structural, Debug)]
pub enum R16 {
    AF,
    BC,
    DE,
    HL,
    SP,
    PC,
}

/// The pair that the 2-bit field in bits 5-4 of an opcode names:
/// BC, DE, HL, SP in that order.
pub open spec fn r16_of(index: u8) -> R16 {
    if index == 0 {
        R16::BC
    } else if index == 1 {
        R16::DE
    } else if index == 2 {
        R16::HL
    } else {
        R16::SP
    }
}

impl R16 {
    /// Decodes the 2-bit register-pair field of an opcode.
    pub fn from_spec(index: u8) -> (r: Self)
        requires
            index < 4,
        ensures
            r == r16_of(index),
    {
        match index {
            0 => Self::BC,
            1 => Self::DE,
            2 => Self::HL,
            _ => Self::SP,
        }
    }
}

/// The register file.
#[derive(Clone, Copy, PartialEq, Eq, Structural)]
pub struct Registers {
    pub a: u8,
    pub f: Flags,
    pub b: u8,
    pub c: u8,
    pub d: u8,
    pub e: u8,
    pub h: u8,
    pub l: u8,
    pub pc: u16,
    pub sp: u16,
}

impl Registers {
    /// The register file at power-on.
    pub open spec fn initial() -> Registers {
        Registers {
            a: 0,
            f: Flags::none(),
            b: 0,
            c: 0,
            d: 0,
            e: 0,
            h: 0,
            l: 0,
            pc: 0,
            sp: 0xFFFE,
        }
    }

    pub open spec fn spec_af(self) -> u16 {
        word(self.a, self.f.byte())
    }

    pub open spec fn spec_bc(self) -> u16 {
        word(self.b, self.c)
    }

    pub open spec fn spec_de(self) -> u16 {
        word(self.d, self.e)
    }

    pub open spec fn spec_hl(self) -> u16 {
        word(self.h, self.l)
    }

    /// The registers with AF loaded from a word; the low nibble of F is dropped.
    pub open spec fn with_af(self, w: u16) -> Registers {
        Registers { a: hi_byte(w), f: Flags::of_byte(lo_byte(w)), ..self }
    }

    pub open spec fn with_bc(self, w: u16) -> Registers {
        Registers { b: hi_byte(w), c: lo_byte(w), ..self }
    }

    pub open spec fn with_de(self, w: u16) -> Registers {
        Registers { d: hi_byte(w), e: lo_byte(w), ..self }
    }

    pub open spec fn with_hl(self, w: u16) -> Registers {
        Registers { h: hi_byte(w), l: lo_byte(w), ..self }
    }

    pub fn new() -> (r: Self)
        ensures
            r == Registers::initial(),
    {
        let f = Flags { zero: false, sub: false, carry: false, half_carry: false };
        Registers { a: 0, f, b: 0, c: 0, d: 0, e: 0, h: 0, l: 0, pc: 0, sp: 0xFFFE }
    }

    /// Back to the power-on values.
    pub fn reset(&mut self)
        ensures
            *final(self) == Registers::initial(),
    {
        self.a = 0;
        self.f.clear();
        self.set_bc(0);
        self.set_de(0);
        self.set_hl(0);
        self.pc = 0;
        self.sp = 0xFFFE;
    }

    pub fn af(&self) -> (r: u16)
        ensures
            r == self.spec_af(),
    {
        word_from(self.a, self.f.as_u8())
    }

    pub fn bc(&self) -> (r: u16)
        ensures
            r == self.spec_bc(),
    {
        word_from(self.b, self.c)
    }

    pub fn de(&self) -> (r: u16)
        ensures
            r == self.spec_de(),
    {
        word_from(self.d, self.e)
    }

    pub fn hl(&self) -> (r: u16)
        ensures
            r == self.spec_hl(),
    {
        word_from(self.h, self.l)
    }

    pub fn set_af(&mut self, word: u16)
        ensures
            *final(self) == old(self).with_af(word),
    {
        let (a, f) = bytes_from(word);
        self.a = a;
        self.f.set_from_u8(f);
    }

    pub fn set_bc(&mut self, word: u16)
        ensures
            *final(self) == old(self).with_bc(word),
    {
        let (b, c) = bytes_from(word);
        self.b = b;
        self.c = c;
    }

    pub fn set_de(&mut self, word: u16)
        ensures
            *final(self) == old(self).with_de(word),
    {
        let (d, e) = bytes_from(word);
        self.d = d;
        self.e = e;
    }

    pub fn set_hl(&mut self, word: u16)
        ensures
            *final(self) == old(self).with_hl(word),
    {
        let (h, l) = bytes_from(word);
        self.h = h;
        self.l = l;
    }

    pub fn set_sp(&mut self, word: u16)
        ensures
            *final(self) == (Registers { sp: word, ..*old(self) }),
    {
        self.sp = word;
    }

    /// Returns HL, then increments it (wrapping).
    pub fn hl_post_inc(&mut self) -> (r: u16)
        ensures
            r == old(self).spec_hl(),
            *final(self) == old(self).with_hl(r.wrapping_add(1)),
    {
        let old = self.hl();
        self.set_hl(old.wrapping_add(1));
        old
    }

    /// Returns HL, then decrements it (wrapping).
    pub fn hl_post_dec(&mut self) -> (r: u16)
        ensures
            r == old(self).spec_hl(),
            *final(self) == old(self).with_hl(r.wrapping_sub(1)),
    {
        let old = self.hl();
        self.set_hl(old.wrapping_sub(1));
        old
    }

    /// Increments HL (wrapping); no flag changes.
    pub fn inc_hl_nf(&mut self)
        ensures
            *final(self) == old(self).with_hl(old(self).spec_hl().wrapping_add(1)),
    {
        let v = self.hl();
        self.set_hl(v.wrapping_add(1));
    }

    /// Decrements HL (wrapping); no flag changes.
    pub fn dec_hl_nf(&mut self)
        ensures
            *final(self) == old(self).with_hl(old(self).spec_hl().wrapping_sub(1)),
    {
        let v = self.hl();
        self.set_hl(v.wrapping_sub(1));
    }
}

} // verus!
