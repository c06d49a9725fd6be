use vstd::prelude::*;
use vstd::string::StringExecFns;

verus! {

/// The four condition flags kept in the high nibble of register F.
#[derive(Clone, Copy, PartialEq, Eq, Structural)]
pub struct Flags {
    pub zero: bool,
    pub sub: bool,
    pub half_carry: bool,
    pub carry: bool,
}

/// Carry out of bit 3 when two bytes are added.
pub open spec fn half_carry_add(left: u8, right: u8) -> bool {
    (left & 0xF) + (right & 0xF) >= 0x10
}

/// Borrow into bit 3 when one byte is subtracted from another.
pub open spec fn half_carry_sub(left: u8, right: u8) -> bool {
    (left & 0xF) < (right & 0xF)
}

/// Carry out of bit 11 when two words are added.
pub open spec fn half_carry_add_u16(left: u16, right: u16) -> bool {
    (left & 0xFFF) + (right & 0xFFF) >= 0x1000
}

/// Borrow into bit 11 when one word is subtracted from another.
pub open spec fn half_carry_sub_u16(left: u16, right: u16) -> bool {
    (left & 0xFFF) < (right & 0xFFF)
}

/// The one-character marker of a flag: its letter when set, a blank when clear.
pub open spec fn flag_char(set: bool, letter: char) -> char {
    if set {
        letter
    } else {
        ' '
    }
}

impl Flags {
    /// All four flags clear.
    pub open spec fn none() -> Flags {
        Flags { zero: false, sub: false, half_carry: false, carry: false }
    }

    /// The packed register byte: Z in bit 7, N in bit 6, H in bit 5, C in bit 4.
    pub open spec fn byte(self) -> u8 {
        (if self.zero { 0x80u8 } else { 0u8 }) | (if self.sub { 0x40u8 } else { 0u8 }) | (if self.half_carry {
            0x20u8
        } else {
            0u8
        }) | (if self.carry { 0x10u8 } else { 0u8 })
    }

    /// The flags packed in a register byte; its low nibble is ignored.
    pub open spec fn of_byte(f: u8) -> Flags {
        Flags {
            zero: (f >> 7u8) & 1 == 1,
            sub: (f >> 6u8) & 1 == 1,
            half_carry: (f >> 5u8) & 1 == 1,
            carry: (f >> 4u8) & 1 == 1,
        }
    }

    /// Four characters `znhc`, each a blank where its flag is clear.
    pub open spec fn text(self) -> Seq<char> {
        seq![
            flag_char(self.zero, 'z'),
            flag_char(self.sub, 'n'),
            flag_char(self.half_carry, 'h'),
            flag_char(self.carry, 'c'),
        ]
    }

    /// Renders the flags as `znhc` with blanks for clear flags.
    pub fn to_string(&self) -> (r: String)
        ensures
            r@ == self.text(),
    {
        let mut result = String::new();
        let z = if self.zero { "z" } else { " " };
        let n = if self.sub { "n" } else { " " };
        let h = if self.half_carry { "h" } else { " " };
        let c = if self.carry { "c" } else { " " };
        proof {
            reveal_strlit("z");
            reveal_strlit("n");
            reveal_strlit("h");
            reveal_strlit("c");
            reveal_strlit(" ");
        }
        result.append(z);
        result.append(n);
        result.append(h);
        result.append(c);
        assert(result@ =~= self.text());
        result
    }

    /// Sets H from the carry out of bit 3 of `left + right`.
    pub fn compute_half_carry_add(&mut self, left: u8, right: u8)
        ensures
            *final(self) == (Flags { half_carry: half_carry_add(left, right), ..*old(self) }),
    {
        self.half_carry = Self::half_carry_add_occurred(left, right);
    }

    /// Whether adding the two bytes carries out of bit 3.
    pub fn half_carry_add_occurred(left: u8, right: u8) -> (r: bool)
        ensures
            r == ((left & 0xF) + (right & 0xF) >= 0x10),
            r == half_carry_add(left, right),
    {
        ((left & 0xf) as u16) + ((right & 0xf) as u16) >= 0x10
    }

    /// Sets H from the carry out of bit 11 of `left + right`.
    pub fn compute_half_carry_add_u16(&mut self, left: u16, right: u16)
        ensures
            *final(self) == (Flags { half_carry: half_carry_add_u16(left, right), ..*old(self) }),
    {
        self.half_carry = ((left & 0xfff) as u32) + ((right & 0xfff) as u32) >= 0x1000;
    }

    /// Sets H from the borrow into bit 3 of `left - right`.
    pub fn compute_half_carry_sub(&mut self, left: u8, right: u8)
        ensures
            *final(self) == (Flags { half_carry: half_carry_sub(left, right), ..*old(self) }),
    {
        self.half_carry = Self::half_carry_sub_occurred(left, right);
    }

    /// Whether subtracting `right` from `left` borrows into bit 3.
    pub fn half_carry_sub_occurred(left: u8, right: u8) -> (r: bool)
        ensures
            r == half_carry_sub(left, right),
    {
        (left & 0xf) < (right & 0xf)
    }

    /// Sets H from the borrow into bit 11 of `left - right`.
    pub fn compute_half_carry_sub_u16(&mut self, left: u16, right: u16)
        ensures
            *final(self) == (Flags { half_carry: half_carry_sub_u16(left, right), ..*old(self) }),
    {
        self.half_carry = (left & 0xfff) < (right & 0xfff);
    }

    /// The packed register byte.
    pub fn as_u8(&self) -> (r: u8)
        ensures
            r == self.byte(),
    {
        (if self.zero { 0x80u8 } else { 0u8 }) | (if self.sub { 0x40u8 } else { 0u8 }) | (if self.half_carry {
            0x20u8
        } else {
            0u8
        }) | (if self.carry { 0x10u8 } else { 0u8 })
    }

    /// Clears all four flags.
    pub fn clear(&mut self)
        ensures
            *final(self) == Flags::none(),
    {
        self.zero = false;
        self.sub = false;
        self.half_carry = false;
        self.carry = false;
    }

    /// Loads the flags from a packed register byte.
    pub fn set_from_u8(&mut self, f: u8)
        ensures
            *final(self) == Flags::of_byte(f),
    {
        self.zero = (f >> 7u8) & 1 == 1;
        self.sub = (f >> 6u8) & 1 == 1;
        self.half_carry = (f >> 5u8) & 1 == 1;
        self.carry = (f >> 4u8) & 1 == 1;
    }

    /// Sets all four flags at once.
    pub fn set_from_bool(&mut self, zero: bool, sub: bool, half_carry: bool, carry: bool)
        ensures
            *final(self) == (Flags { zero, sub, half_carry, carry }),
    {
        self.zero = zero;
        self.sub = sub;
        self.half_carry = half_carry;
        self.carry = carry;
    }
}

/// Unpacking a register byte and packing it again keeps its high nibble and
/// clears its low nibble.
pub proof fn lemma_flags_round_trip(f: u8)
    ensures
        Flags::of_byte(f).byte() == f & 0xF0,
        Flags::of_byte(f).byte() & 0x0F == 0,
{
    let z = (f >> 7u8) & 1 == 1;
    let n = (f >> 6u8) & 1 == 1;
    let h = (f >> 5u8) & 1 == 1;
    let c = (f >> 4u8) & 1 == 1;
    let b = (if z { 0x80u8 } else { 0u8 }) | (if n { 0x40u8 } else { 0u8 }) | (if h { 0x20u8 } else {
        0u8
    }) | (if c { 0x10u8 } else { 0u8 });
    assert(b == f & 0xF0 && b & 0x0F == 0) by (bit_vector)
        requires
            z == ((f >> 7u8) & 1 == 1),
            n == ((f >> 6u8) & 1 == 1),
            h == ((f >> 5u8) & 1 == 1),
            c == ((f >> 4u8) & 1 == 1),
            b == (if z { 0x80u8 } else { 0u8 }) | (if n { 0x40u8 } else { 0u8 }) | (if h { 0x20u8 } else {
                0u8
            }) | (if c { 0x10u8 } else { 0u8 }),
    ;
}

} // verus!
