//! CPU register file: eight 8-bit registers, the four flag bits, and the
//! 16-bit pair views AF, BC, DE and HL.

use vstd::prelude::*;

verus! {

/// The four flag bits of the F register. The low nibble of F is always zero.
#[derive(Debug, Default, Clone, Copy, PartialEq, Eq, Structural)]
pub struct FlagRegister {
    /// Z: set when an 8-bit result is zero.
    pub zero: bool,
    /// N: set by subtraction-kind operations.
    pub subtract: bool,
    /// H: set on a carry out of bit 3 (or a borrow into bit 4).
    pub half_carry: bool,
    /// C: set on a carry out of bit 7 (or a borrow into bit 8).
    pub carry: bool,
}

/// The numeric value of the F register: flags in bits 7..4, low nibble zero.
pub open spec fn flags_value(f: FlagRegister) -> u8 {
    ((if f.zero { 0x80u8 } else { 0u8 }) + (if f.subtract { 0x40u8 } else { 0u8 })
        + (if f.half_carry { 0x20u8 } else { 0u8 }) + (if f.carry { 0x10u8 } else { 0u8 })) as u8
}

/// The flags encoded by a byte: bit 7 is Z, bit 6 is N, bit 5 is H, bit 4 is C.
pub open spec fn flags_of_byte(byte: u8) -> FlagRegister {
    FlagRegister {
        zero: byte & 0x80 != 0,
        subtract: byte & 0x40 != 0,
        half_carry: byte & 0x20 != 0,
        carry: byte & 0x10 != 0,
    }
}

/// The 16-bit value with `hi` in the high byte and `lo` in the low byte.
pub open spec fn word(hi: u8, lo: u8) -> u16 {
    (hi * 256 + lo) as u16
}

/// The high byte of a 16-bit value.
pub open spec fn high_byte(value: u16) -> u8 {
    (value / 256) as u8
}

/// The low byte of a 16-bit value.
pub open spec fn low_byte(value: u16) -> u8 {
    (value % 256) as u8
}

pub proof fn lemma_word_bytes(value: u16)
    ensures
        word(high_byte(value), low_byte(value)) == value,
        high_byte(value) < 256,
{
    assert(value / 256 * 256 + value % 256 == value) by (nonlinear_arith);
}

impl FlagRegister {
    /// Encodes the flags into the F register byte layout.
    pub fn to_byte(&self) -> (r: u8)
        ensures
            r == flags_value(*self),
    {
        (if self.zero { 0x80u8 } else { 0u8 }) + (if self.subtract { 0x40u8 } else { 0u8 })
            + (if self.half_carry { 0x20u8 } else { 0u8 }) + (if self.carry { 0x10u8 } else { 0u8 })
    }

    /// Decodes the high nibble of a byte into the four flags; the low nibble
    /// is discarded, so F's low nibble is always read back as zero.
    pub fn from_byte(byte: u8) -> (r: FlagRegister)
        ensures
            r == flags_of_byte(byte),
    {
        FlagRegister {
            zero: byte & 0x80 != 0,
            subtract: byte & 0x40 != 0,
            half_carry: byte & 0x20 != 0,
            carry: byte & 0x10 != 0,
        }
    }
}

/// Round trip: re-encoding decoded flags keeps the high nibble and zeroes the
/// low nibble, so popping AF masks F's low nibble to zero.
pub proof fn lemma_flags_round_trip(byte: u8)
    ensures
        flags_value(flags_of_byte(byte)) == byte & 0xf0,
{
    assert((if byte & 0x80 != 0 { 0x80u8 } else { 0u8 }) + (if byte & 0x40 != 0 { 0x40u8 } else {
        0u8
    }) + (if byte & 0x20 != 0 { 0x20u8 } else { 0u8 }) + (if byte & 0x10 != 0 { 0x10u8 } else {
        0u8
    }) == byte & 0xf0) by (bit_vector);
}

/// The eight 8-bit registers. AF, BC, DE and HL are 16-bit views with the
/// first register in the high byte.
#[derive(Debug, Default, Clone, Copy, PartialEq, Eq, Structural)]
pub struct Register {
    pub a: u8,
    pub b: u8,
    pub c: u8,
    pub d: u8,
    pub e: u8,
    pub f: FlagRegister,
    pub h: u8,
    pub l: u8,
}

impl Register {
    pub fn get_af(&self) -> (r: u16)
        ensures
            r == word(self.a, flags_value(self.f)),
    {
        let f = self.f.to_byte();
        (self.a as u16) * 256 + (f as u16)
    }

    pub fn set_af(&mut self, value: u16)
        ensures
            *final(self) == (Register {
                a: high_byte(value),
                f: flags_of_byte(low_byte(value)),
                ..*old(self)
            }),
    {
        self.a = (value / 256) as u8;
        self.f = FlagRegister::from_byte((value % 256) as u8);
    }

    pub fn get_bc(&self) -> (r: u16)
        ensures
            r == word(self.b, self.c),
    {
        (self.b as u16) * 256 + (self.c as u16)
    }

    pub fn set_bc(&mut self, value: u16)
        ensures
            *final(self) == (Register { b: high_byte(value), c: low_byte(value), ..*old(self) }),
    {
        self.b = (value / 256) as u8;
        self.c = (value % 256) as u8;
    }

    pub fn get_de(&self) -> (r: u16)
        ensures
            r == word(self.d, self.e),
    {
        (self.d as u16) * 256 + (self.e as u16)
    }

    pub fn set_de(&mut self, value: u16)
        ensures
            *final(self) == (Register { d: high_byte(value), e: low_byte(value), ..*old(self) }),
    {
        self.d = (value / 256) as u8;
        self.e = (value % 256) as u8;
    }

    pub fn get_hl(&self) -> (r: u16)
        ensures
            r == word(self.h, self.l),
    {
        (self.h as u16) * 256 + (self.l as u16)
    }

    pub fn set_hl(&mut self, value: u16)
        ensures
            *final(self) == (Register { h: high_byte(value), l: low_byte(value), ..*old(self) }),
    {
        self.h = (value / 256) as u8;
        self.l = (value % 256) as u8;
    }

    /// Post-increments HL, wrapping at 0xFFFF, for the (HL+) addressing mode.
    pub fn inc_hl(&mut self)
        ensures
            *final(self) == (Register {
                h: high_byte(word(old(self).h, old(self).l).wrapping_add(1)),
                l: low_byte(word(old(self).h, old(self).l).wrapping_add(1)),
                ..*old(self)
            }),
    {
        let hl = self.get_hl();
        self.set_hl(hl.wrapping_add(1));
    }

    /// Post-decrements HL, wrapping at 0, for the (HL-) addressing mode.
    pub fn dec_hl(&mut self)
        ensures
            *final(self) == (Register {
                h: high_byte(word(old(self).h, old(self).l).wrapping_sub(1)),
                l: low_byte(word(old(self).h, old(self).l).wrapping_sub(1)),
                ..*old(self)
            }),
    {
        let hl = self.get_hl();
        self.set_hl(hl.wrapping_sub(1));
    }
}

} // verus!
