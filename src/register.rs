//! Register pairs, the register file built from four of them, and the two views
//! of the flags byte.
use vstd::prelude::*;

use crate::bits::{
    flag_is_set, flag_off, flag_on, high_of, lemma_join_split, lemma_split_join, low_of,
    pair_of, with_high, with_low, ADDSUB_MASK, CARRY_MASK, HALF_CARRY_MASK, ZERO_MASK,
};

verus! {

/// A sixteen-bit register that can also be read and written as two bytes.
pub struct Register {
    high: u8,
    low: u8,
}

impl View for Register {
    type V = u16;

    closed spec fn view(&self) -> u16 {
        pair_of(self.high, self.low)
    }
}

impl Register {
    /// A register holding zero.
    pub fn new() -> (r: Register)
        ensures
            r@ == 0,
    {
        Register::from_wide(0)
    }

    /// A register holding `v`.
    pub fn from_wide(v: u16) -> (r: Register)
        ensures
            r@ == v,
    {
        proof {
            lemma_split_join(v);
        }
        Register { high: (v >> 8u16) as u8, low: v as u8 }
    }

    /// The full sixteen-bit value.
    pub fn wide(&self) -> (r: u16)
        ensures
            r == self@,
    {
        ((self.high as u16) << 8u16) | (self.low as u16)
    }

    /// Replaces the full sixteen-bit value.
    pub fn set_wide(&mut self, v: u16)
        ensures
            final(self)@ == v,
    {
        proof {
            lemma_split_join(v);
        }
        self.high = (v >> 8u16) as u8;
        self.low = v as u8;
    }

    /// The more significant byte.
    pub fn high(&self) -> (r: u8)
        ensures
            r == high_of(self@),
    {
        proof {
            lemma_join_split(self.high, self.low);
        }
        self.high
    }

    /// Exclusive access to the more significant byte; the less significant byte
    /// stays as it was.
    pub fn high_mut(&mut self) -> (r: &mut u8)
        ensures
            *r == high_of(old(self)@),
            final(self)@ == with_high(old(self)@, *final(r)),
    {
        proof {
            lemma_join_split(self.high, self.low);
        }
        &mut self.high
    }

    /// Replaces the more significant byte, keeping the less significant one.
    pub fn set_high(&mut self, v: u8)
        ensures
            final(self)@ == with_high(old(self)@, v),
    {
        proof {
            lemma_join_split(self.high, self.low);
        }
        self.high = v;
    }

    /// The less significant byte.
    pub fn low(&self) -> (r: u8)
        ensures
            r == low_of(self@),
    {
        proof {
            lemma_join_split(self.high, self.low);
        }
        self.low
    }

    /// Exclusive access to the less significant byte; the more significant byte
    /// stays as it was.
    pub fn low_mut(&mut self) -> (r: &mut u8)
        ensures
            *r == low_of(old(self)@),
            final(self)@ == with_low(old(self)@, *final(r)),
    {
        proof {
            lemma_join_split(self.high, self.low);
        }
        &mut self.low
    }

    /// Replaces the less significant byte, keeping the more significant one.
    pub fn set_low(&mut self, v: u8)
        ensures
            final(self)@ == with_low(old(self)@, v),
    {
        proof {
            lemma_join_split(self.high, self.low);
        }
        self.low = v;
    }
}

/// Read-only view of the flags byte.
pub struct Flags(pub u8);

impl Flags {
    fn flags_bit_at(&self, index: usize) -> (r: u8)
        requires
            4 <= index < 8,
        ensures
            r == (self.0 >> (index as u8)) & 1u8,
    {
        (self.0 >> (index as u8)) & 1u8
    }

    /// Whether the zero flag is set.
    pub fn zero(&self) -> (r: bool)
        ensures
            r == flag_is_set(self.0, ZERO_MASK),
    {
        let f = self.0;
        assert(((f >> 7u8) & 1u8 == 1u8) == (f & 0x80u8 != 0u8)) by (bit_vector);
        self.flags_bit_at(7) == 1
    }

    /// Whether the add/subtract flag is set.
    pub fn addsub(&self) -> (r: bool)
        ensures
            r == flag_is_set(self.0, ADDSUB_MASK),
    {
        let f = self.0;
        assert(((f >> 6u8) & 1u8 == 1u8) == (f & 0x40u8 != 0u8)) by (bit_vector);
        self.flags_bit_at(6) == 1
    }

    /// Whether the half-carry flag is set.
    pub fn half_carry(&self) -> (r: bool)
        ensures
            r == flag_is_set(self.0, HALF_CARRY_MASK),
    {
        let f = self.0;
        assert(((f >> 5u8) & 1u8 == 1u8) == (f & 0x20u8 != 0u8)) by (bit_vector);
        self.flags_bit_at(5) == 1
    }

    /// Whether the carry flag is set.
    pub fn carry(&self) -> (r: bool)
        ensures
            r == flag_is_set(self.0, CARRY_MASK),
    {
        let f = self.0;
        assert(((f >> 4u8) & 1u8 == 1u8) == (f & 0x10u8 != 0u8)) by (bit_vector);
        self.flags_bit_at(4) == 1
    }
}

/// Writable view of the flags byte, borrowed for the duration of the updates.
///
/// Each update states the new byte and that the view still refers to the byte
/// it was made from, so the change reaches the borrowed location.
pub struct FlagsMut<'a>(pub &'a mut u8);

impl<'a> FlagsMut<'a> {
    fn set_bit_on_at(&mut self, index: usize)
        requires
            4 <= index < 8,
        ensures
            *final(self).0 == flag_on(*old(self).0, 1u8 << (index as u8)),
            *final(final(self).0) == *final(old(self).0),
    {
        *self.0 = *self.0 | (1u8 << (index as u8));
    }

    fn set_bit_off_at(&mut self, index: usize)
        requires
            4 <= index < 8,
        ensures
            *final(self).0 == flag_off(*old(self).0, 1u8 << (index as u8)),
            *final(final(self).0) == *final(old(self).0),
    {
        *self.0 = *self.0 & !(1u8 << (index as u8));
    }

    /// Sets the zero flag, keeping every other bit.
    pub fn zero_on(&mut self)
        ensures
            *final(self).0 == flag_on(*old(self).0, ZERO_MASK),
            *final(final(self).0) == *final(old(self).0),
    {
        assert(1u8 << 7u8 == 0x80u8) by (bit_vector);
        self.set_bit_on_at(7)
    }

    /// Clears the zero flag, keeping every other bit.
    pub fn zero_off(&mut self)
        ensures
            *final(self).0 == flag_off(*old(self).0, ZERO_MASK),
            *final(final(self).0) == *final(old(self).0),
    {
        assert(1u8 << 7u8 == 0x80u8) by (bit_vector);
        self.set_bit_off_at(7)
    }

    /// Sets the add/subtract flag, keeping every other bit.
    pub fn addsub_on(&mut self)
        ensures
            *final(self).0 == flag_on(*old(self).0, ADDSUB_MASK),
            *final(final(self).0) == *final(old(self).0),
    {
        assert(1u8 << 6u8 == 0x40u8) by (bit_vector);
        self.set_bit_on_at(6)
    }

    /// Clears the add/subtract flag, keeping every other bit.
    pub fn addsub_off(&mut self)
        ensures
            *final(self).0 == flag_off(*old(self).0, ADDSUB_MASK),
            *final(final(self).0) == *final(old(self).0),
    {
        assert(1u8 << 6u8 == 0x40u8) by (bit_vector);
        self.set_bit_off_at(6)
    }

    /// Sets the half-carry flag, keeping every other bit.
    pub fn half_carry_on(&mut self)
        ensures
            *final(self).0 == flag_on(*old(self).0, HALF_CARRY_MASK),
            *final(final(self).0) == *final(old(self).0),
    {
        assert(1u8 << 5u8 == 0x20u8) by (bit_vector);
        self.set_bit_on_at(5)
    }

    /// Clears the half-carry flag, keeping every other bit.
    pub fn half_carry_off(&mut self)
        ensures
            *final(self).0 == flag_off(*old(self).0, HALF_CARRY_MASK),
            *final(final(self).0) == *final(old(self).0),
    {
        assert(1u8 << 5u8 == 0x20u8) by (bit_vector);
        self.set_bit_off_at(5)
    }

    /// Sets the carry flag, keeping every other bit.
    pub fn carry_on(&mut self)
        ensures
            *final(self).0 == flag_on(*old(self).0, CARRY_MASK),
            *final(final(self).0) == *final(old(self).0),
    {
        assert(1u8 << 4u8 == 0x10u8) by (bit_vector);
        self.set_bit_on_at(4)
    }

    /// Clears the carry flag, keeping every other bit.
    pub fn carry_off(&mut self)
        ensures
            *final(self).0 == flag_off(*old(self).0, CARRY_MASK),
            *final(final(self).0) == *final(old(self).0),
    {
        assert(1u8 << 4u8 == 0x10u8) by (bit_vector);
        self.set_bit_off_at(4)
    }
}

/// The register file: the accumulator-and-flags pair and three general pairs.
pub struct Registers {
    af: Register,
    bc: Register,
    de: Register,
    hl: Register,
}

/// The four pair values of a register file, in the order AF, BC, DE, HL.
pub struct RegistersView {
    pub af: u16,
    pub bc: u16,
    pub de: u16,
    pub hl: u16,
}

impl View for Registers {
    type V = RegistersView;

    closed spec fn view(&self) -> RegistersView {
        RegistersView { af: self.af@, bc: self.bc@, de: self.de@, hl: self.hl@ }
    }
}

impl Registers {
    /// A register file with every pair at zero.
    pub fn new() -> (r: Registers)
        ensures
            r@ == (RegistersView { af: 0, bc: 0, de: 0, hl: 0 }),
    {
        Registers::from_pairs(0, 0, 0, 0)
    }

    /// A register file whose pairs hold the given values.
    pub fn from_pairs(af: u16, bc: u16, de: u16, hl: u16) -> (r: Registers)
        ensures
            r@ == (RegistersView { af, bc, de, hl }),
    {
        Registers {
            af: Register::from_wide(af),
            bc: Register::from_wide(bc),
            de: Register::from_wide(de),
            hl: Register::from_wide(hl),
        }
    }

    /// The AF pair.
    pub fn af(&self) -> (r: u16)
        ensures
            r == self@.af,
    {
        self.af.wide()
    }

    /// The BC pair.
    pub fn bc(&self) -> (r: u16)
        ensures
            r == self@.bc,
    {
        self.bc.wide()
    }

    /// The DE pair.
    pub fn de(&self) -> (r: u16)
        ensures
            r == self@.de,
    {
        self.de.wide()
    }

    /// The HL pair.
    pub fn hl(&self) -> (r: u16)
        ensures
            r == self@.hl,
    {
        self.hl.wide()
    }

    /// Replaces the AF pair.
    pub fn set_af(&mut self, v: u16)
        ensures
            final(self)@ == (RegistersView { af: v, ..old(self)@ }),
    {
        self.af.set_wide(v)
    }

    /// Replaces the BC pair.
    pub fn set_bc(&mut self, v: u16)
        ensures
            final(self)@ == (RegistersView { bc: v, ..old(self)@ }),
    {
        self.bc.set_wide(v)
    }

    /// Replaces the DE pair.
    pub fn set_de(&mut self, v: u16)
        ensures
            final(self)@ == (RegistersView { de: v, ..old(self)@ }),
    {
        self.de.set_wide(v)
    }

    /// Replaces the HL pair.
    pub fn set_hl(&mut self, v: u16)
        ensures
            final(self)@ == (RegistersView { hl: v, ..old(self)@ }),
    {
        self.hl.set_wide(v)
    }

    /// The accumulator, the high byte of AF.
    pub fn a(&self) -> (r: u8)
        ensures
            r == high_of(self@.af),
    {
        self.af.high()
    }

    /// The flags byte, the low byte of AF.
    pub fn f(&self) -> (r: u8)
        ensures
            r == low_of(self@.af),
    {
        self.af.low()
    }

    /// The high byte of BC.
    pub fn b(&self) -> (r: u8)
        ensures
            r == high_of(self@.bc),
    {
        self.bc.high()
    }

    /// The low byte of BC.
    pub fn c(&self) -> (r: u8)
        ensures
            r == low_of(self@.bc),
    {
        self.bc.low()
    }

    /// The high byte of DE.
    pub fn d(&self) -> (r: u8)
        ensures
            r == high_of(self@.de),
    {
        self.de.high()
    }

    /// The low byte of DE.
    pub fn e(&self) -> (r: u8)
        ensures
            r == low_of(self@.de),
    {
        self.de.low()
    }

    /// The high byte of HL.
    pub fn h(&self) -> (r: u8)
        ensures
            r == high_of(self@.hl),
    {
        self.hl.high()
    }

    /// The low byte of HL.
    pub fn l(&self) -> (r: u8)
        ensures
            r == low_of(self@.hl),
    {
        self.hl.low()
    }

    /// Replaces the accumulator, keeping the flags byte.
    pub fn set_a(&mut self, v: u8)
        ensures
            final(self)@ == (RegistersView { af: with_high(old(self)@.af, v), ..old(self)@ }),
    {
        self.af.set_high(v)
    }

    /// Replaces the flags byte, keeping the accumulator.
    pub fn set_f(&mut self, v: u8)
        ensures
            final(self)@ == (RegistersView { af: with_low(old(self)@.af, v), ..old(self)@ }),
    {
        self.af.set_low(v)
    }

    /// Replaces the high byte of BC.
    pub fn set_b(&mut self, v: u8)
        ensures
            final(self)@ == (RegistersView { bc: with_high(old(self)@.bc, v), ..old(self)@ }),
    {
        self.bc.set_high(v)
    }

    /// Replaces the low byte of BC.
    pub fn set_c(&mut self, v: u8)
        ensures
            final(self)@ == (RegistersView { bc: with_low(old(self)@.bc, v), ..old(self)@ }),
    {
        self.bc.set_low(v)
    }

    /// Replaces the high byte of DE.
    pub fn set_d(&mut self, v: u8)
        ensures
            final(self)@ == (RegistersView { de: with_high(old(self)@.de, v), ..old(self)@ }),
    {
        self.de.set_high(v)
    }

    /// Replaces the low byte of DE.
    pub fn set_e(&mut self, v: u8)
        ensures
            final(self)@ == (RegistersView { de: with_low(old(self)@.de, v), ..old(self)@ }),
    {
        self.de.set_low(v)
    }

    /// Replaces the high byte of HL.
    pub fn set_h(&mut self, v: u8)
        ensures
            final(self)@ == (RegistersView { hl: with_high(old(self)@.hl, v), ..old(self)@ }),
    {
        self.hl.set_high(v)
    }

    /// Replaces the low byte of HL.
    pub fn set_l(&mut self, v: u8)
        ensures
            final(self)@ == (RegistersView { hl: with_low(old(self)@.hl, v), ..old(self)@ }),
    {
        self.hl.set_low(v)
    }

    /// Read-only view of the flags, taken from the low byte of AF.
    pub fn flags(&self) -> (r: Flags)
        ensures
            r.0 == low_of(self@.af),
    {
        Flags(self.af.low())
    }

    /// Writable view of the flags over the low byte of AF; the rest of the file
    /// stays as it was.
    pub fn flags_mut(&mut self) -> (r: FlagsMut<'_>)
        ensures
            *r.0 == low_of(old(self)@.af),
            final(self)@ == (RegistersView {
                af: with_low(old(self)@.af, *final(r.0)),
                ..old(self)@
            }),
    {
        FlagsMut(self.af.low_mut())
    }
}

} // verus!
