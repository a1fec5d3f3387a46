//! Register model of the magnetometer: addresses, bit flags and the
//! flag-set types for the three control registers.
//!
//! Everything here is fixed by the device's datasheet. A flag set is an
//! 8-bit value whose one bits all lie inside the register's valid mask;
//! composition (union, difference) stays inside that mask.

use vstd::prelude::*;

verus! {

/// 7-bit bus address of the magnetometer (the datasheet's 8-bit write
/// address 0x3C, halved by one right shift).
pub const I2C_ADDRESS: u16 = 0x3C >> 1;

/// Control register A: temperature enable and output data rate.
pub const CRA_REG_M: u8 = 0x00;
/// Control register B: the gain selector.
pub const CRB_REG_M: u8 = 0x01;
/// Mode register: conversion mode selection.
pub const MR_REG_M: u8 = 0x02;
/// First of the six output registers, the X-axis high byte.
pub const OUT_X_H_M: u8 = 0x03;
/// Temperature output high byte.
pub const TEMP_OUT_H_M: u8 = 0x31;

/// Control register A: temperature sensor enable.
pub const TEMP_EN: u8 = 0x80;
/// Control register A: output data rate bit 2.
pub const DO2: u8 = 0x10;
/// Control register A: output data rate bit 1.
pub const DO1: u8 = 0x08;
/// Control register A: output data rate bit 0.
pub const DO0: u8 = 0x04;
/// All documented bits of control register A.
pub const CRA_VALID: u8 = TEMP_EN | DO2 | DO1 | DO0;

/// Control register B: gain selector bit 2.
pub const GN2: u8 = 0x80;
/// Control register B: gain selector bit 1.
pub const GN1: u8 = 0x40;
/// Control register B: gain selector bit 0.
pub const GN0: u8 = 0x20;
/// The three gain selector bits, always written as a unit.
pub const GAIN_MASK: u8 = GN2 | GN1 | GN0;
/// All documented bits of control register B.
pub const CRB_VALID: u8 = GAIN_MASK;

/// Mode register: mode select bit 1.
pub const MD1: u8 = 0x02;
/// Mode register: mode select bit 0.
pub const MD0: u8 = 0x01;
/// All documented bits of the mode register.
pub const MR_VALID: u8 = MD1 | MD0;
/// Mode register value selecting continuous-conversion mode: all flags clear.
pub const MR_CONTINUOUS: u8 = 0x00;

/// Control register A value written at initialization: temperature sensor
/// enabled, output data rate 15 Hz.
pub const CRA_INIT: u8 = TEMP_EN | DO2;

/// Law: flag composition is closed under union and difference. Two flag
/// sets inside a register's valid mask combine to a flag set inside the
/// same mask.
pub proof fn lemma_flag_ops_closed(a: u8, b: u8, mask: u8)
    by (bit_vector)
    requires
        a & !mask == 0,
        b & !mask == 0,
    ensures
        (a | b) & !mask == 0,
        (a & !b) & !mask == 0,
{
}

/// The numeric values of the composed flag constants.
pub proof fn lemma_mask_values()
    by (bit_vector)
    ensures
        GAIN_MASK == 0xE0u8,
        CRB_VALID == 0xE0u8,
        CRA_VALID == 0x9Cu8,
        MR_VALID == 0x03u8,
        CRA_INIT == 0x90u8,
        GAIN_MASK & CRB_VALID == GAIN_MASK,
{
}

proof fn lemma_mask_basics(b: u8, m: u8)
    by (bit_vector)
    ensures
        0u8 & !m == 0,
        (b & m) & !m == 0,
        (b & m) & m == b & m,
{
}

/// Flag set for control register A.
#[derive(Clone, Copy, Debug, PartialEq, Eq, Structural)]
pub struct CraRegM {
    bits: u8,
}

impl CraRegM {
    /// The raw register byte this flag set stands for.
    pub closed spec fn spec_bits(self) -> u8 {
        self.bits
    }

    /// All one bits lie inside the register's documented mask.
    pub open spec fn is_valid(self) -> bool {
        self.spec_bits() & !CRA_VALID == 0
    }

    /// The empty flag set.
    pub fn empty() -> (r: Self)
        ensures
            r.spec_bits() == 0,
            r.is_valid(),
    {
        proof {
            lemma_mask_basics(0, CRA_VALID);
        }
        CraRegM { bits: 0 }
    }

    /// Accept a register byte only if every one bit is documented.
    pub fn from_bits(bits: u8) -> (r: Option<Self>)
        ensures
            bits & !CRA_VALID == 0 ==> (r matches Some(f) && f.spec_bits() == bits),
            bits & !CRA_VALID != 0 ==> r is None,
    {
        if bits & !CRA_VALID == 0 {
            Some(CraRegM { bits })
        } else {
            None
        }
    }

    /// Keep the documented bits of a register byte, dropping the rest.
    pub fn from_bits_truncate(bits: u8) -> (r: Self)
        ensures
            r.spec_bits() == bits & CRA_VALID,
            r.is_valid(),
    {
        proof {
            lemma_mask_basics(bits, CRA_VALID);
        }
        CraRegM { bits: bits & CRA_VALID }
    }

    /// The raw register byte.
    pub fn bits(self) -> (r: u8)
        ensures
            r == self.spec_bits(),
    {
        self.bits
    }

    /// Bitwise union of two flag sets.
    pub fn union(self, other: Self) -> (r: Self)
        ensures
            r.spec_bits() == self.spec_bits() | other.spec_bits(),
            self.is_valid() && other.is_valid() ==> r.is_valid(),
    {
        proof {
            if self.is_valid() && other.is_valid() {
                lemma_flag_ops_closed(self.spec_bits(), other.spec_bits(), CRA_VALID);
            }
        }
        CraRegM { bits: self.bits | other.bits }
    }

    /// Bitwise difference: the flags of `self` not in `other`.
    pub fn difference(self, other: Self) -> (r: Self)
        ensures
            r.spec_bits() == self.spec_bits() & !other.spec_bits(),
            self.is_valid() && other.is_valid() ==> r.is_valid(),
    {
        proof {
            if self.is_valid() && other.is_valid() {
                lemma_flag_ops_closed(self.spec_bits(), other.spec_bits(), CRA_VALID);
            }
        }
        CraRegM { bits: self.bits & !other.bits }
    }

    /// Membership test: every flag of `other` is set in `self`.
    pub fn contains(self, other: Self) -> (r: bool)
        ensures
            r == (self.spec_bits() & other.spec_bits() == other.spec_bits()),
    {
        self.bits & other.bits == other.bits
    }
}

/// Flag set for control register B.
#[derive(Clone, Copy, Debug, PartialEq, Eq, Structural)]
pub struct CrbRegM {
    bits: u8,
}

impl CrbRegM {
    /// The raw register byte this flag set stands for.
    pub closed spec fn spec_bits(self) -> u8 {
        self.bits
    }

    /// All one bits lie inside the register's documented mask.
    pub open spec fn is_valid(self) -> bool {
        self.spec_bits() & !CRB_VALID == 0
    }

    /// The empty flag set.
    pub fn empty() -> (r: Self)
        ensures
            r.spec_bits() == 0,
            r.is_valid(),
    {
        proof {
            lemma_mask_basics(0, CRB_VALID);
        }
        CrbRegM { bits: 0 }
    }

    /// Accept a register byte only if every one bit is documented.
    pub fn from_bits(bits: u8) -> (r: Option<Self>)
        ensures
            bits & !CRB_VALID == 0 ==> (r matches Some(f) && f.spec_bits() == bits),
            bits & !CRB_VALID != 0 ==> r is None,
    {
        if bits & !CRB_VALID == 0 {
            Some(CrbRegM { bits })
        } else {
            None
        }
    }

    /// Keep the documented bits of a register byte, dropping the rest.
    pub fn from_bits_truncate(bits: u8) -> (r: Self)
        ensures
            r.spec_bits() == bits & CRB_VALID,
            r.is_valid(),
    {
        proof {
            lemma_mask_basics(bits, CRB_VALID);
        }
        CrbRegM { bits: bits & CRB_VALID }
    }

    /// The raw register byte.
    pub fn bits(self) -> (r: u8)
        ensures
            r == self.spec_bits(),
    {
        self.bits
    }

    /// Bitwise union of two flag sets.
    pub fn union(self, other: Self) -> (r: Self)
        ensures
            r.spec_bits() == self.spec_bits() | other.spec_bits(),
            self.is_valid() && other.is_valid() ==> r.is_valid(),
    {
        proof {
            if self.is_valid() && other.is_valid() {
                lemma_flag_ops_closed(self.spec_bits(), other.spec_bits(), CRB_VALID);
            }
        }
        CrbRegM { bits: self.bits | other.bits }
    }

    /// Bitwise difference: the flags of `self` not in `other`.
    pub fn difference(self, other: Self) -> (r: Self)
        ensures
            r.spec_bits() == self.spec_bits() & !other.spec_bits(),
            self.is_valid() && other.is_valid() ==> r.is_valid(),
    {
        proof {
            if self.is_valid() && other.is_valid() {
                lemma_flag_ops_closed(self.spec_bits(), other.spec_bits(), CRB_VALID);
            }
        }
        CrbRegM { bits: self.bits & !other.bits }
    }

    /// Membership test: every flag of `other` is set in `self`.
    pub fn contains(self, other: Self) -> (r: bool)
        ensures
            r == (self.spec_bits() & other.spec_bits() == other.spec_bits()),
    {
        self.bits & other.bits == other.bits
    }
}

/// Flag set for the mode register.
#[derive(Clone, Copy, Debug, PartialEq, Eq, Structural)]
pub struct MrRegM {
    bits: u8,
}

impl MrRegM {
    /// The raw register byte this flag set stands for.
    pub closed spec fn spec_bits(self) -> u8 {
        self.bits
    }

    /// All one bits lie inside the register's documented mask.
    pub open spec fn is_valid(self) -> bool {
        self.spec_bits() & !MR_VALID == 0
    }

    /// The empty flag set: continuous-conversion mode.
    pub fn empty() -> (r: Self)
        ensures
            r.spec_bits() == 0,
            r.is_valid(),
    {
        proof {
            lemma_mask_basics(0, MR_VALID);
        }
        MrRegM { bits: 0 }
    }

    /// Accept a register byte only if every one bit is documented.
    pub fn from_bits(bits: u8) -> (r: Option<Self>)
        ensures
            bits & !MR_VALID == 0 ==> (r matches Some(f) && f.spec_bits() == bits),
            bits & !MR_VALID != 0 ==> r is None,
    {
        if bits & !MR_VALID == 0 {
            Some(MrRegM { bits })
        } else {
            None
        }
    }

    /// Keep the documented bits of a register byte, dropping the rest.
    pub fn from_bits_truncate(bits: u8) -> (r: Self)
        ensures
            r.spec_bits() == bits & MR_VALID,
            r.is_valid(),
    {
        proof {
            lemma_mask_basics(bits, MR_VALID);
        }
        MrRegM { bits: bits & MR_VALID }
    }

    /// The raw register byte.
    pub fn bits(self) -> (r: u8)
        ensures
            r == self.spec_bits(),
    {
        self.bits
    }

    /// Bitwise union of two flag sets.
    pub fn union(self, other: Self) -> (r: Self)
        ensures
            r.spec_bits() == self.spec_bits() | other.spec_bits(),
            self.is_valid() && other.is_valid() ==> r.is_valid(),
    {
        proof {
            if self.is_valid() && other.is_valid() {
                lemma_flag_ops_closed(self.spec_bits(), other.spec_bits(), MR_VALID);
            }
        }
        MrRegM { bits: self.bits | other.bits }
    }

    /// Bitwise difference: the flags of `self` not in `other`.
    pub fn difference(self, other: Self) -> (r: Self)
        ensures
            r.spec_bits() == self.spec_bits() & !other.spec_bits(),
            self.is_valid() && other.is_valid() ==> r.is_valid(),
    {
        proof {
            if self.is_valid() && other.is_valid() {
                lemma_flag_ops_closed(self.spec_bits(), other.spec_bits(), MR_VALID);
            }
        }
        MrRegM { bits: self.bits & !other.bits }
    }

    /// Membership test: every flag of `other` is set in `self`.
    pub fn contains(self, other: Self) -> (r: bool)
        ensures
            r == (self.spec_bits() & other.spec_bits() == other.spec_bits()),
    {
        self.bits & other.bits == other.bits
    }
}

} // verus!
