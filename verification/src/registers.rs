//! The CPU register file: the accumulator, the flag register, the
//! general-purpose register pairs, and the stack and program counters.

use vstd::prelude::*;

verus! {

/// The four condition flags. They are the upper nibble of the `F`
/// pseudo-register; its lower nibble always reads as zero, which this
/// representation guarantees by construction.
#[derive(Clone, Copy, Debug, PartialEq, Eq, Structural)]
pub struct Flags {
    pub zero: bool,
    pub negative: bool,
    pub half_carry: bool,
    pub carry: bool,
}

/// The byte a flag set presents as the `F` pseudo-register: each flag is one
/// bit of the upper nibble, the lower nibble is zero.
pub open spec fn spec_flags_to_byte(f: Flags) -> u8 {
    ((if f.zero { 0x80u8 } else { 0u8 }) + (if f.negative { 0x40u8 } else { 0u8 })
        + (if f.half_carry { 0x20u8 } else { 0u8 }) + (if f.carry { 0x10u8 } else { 0u8 })) as u8
}

/// The flag set stored by writing a byte to the `F` pseudo-register: only the
/// upper nibble is kept.
pub open spec fn spec_flags_from_byte(b: u8) -> Flags {
    Flags {
        zero: (b / 0x80) % 2 == 1,
        negative: (b / 0x40) % 2 == 1,
        half_carry: (b / 0x20) % 2 == 1,
        carry: (b / 0x10) % 2 == 1,
    }
}

impl Flags {
    /// The flag set with every flag clear.
    pub open spec fn spec_empty() -> Flags {
        Flags { zero: false, negative: false, half_carry: false, carry: false }
    }

    pub fn empty() -> (r: Flags)
        ensures
            r == Flags::spec_empty(),
    {
        Flags { zero: false, negative: false, half_carry: false, carry: false }
    }

    /// This flag set when the condition holds, no flags otherwise.
    pub fn check(&self, condition: bool) -> (r: Flags)
        ensures
            r == if condition {
                *self
            } else {
                Flags::spec_empty()
            },
    {
        if condition {
            *self
        } else {
            Flags::empty()
        }
    }

    pub fn to_byte(&self) -> (b: u8)
        ensures
            b == spec_flags_to_byte(*self),
    {
        (if self.zero { 0x80u8 } else { 0u8 }) + (if self.negative { 0x40u8 } else { 0u8 })
            + (if self.half_carry { 0x20u8 } else { 0u8 }) + (if self.carry { 0x10u8 } else { 0u8 })
    }

    pub fn from_byte(b: u8) -> (f: Flags)
        ensures
            f == spec_flags_from_byte(b),
    {
        Flags {
            zero: (b / 0x80) % 2 == 1,
            negative: (b / 0x40) % 2 == 1,
            half_carry: (b / 0x20) % 2 == 1,
            carry: (b / 0x10) % 2 == 1,
        }
    }
}

/// A name for one 8-bit register.
#[derive(Clone, Copy, Debug, PartialEq, Eq, Structural)]
pub enum Register8Bit {
    A,
    B,
    C,
    D,
    E,
    H,
    L,
}

/// A name for one 16-bit register or register pair.
#[derive(Clone, Copy, Debug, PartialEq, Eq, Structural)]
pub enum Register16Bit {
    AF,
    BC,
    DE,
    HL,
    SP,
}

/// The register file. The pairs AF/BC/DE/HL are views over the 8-bit halves;
/// SP and PC are true 16-bit registers.
#[derive(Clone, Copy, Debug, PartialEq, Eq, Structural)]
pub struct Registers {
    pub a: u8,
    pub f: Flags,
    pub b: u8,
    pub c: u8,
    pub d: u8,
    pub e: u8,
    pub h: u8,
    pub l: u8,
    pub sp: u16,
    pub pc: u16,
}

/// The documented post-boot register values.
pub open spec fn spec_registers_new() -> Registers {
    Registers {
        a: 0x01,
        f: Flags { zero: true, negative: false, half_carry: true, carry: true },
        b: 0x00,
        c: 0x13,
        d: 0x00,
        e: 0xd8,
        h: 0x01,
        l: 0x4d,
        sp: 0xFFFE,
        pc: 0x0100,
    }
}

/// The 16-bit value of a pair: high half times 256 plus low half.
pub open spec fn spec_get_u16(r: Registers, reg: Register16Bit) -> u16 {
    match reg {
        Register16Bit::AF => (r.a * 0x100 + spec_flags_to_byte(r.f)) as u16,
        Register16Bit::BC => (r.b * 0x100 + r.c) as u16,
        Register16Bit::DE => (r.d * 0x100 + r.e) as u16,
        Register16Bit::HL => (r.h * 0x100 + r.l) as u16,
        Register16Bit::SP => r.sp,
    }
}

/// The register file after a 16-bit write: the high byte goes to the first
/// half of the pair, the low byte to the second; a write to AF keeps only the
/// flag nibble of the low byte.
pub open spec fn spec_set_u16(r: Registers, reg: Register16Bit, value: u16) -> Registers {
    match reg {
        Register16Bit::AF => Registers {
            a: (value / 0x100) as u8,
            f: spec_flags_from_byte((value % 0x100) as u8),
            ..r
        },
        Register16Bit::BC => Registers { b: (value / 0x100) as u8, c: (value % 0x100) as u8, ..r },
        Register16Bit::DE => Registers { d: (value / 0x100) as u8, e: (value % 0x100) as u8, ..r },
        Register16Bit::HL => Registers { h: (value / 0x100) as u8, l: (value % 0x100) as u8, ..r },
        Register16Bit::SP => Registers { sp: value, ..r },
    }
}

/// The value of one 8-bit register.
pub open spec fn spec_get_u8(r: Registers, reg: Register8Bit) -> u8 {
    match reg {
        Register8Bit::A => r.a,
        Register8Bit::B => r.b,
        Register8Bit::C => r.c,
        Register8Bit::D => r.d,
        Register8Bit::E => r.e,
        Register8Bit::H => r.h,
        Register8Bit::L => r.l,
    }
}

/// The register file after one 8-bit register is replaced.
pub open spec fn spec_set_u8(r: Registers, reg: Register8Bit, value: u8) -> Registers {
    match reg {
        Register8Bit::A => Registers { a: value, ..r },
        Register8Bit::B => Registers { b: value, ..r },
        Register8Bit::C => Registers { c: value, ..r },
        Register8Bit::D => Registers { d: value, ..r },
        Register8Bit::E => Registers { e: value, ..r },
        Register8Bit::H => Registers { h: value, ..r },
        Register8Bit::L => Registers { l: value, ..r },
    }
}

impl Registers {
    pub fn new() -> (r: Registers)
        ensures
            r == spec_registers_new(),
    {
        Registers {
            a: 0x01,
            f: Flags { zero: true, negative: false, half_carry: true, carry: true },
            b: 0x00,
            c: 0x13,
            d: 0x00,
            e: 0xd8,
            h: 0x01,
            l: 0x4d,
            sp: 0xFFFE,
            pc: 0x0100,
        }
    }

    pub fn get_u16(&self, reg: Register16Bit) -> (v: u16)
        ensures
            v == spec_get_u16(*self, reg),
    {
        match reg {
            Register16Bit::AF => self.a as u16 * 0x100 + self.f.to_byte() as u16,
            Register16Bit::BC => self.b as u16 * 0x100 + self.c as u16,
            Register16Bit::DE => self.d as u16 * 0x100 + self.e as u16,
            Register16Bit::HL => self.h as u16 * 0x100 + self.l as u16,
            Register16Bit::SP => self.sp,
        }
    }

    pub fn set_u16(&mut self, reg: Register16Bit, value: u16)
        ensures
            *final(self) == spec_set_u16(*old(self), reg, value),
    {
        match reg {
            Register16Bit::AF => {
                self.a = (value / 0x100) as u8;
                self.f = Flags::from_byte((value % 0x100) as u8);
            },
            Register16Bit::BC => {
                self.b = (value / 0x100) as u8;
                self.c = (value % 0x100) as u8;
            },
            Register16Bit::DE => {
                self.d = (value / 0x100) as u8;
                self.e = (value % 0x100) as u8;
            },
            Register16Bit::HL => {
                self.h = (value / 0x100) as u8;
                self.l = (value % 0x100) as u8;
            },
            Register16Bit::SP => {
                self.sp = value;
            },
        }
    }

    pub fn get_u8(&self, reg: Register8Bit) -> (v: u8)
        ensures
            v == spec_get_u8(*self, reg),
    {
        match reg {
            Register8Bit::A => self.a,
            Register8Bit::B => self.b,
            Register8Bit::C => self.c,
            Register8Bit::D => self.d,
            Register8Bit::E => self.e,
            Register8Bit::H => self.h,
            Register8Bit::L => self.l,
        }
    }

    pub fn set_u8(&mut self, reg: Register8Bit, value: u8)
        ensures
            *final(self) == spec_set_u8(*old(self), reg, value),
    {
        match reg {
            Register8Bit::A => self.a = value,
            Register8Bit::B => self.b = value,
            Register8Bit::C => self.c = value,
            Register8Bit::D => self.d = value,
            Register8Bit::E => self.e = value,
            Register8Bit::H => self.h = value,
            Register8Bit::L => self.l = value,
        }
    }
}

} // verus!
