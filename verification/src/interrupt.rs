//! The interrupt controller: a requested-flags byte and an enabled-flags
//! byte, five significant lines, priority by ascending bit position.

use vstd::prelude::*;

verus! {

/// The five interrupt lines, in priority order (VBlank highest).
#[derive(Clone, Copy, Debug, PartialEq, Eq, Structural)]
pub enum Interrupt {
    VBlank,
    LCDC,
    Timer,
    SerialIOComplete,
    Joypad,
}

/// The bit position of an interrupt line in the request and enable bytes.
pub open spec fn spec_interrupt_index(i: Interrupt) -> u8 {
    match i {
        Interrupt::VBlank => 0,
        Interrupt::LCDC => 1,
        Interrupt::Timer => 2,
        Interrupt::SerialIOComplete => 3,
        Interrupt::Joypad => 4,
    }
}

impl Interrupt {
    pub fn index(&self) -> (i: u8)
        ensures
            i == spec_interrupt_index(*self),
    {
        match *self {
            Interrupt::VBlank => 0,
            Interrupt::LCDC => 1,
            Interrupt::Timer => 2,
            Interrupt::SerialIOComplete => 3,
            Interrupt::Joypad => 4,
        }
    }
}

/// The interrupt controller state: the memory-mapped request byte and
/// enable byte.
#[derive(Clone, Copy, Debug, PartialEq, Eq, Structural)]
pub struct InterruptHandler {
    pub flag: u8,
    pub enable: u8,
}

/// The controller after one line is signalled: the line's bit is set in the
/// request byte.
pub open spec fn spec_set_interrupt(ih: InterruptHandler, i: Interrupt) -> InterruptHandler {
    InterruptHandler { flag: ih.flag | (1u8 << spec_interrupt_index(i)), ..ih }
}

/// The lines that are both requested and enabled, restricted to the five
/// significant bits.
pub open spec fn spec_enabled_flags(ih: InterruptHandler) -> u8 {
    ih.flag & ih.enable & 0x1F
}

impl InterruptHandler {
    pub fn new() -> (r: InterruptHandler)
        ensures
            r == (InterruptHandler { flag: 0x00, enable: 0x00 }),
    {
        InterruptHandler { flag: 0x00, enable: 0x00 }
    }

    pub fn get_flag(&self) -> (v: u8)
        ensures
            v == self.flag,
    {
        self.flag
    }

    pub fn set_flag(&mut self, value: u8)
        ensures
            *final(self) == (InterruptHandler { flag: value, ..*old(self) }),
    {
        self.flag = value;
    }

    pub fn get_enable(&self) -> (v: u8)
        ensures
            v == self.enable,
    {
        self.enable
    }

    pub fn set_enable(&mut self, value: u8)
        ensures
            *final(self) == (InterruptHandler { enable: value, ..*old(self) }),
    {
        self.enable = value;
    }

    /// Signal one interrupt line: set its bit in the request byte.
    pub fn set_interrupt(&mut self, interrupt: Interrupt)
        ensures
            *final(self) == spec_set_interrupt(*old(self), interrupt),
    {
        let idx = interrupt.index();
        self.flag = self.flag | (1u8 << idx);
    }

    /// The lines that are both requested and enabled.
    pub fn get_enabled_flags(&self) -> (v: u8)
        ensures
            v == spec_enabled_flags(*self),
    {
        self.flag & self.enable & 0x1F
    }
}

} // verus!
