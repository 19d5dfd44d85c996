//! The CPU: the fetch-decode-execute engine over the primary and extended
//! opcode tables, the interrupt-enable state machine, and the stack.
//!
//! Every instruction's effect is a function of the machine state, written
//! down as a specification; each executable helper is proved to realize it.

use vstd::prelude::*;
use crate::interrupt::{InterruptHandler, spec_enabled_flags};
use crate::mmu::{MMU, MmuV, spec_bus_read, spec_bus_write, spec_mmu_tick};
use crate::registers::{Flags, Register16Bit, Register8Bit, Registers, spec_get_u16, spec_get_u8,
    spec_registers_new, spec_set_u16, spec_set_u8};
use crate::registers::Register8Bit::{A, B, C, D, E, H, L};
use crate::registers::Register16Bit::{AF, BC, DE, HL, SP};

verus! {

/// Addition on the 16-bit address wheel.
pub open spec fn spec_wadd16(x: u16, y: u16) -> u16 {
    if x + y > 0xFFFF {
        (x + y - 0x10000) as u16
    } else {
        (x + y) as u16
    }
}

/// Subtraction on the 16-bit address wheel.
pub open spec fn spec_wsub16(x: u16, y: u16) -> u16 {
    if x - y < 0 {
        (x - y + 0x10000) as u16
    } else {
        (x - y) as u16
    }
}

/// Addition on the byte wheel.
pub open spec fn spec_wadd8(x: u8, y: u8) -> u8 {
    if x + y > 0xFF {
        (x + y - 0x100) as u8
    } else {
        (x + y) as u8
    }
}

/// Subtraction on the byte wheel.
pub open spec fn spec_wsub8(x: u8, y: u8) -> u8 {
    if x - y < 0 {
        (x - y + 0x100) as u8
    } else {
        (x - y) as u8
    }
}

/// A byte offset sign-extended to sixteen bits.
pub open spec fn spec_sign_extend(n: u8) -> u16 {
    if n < 0x80 {
        n as u16
    } else {
        (n + 0xFF00) as u16
    }
}

/// The interrupt-enable state machine: the enable instruction takes effect
/// only after the next instruction completes.
#[derive(Clone, Copy, Debug, PartialEq, Eq, Structural)]
pub enum InterruptStatus {
    Disabled,
    Enabling,
    Enabled,
}

/// The condition field of conditional jumps, calls, and returns.
#[derive(Clone, Copy, Debug, PartialEq, Eq, Structural)]
pub enum Condition {
    NOTZERO,
    ZERO,
    NOTCARRY,
    CARRY,
}

/// Whether a condition holds of a flag set.
pub open spec fn spec_condition_check(cond: Condition, f: Flags) -> bool {
    match cond {
        Condition::NOTZERO => !f.zero,
        Condition::ZERO => f.zero,
        Condition::NOTCARRY => !f.carry,
        Condition::CARRY => f.carry,
    }
}

impl Condition {
    pub fn check(&self, flags: Flags) -> (r: bool)
        ensures
            r == spec_condition_check(*self, flags),
    {
        match *self {
            Condition::NOTZERO => !flags.zero,
            Condition::ZERO => flags.zero,
            Condition::NOTCARRY => !flags.carry,
            Condition::CARRY => flags.carry,
        }
    }
}

/// The fatal decode error: an unrecognized opcode, with the address it was
/// fetched from.
#[derive(Clone, Copy, Debug, PartialEq, Eq, Structural)]
pub struct UnknownOpcode {
    pub opcode: u8,
    pub addr: u16,
}

/// The CPU state: the register file, the interrupt-enable state machine,
/// and the halt latch.
#[derive(Clone, Copy, Debug, PartialEq, Eq, Structural)]
pub struct CPU {
    pub r: Registers,
    pub interrupt_state: InterruptStatus,
    pub halted: bool,
}

/// The eight memory-indirection operand modes.
#[derive(Clone, Copy, Debug, PartialEq, Eq, Structural)]
pub enum Address {
    BC,
    DE,
    HL,
    HLD,
    HLI,
    NextU16,
    HighRAM,
    HighRAMC,
}

/// The immediate-byte operand: the byte at the program counter.
#[derive(Clone, Copy, Debug, PartialEq, Eq, Structural)]
pub struct NextU8;

/// The immediate-word operand: the little-endian word at the program
/// counter.
#[derive(Clone, Copy, Debug, PartialEq, Eq, Structural)]
pub struct NextU16;

/// An operand an 8-bit value can be read from. `spec_read8` is the exact
/// effect: the value, and the machine state after the read.
pub trait ReadU8: Sized + Copy {
    spec fn spec_read8(self, c: CPU, m: MmuV) -> (u8, CPU, MmuV);

    fn read_u8(&self, cpu: &mut CPU, mmu: &mut MMU) -> (v: u8)
        requires
            old(mmu).wf(),
        ensures
            final(mmu).wf(),
            (v, *final(cpu), final(mmu)@) == (*self).spec_read8(*old(cpu), old(mmu)@),
    ;
}

/// An operand an 8-bit value can be written to.
pub trait WriteU8: Sized + Copy {
    spec fn spec_write8(self, c: CPU, m: MmuV, value: u8) -> (CPU, MmuV);

    fn write_u8(&self, cpu: &mut CPU, mmu: &mut MMU, value: u8)
        requires
            old(mmu).wf(),
        ensures
            final(mmu).wf(),
            (*final(cpu), final(mmu)@) == (*self).spec_write8(*old(cpu), old(mmu)@, value),
    ;
}

/// An operand a 16-bit value can be read from.
pub trait ReadU16: Sized + Copy {
    spec fn spec_read16(self, c: CPU, m: MmuV) -> (u16, CPU, MmuV);

    fn read_u16(&self, cpu: &mut CPU, mmu: &mut MMU) -> (v: u16)
        requires
            old(mmu).wf(),
        ensures
            final(mmu).wf(),
            (v, *final(cpu), final(mmu)@) == (*self).spec_read16(*old(cpu), old(mmu)@),
    ;
}

/// An operand a 16-bit value can be written to.
pub trait WriteU16: Sized + Copy {
    spec fn spec_write16(self, c: CPU, m: MmuV, value: u16) -> (CPU, MmuV);

    fn write_u16(&self, cpu: &mut CPU, mmu: &mut MMU, value: u16)
        requires
            old(mmu).wf(),
        ensures
            final(mmu).wf(),
            (*final(cpu), final(mmu)@) == (*self).spec_write16(*old(cpu), old(mmu)@, value),
    ;
}

/// Fetching the byte at the program counter, advancing it.
pub open spec fn spec_next_u8(c: CPU, m: MmuV) -> (u8, CPU, MmuV) {
    let addr = c.r.pc;
    let c1 = CPU { r: Registers { pc: spec_wadd16(addr, 1), ..c.r }, ..c };
    let (v, m1) = spec_bus_read(m, addr);
    (v, c1, m1)
}

/// Fetching the little-endian word at the program counter, advancing it.
pub open spec fn spec_next_u16(c: CPU, m: MmuV) -> (u16, CPU, MmuV) {
    let (lo, c1, m1) = spec_next_u8(c, m);
    let (hi, c2, m2) = spec_next_u8(c1, m1);
    ((hi * 0x100 + lo) as u16, c2, m2)
}

/// Pushing one byte: the stack pointer moves down, then the byte is stored
/// at it.
pub open spec fn spec_push_u8(c: CPU, m: MmuV, value: u8) -> (CPU, MmuV) {
    let sp = spec_wsub16(c.r.sp, 1);
    let c1 = CPU { r: Registers { sp, ..c.r }, ..c };
    (c1, spec_bus_write(m, sp, value))
}

/// Pushing one word: high byte first, then low, so the word sits
/// little-endian in memory.
pub open spec fn spec_push_u16(c: CPU, m: MmuV, value: u16) -> (CPU, MmuV) {
    let (c1, m1) = spec_push_u8(c, m, (value / 0x100) as u8);
    spec_push_u8(c1, m1, (value % 0x100) as u8)
}

/// Popping one byte: the byte at the stack pointer, which then moves up.
pub open spec fn spec_pop_u8(c: CPU, m: MmuV) -> (u8, CPU, MmuV) {
    let (v, m1) = spec_bus_read(m, c.r.sp);
    let c1 = CPU { r: Registers { sp: spec_wadd16(c.r.sp, 1), ..c.r }, ..c };
    (v, c1, m1)
}

/// Popping one word: low byte first, then high.
pub open spec fn spec_pop_u16(c: CPU, m: MmuV) -> (u16, CPU, MmuV) {
    let (lo, c1, m1) = spec_pop_u8(c, m);
    let (hi, c2, m2) = spec_pop_u8(c1, m1);
    ((hi * 0x100 + lo) as u16, c2, m2)
}

/// The effective address of an indirection mode, with its side effects: the
/// post-increment and post-decrement modes move HL, and the modes that
/// consume immediate bytes advance the program counter.
pub open spec fn spec_get_address(a: Address, c: CPU, m: MmuV) -> (u16, CPU, MmuV) {
    match a {
        Address::BC => (spec_get_u16(c.r, Register16Bit::BC), c, m),
        Address::DE => (spec_get_u16(c.r, Register16Bit::DE), c, m),
        Address::HL => (spec_get_u16(c.r, Register16Bit::HL), c, m),
        Address::HLD => {
            let addr = spec_get_u16(c.r, Register16Bit::HL);
            (
                addr,
                CPU { r: spec_set_u16(c.r, Register16Bit::HL, spec_wsub16(addr, 1)), ..c },
                m,
            )
        },
        Address::HLI => {
            let addr = spec_get_u16(c.r, Register16Bit::HL);
            (
                addr,
                CPU { r: spec_set_u16(c.r, Register16Bit::HL, spec_wadd16(addr, 1)), ..c },
                m,
            )
        },
        Address::NextU16 => spec_next_u16(c, m),
        Address::HighRAM => {
            let (n, c1, m1) = spec_next_u8(c, m);
            ((0xFF00 + n) as u16, c1, m1)
        },
        Address::HighRAMC => ((0xFF00 + c.r.c) as u16, c, m),
    }
}

/// A call: one internal delay cycle, the return address pushed, the target
/// loaded into the program counter.
pub open spec fn spec_call_address(c: CPU, m: MmuV, addr: u16) -> (CPU, MmuV) {
    let m1 = spec_mmu_tick(m);
    let (c1, m2) = spec_push_u16(c, m1, c.r.pc);
    (CPU { r: Registers { pc: addr, ..c1.r }, ..c1 }, m2)
}

/// A relative jump: one internal delay cycle, then the sign-extended offset
/// added to the program counter.
pub open spec fn spec_jump_relative(c: CPU, m: MmuV, offset: u8) -> (CPU, MmuV) {
    let m1 = spec_mmu_tick(m);
    (CPU { r: Registers { pc: spec_wadd16(c.r.pc, spec_sign_extend(offset)), ..c.r }, ..c }, m1)
}

/// A return: the program counter popped off the stack.
pub open spec fn spec_return_op(c: CPU, m: MmuV) -> (CPU, MmuV) {
    let (addr, c1, m1) = spec_pop_u16(c, m);
    (CPU { r: Registers { pc: addr, ..c1.r }, ..c1 }, m1)
}

impl ReadU8 for Register8Bit {
    open spec fn spec_read8(self, c: CPU, m: MmuV) -> (u8, CPU, MmuV) {
        (spec_get_u8(c.r, self), c, m)
    }

    fn read_u8(&self, cpu: &mut CPU, mmu: &mut MMU) -> (v: u8) {
        cpu.r.get_u8(*self)
    }
}

impl WriteU8 for Register8Bit {
    open spec fn spec_write8(self, c: CPU, m: MmuV, value: u8) -> (CPU, MmuV) {
        (CPU { r: spec_set_u8(c.r, self, value), ..c }, m)
    }

    fn write_u8(&self, cpu: &mut CPU, mmu: &mut MMU, value: u8) {
        cpu.r.set_u8(*self, value);
    }
}

impl ReadU8 for NextU8 {
    open spec fn spec_read8(self, c: CPU, m: MmuV) -> (u8, CPU, MmuV) {
        spec_next_u8(c, m)
    }

    fn read_u8(&self, cpu: &mut CPU, mmu: &mut MMU) -> (v: u8) {
        cpu.next_u8(mmu)
    }
}

impl ReadU16 for NextU16 {
    open spec fn spec_read16(self, c: CPU, m: MmuV) -> (u16, CPU, MmuV) {
        spec_next_u16(c, m)
    }

    fn read_u16(&self, cpu: &mut CPU, mmu: &mut MMU) -> (v: u16) {
        cpu.next_u16(mmu)
    }
}

impl ReadU16 for Register16Bit {
    open spec fn spec_read16(self, c: CPU, m: MmuV) -> (u16, CPU, MmuV) {
        (spec_get_u16(c.r, self), c, m)
    }

    fn read_u16(&self, cpu: &mut CPU, mmu: &mut MMU) -> (v: u16) {
        cpu.r.get_u16(*self)
    }
}

impl WriteU16 for Register16Bit {
    open spec fn spec_write16(self, c: CPU, m: MmuV, value: u16) -> (CPU, MmuV) {
        (CPU { r: spec_set_u16(c.r, self, value), ..c }, m)
    }

    fn write_u16(&self, cpu: &mut CPU, mmu: &mut MMU, value: u16) {
        cpu.r.set_u16(*self, value);
    }
}

impl ReadU8 for Address {
    open spec fn spec_read8(self, c: CPU, m: MmuV) -> (u8, CPU, MmuV) {
        let (addr, c1, m1) = spec_get_address(self, c, m);
        let (v, m2) = spec_bus_read(m1, addr);
        (v, c1, m2)
    }

    fn read_u8(&self, cpu: &mut CPU, mmu: &mut MMU) -> (v: u8) {
        let address = cpu.get_address(mmu, self);
        cpu.read_address(mmu, address)
    }
}

impl WriteU8 for Address {
    open spec fn spec_write8(self, c: CPU, m: MmuV, value: u8) -> (CPU, MmuV) {
        let (addr, c1, m1) = spec_get_address(self, c, m);
        (c1, spec_bus_write(m1, addr, value))
    }

    fn write_u8(&self, cpu: &mut CPU, mmu: &mut MMU, value: u8) {
        let address = cpu.get_address(mmu, self);
        cpu.write_address(mmu, address, value);
    }
}

impl WriteU16 for Address {
    open spec fn spec_write16(self, c: CPU, m: MmuV, value: u16) -> (CPU, MmuV) {
        let (addr, c1, m1) = spec_get_address(self, c, m);
        let m2 = spec_bus_write(m1, addr, (value % 0x100) as u8);
        (c1, spec_bus_write(m2, spec_wadd16(addr, 1), (value / 0x100) as u8))
    }

    #[verifier::rlimit(50)]
    fn write_u16(&self, cpu: &mut CPU, mmu: &mut MMU, value: u16) {
        let address = cpu.get_address(mmu, self);
        let high = (value / 0x100) as u8;
        let low = (value % 0x100) as u8;
        cpu.write_address(mmu, address, low);
        cpu.write_address(mmu, address.wrapping_add(1), high);
    }
}

impl CPU {
    pub fn new() -> (r: CPU)
        ensures
            r == (CPU {
                r: spec_registers_new(),
                interrupt_state: InterruptStatus::Enabled,
                halted: false,
            }),
    {
        CPU { r: Registers::new(), interrupt_state: InterruptStatus::Enabled, halted: false }
    }

    /// Fetch the byte at the program counter and advance it.
    pub fn next_u8(&mut self, mmu: &mut MMU) -> (v: u8)
        requires
            old(mmu).wf(),
        ensures
            final(mmu).wf(),
            (v, *final(self), final(mmu)@) == spec_next_u8(*old(self), old(mmu)@),
    {
        let address = self.r.pc;
        self.r.pc = self.r.pc.wrapping_add(1);
        self.read_address(mmu, address)
    }

    /// Fetch the little-endian word at the program counter and advance it.
    pub fn next_u16(&mut self, mmu: &mut MMU) -> (v: u16)
        requires
            old(mmu).wf(),
        ensures
            final(mmu).wf(),
            (v, *final(self), final(mmu)@) == spec_next_u16(*old(self), old(mmu)@),
    {
        let low = self.next_u8(mmu);
        let high = self.next_u8(mmu);
        (high as u16) * 0x100 + (low as u16)
    }

    /// Push one byte onto the stack.
    pub fn push_u8(&mut self, mmu: &mut MMU, value: u8)
        requires
            old(mmu).wf(),
        ensures
            final(mmu).wf(),
            (*final(self), final(mmu)@) == spec_push_u8(*old(self), old(mmu)@, value),
    {
        self.r.sp = self.r.sp.wrapping_sub(1);
        self.write_address(mmu, self.r.sp, value);
    }

    /// Push one word onto the stack, high byte first.
    pub fn push_u16(&mut self, mmu: &mut MMU, value: u16)
        requires
            old(mmu).wf(),
        ensures
            final(mmu).wf(),
            (*final(self), final(mmu)@) == spec_push_u16(*old(self), old(mmu)@, value),
    {
        self.push_u8(mmu, (value / 0x100) as u8);
        self.push_u8(mmu, (value % 0x100) as u8);
    }

    /// Pop one byte off the stack.
    pub fn pop_u8(&mut self, mmu: &mut MMU) -> (v: u8)
        requires
            old(mmu).wf(),
        ensures
            final(mmu).wf(),
            (v, *final(self), final(mmu)@) == spec_pop_u8(*old(self), old(mmu)@),
    {
        let value = self.read_address(mmu, self.r.sp);
        self.r.sp = self.r.sp.wrapping_add(1);
        value
    }

    /// Pop one word off the stack, low byte first.
    pub fn pop_u16(&mut self, mmu: &mut MMU) -> (v: u16)
        requires
            old(mmu).wf(),
        ensures
            final(mmu).wf(),
            (v, *final(self), final(mmu)@) == spec_pop_u16(*old(self), old(mmu)@),
    {
        let low = self.pop_u8(mmu);
        let high = self.pop_u8(mmu);
        (high as u16) * 0x100 + (low as u16)
    }

    /// The effective address of an indirection mode, applying its side
    /// effects.
    #[verifier::rlimit(50)]
    pub fn get_address(&mut self, mmu: &mut MMU, address: &Address) -> (a: u16)
        requires
            old(mmu).wf(),
        ensures
            final(mmu).wf(),
            (a, *final(self), final(mmu)@) == spec_get_address(*address, *old(self), old(mmu)@),
    {
        match *address {
            Address::BC => self.r.get_u16(Register16Bit::BC),
            Address::DE => self.r.get_u16(Register16Bit::DE),
            Address::HL => self.r.get_u16(Register16Bit::HL),
            Address::HLD => {
                let addr = self.r.get_u16(Register16Bit::HL);
                self.r.set_u16(Register16Bit::HL, addr.wrapping_sub(1));
                addr
            },
            Address::HLI => {
                let addr = self.r.get_u16(Register16Bit::HL);
                self.r.set_u16(Register16Bit::HL, addr.wrapping_add(1));
                addr
            },
            Address::NextU16 => self.next_u16(mmu),
            Address::HighRAM => 0xFF00 + self.next_u8(mmu) as u16,
            Address::HighRAMC => 0xFF00 + self.r.c as u16,
        }
    }

    /// One bus read on behalf of the CPU.
    pub fn read_address(&self, mmu: &mut MMU, address: u16) -> (v: u8)
        requires
            old(mmu).wf(),
        ensures
            final(mmu).wf(),
            (v, final(mmu)@) == spec_bus_read(old(mmu)@, address),
    {
        mmu.read_u8(address)
    }

    /// One bus write on behalf of the CPU.
    pub fn write_address(&self, mmu: &mut MMU, address: u16, value: u8)
        requires
            old(mmu).wf(),
        ensures
            final(mmu).wf(),
            final(mmu)@ == spec_bus_write(old(mmu)@, address, value),
    {
        mmu.write_u8(address, value);
    }

    /// A call to an absolute address.
    pub fn call_address(&mut self, mmu: &mut MMU, address: u16)
        requires
            old(mmu).wf(),
        ensures
            final(mmu).wf(),
            (*final(self), final(mmu)@) == spec_call_address(*old(self), old(mmu)@, address),
    {
        mmu.spin();
        let pc = self.r.pc;
        self.push_u16(mmu, pc);
        self.r.pc = address;
    }

    /// Load the program counter.
    pub fn jump(&mut self, _mmu: &MMU, address: u16)
        ensures
            *final(self) == (CPU { r: Registers { pc: address, ..old(self).r }, ..*old(self) }),
    {
        self.r.pc = address;
    }

    /// A relative jump by a sign-extended byte offset.
    pub fn jump_relative(&mut self, mmu: &mut MMU, offset: u8)
        requires
            old(mmu).wf(),
        ensures
            final(mmu).wf(),
            (*final(self), final(mmu)@) == spec_jump_relative(*old(self), old(mmu)@, offset),
    {
        mmu.spin();
        let target = if offset < 0x80 {
            self.r.pc.wrapping_add(offset as u16)
        } else {
            self.r.pc.wrapping_add(offset as u16).wrapping_add(0xFF00)
        };
        self.r.pc = target;
    }

    /// A return: pop the program counter.
    pub fn return_op(&mut self, mmu: &mut MMU)
        requires
            old(mmu).wf(),
        ensures
            final(mmu).wf(),
            (*final(self), final(mmu)@) == spec_return_op(*old(self), old(mmu)@),
    {
        let address = self.pop_u16(mmu);
        self.r.pc = address;
    }
}


// ---------------------------------------------------------------------------
// Pure arithmetic-logic results: the result byte and the four flags, as the
// documentation's truth tables give them.
// ---------------------------------------------------------------------------

/// Addition: carry out of bit 7, half-carry out of bit 3.
pub open spec fn spec_alu_add(a: u8, v: u8) -> (u8, Flags) {
    let r = spec_wadd8(a, v);
    (
        r,
        Flags {
            zero: r == 0,
            negative: false,
            half_carry: (a % 16) + (v % 16) > 0xF,
            carry: a + v > 0xFF,
        },
    )
}

/// Addition with carry in.
pub open spec fn spec_alu_adc(a: u8, v: u8, carry_in: bool) -> (u8, Flags) {
    let cr: u8 = if carry_in { 1 } else { 0 };
    let r = spec_wadd8(spec_wadd8(a, v), cr);
    (
        r,
        Flags {
            zero: r == 0,
            negative: false,
            half_carry: (a % 16) + (v % 16) + cr > 0xF,
            carry: a + v + cr > 0xFF,
        },
    )
}

/// Subtraction: borrow into bit 7, half-borrow into bit 3.
pub open spec fn spec_alu_sub(a: u8, v: u8) -> (u8, Flags) {
    let r = spec_wsub8(a, v);
    (
        r,
        Flags { zero: r == 0, negative: true, half_carry: (a % 16) < (v % 16), carry: a < v },
    )
}

/// Subtraction with borrow in.
pub open spec fn spec_alu_sbc(a: u8, v: u8, carry_in: bool) -> (u8, Flags) {
    let cr: u8 = if carry_in { 1 } else { 0 };
    let r = spec_wsub8(spec_wsub8(a, v), cr);
    (
        r,
        Flags {
            zero: r == 0,
            negative: true,
            half_carry: (a % 16) < (v % 16) + cr,
            carry: (a as int) < v + cr,
        },
    )
}

/// Bitwise and: sets the half-carry flag.
pub open spec fn spec_alu_and(a: u8, v: u8) -> (u8, Flags) {
    let r = (a & v) as u8;
    (r, Flags { zero: r == 0, negative: false, half_carry: true, carry: false })
}

/// Bitwise or.
pub open spec fn spec_alu_or(a: u8, v: u8) -> (u8, Flags) {
    let r = (a | v) as u8;
    (r, Flags { zero: r == 0, negative: false, half_carry: false, carry: false })
}

/// Bitwise exclusive or.
pub open spec fn spec_alu_xor(a: u8, v: u8) -> (u8, Flags) {
    let r = (a ^ v) as u8;
    (r, Flags { zero: r == 0, negative: false, half_carry: false, carry: false })
}

/// Increment: carry is kept, half-carry out of the low nibble.
pub open spec fn spec_alu_inc(v: u8, f: Flags) -> (u8, Flags) {
    let r = spec_wadd8(v, 1);
    (
        r,
        Flags { zero: r == 0, negative: false, half_carry: v % 16 == 0xF, carry: f.carry },
    )
}

/// Decrement: carry is kept, half-borrow from the low nibble.
pub open spec fn spec_alu_dec(v: u8, f: Flags) -> (u8, Flags) {
    let r = spec_wsub8(v, 1);
    (
        r,
        Flags { zero: r == 0, negative: true, half_carry: v % 16 == 0x0, carry: f.carry },
    )
}

/// Rotate left; bit 7 goes to the carry flag and to bit 0. The zero flag is
/// only reported by the extended-table form.
pub open spec fn spec_alu_rlc(v: u8, cb: bool) -> (u8, Flags) {
    let r = ((v % 128) * 2 + v / 128) as u8;
    (
        r,
        Flags { zero: cb && r == 0, negative: false, half_carry: false, carry: v >= 0x80 },
    )
}

/// Rotate left through carry.
pub open spec fn spec_alu_rl(v: u8, cb: bool, carry_in: bool) -> (u8, Flags) {
    let cr: u8 = if carry_in { 1 } else { 0 };
    let r = ((v % 128) * 2 + cr) as u8;
    (
        r,
        Flags { zero: cb && r == 0, negative: false, half_carry: false, carry: v >= 0x80 },
    )
}

/// Rotate right; bit 0 goes to the carry flag and to bit 7.
pub open spec fn spec_alu_rrc(v: u8, cb: bool) -> (u8, Flags) {
    let r = (v / 2 + (v % 2) * 128) as u8;
    (
        r,
        Flags { zero: cb && r == 0, negative: false, half_carry: false, carry: v % 2 == 1 },
    )
}

/// Rotate right through carry.
pub open spec fn spec_alu_rr(v: u8, cb: bool, carry_in: bool) -> (u8, Flags) {
    let cr: u8 = if carry_in { 1 } else { 0 };
    let r = (v / 2 + cr * 128) as u8;
    (
        r,
        Flags { zero: cb && r == 0, negative: false, half_carry: false, carry: v % 2 == 1 },
    )
}

/// Shift left into the carry flag.
pub open spec fn spec_alu_sla(v: u8) -> (u8, Flags) {
    let r = ((v % 128) * 2) as u8;
    (r, Flags { zero: r == 0, negative: false, half_carry: false, carry: v >= 0x80 })
}

/// Arithmetic shift right: bit 7 is kept.
pub open spec fn spec_alu_sra(v: u8) -> (u8, Flags) {
    let r = if v >= 0x80 {
        (0x80 + v / 2) as u8
    } else {
        (v / 2) as u8
    };
    (r, Flags { zero: r == 0, negative: false, half_carry: false, carry: v % 2 == 1 })
}

/// Logical shift right.
pub open spec fn spec_alu_srl(v: u8) -> (u8, Flags) {
    let r = (v / 2) as u8;
    (r, Flags { zero: r == 0, negative: false, half_carry: false, carry: v % 2 == 1 })
}

/// Swap the nibbles.
pub open spec fn spec_alu_swap(v: u8) -> (u8, Flags) {
    let r = ((v % 16) * 16 + v / 16) as u8;
    (r, Flags { zero: r == 0, negative: false, half_carry: false, carry: false })
}

/// The decimal adjustment after binary addition or subtraction of packed
/// binary-coded-decimal operands: add or subtract 0x06 and 0x60 as the
/// half-carry, carry, and negative flags and the nibble values require.
pub open spec fn spec_alu_daa(a: u8, f: Flags) -> (u8, Flags) {
    if !f.negative {
        let carry = f.carry || a > 0x99;
        let a1 = if carry { spec_wadd8(a, 0x60) } else { a };
        let a2 = if f.half_carry || (a1 % 16) > 0x09 { spec_wadd8(a1, 0x6) } else { a1 };
        (
            a2,
            Flags { zero: a2 == 0, negative: f.negative, half_carry: false, carry },
        )
    } else {
        let a1 = if f.carry { spec_wsub8(a, 0x60) } else { a };
        let a2 = if f.half_carry { spec_wsub8(a1, 0x6) } else { a1 };
        (
            a2,
            Flags { zero: a2 == 0, negative: f.negative, half_carry: false, carry: f.carry },
        )
    }
}

/// The 16-bit addition into HL: half-carry at bit 11, carry at bit 15, the
/// zero flag kept.
pub open spec fn spec_alu_add16(hl: u16, v: u16, f: Flags) -> (u16, Flags) {
    (
        spec_wadd16(hl, v),
        Flags {
            zero: f.zero,
            negative: false,
            half_carry: (hl % 0x800) + (v % 0x800) > 0x7FF,
            carry: hl > 0xFFFF - v,
        },
    )
}

/// The signed-byte addition to the stack pointer: half-carry at bit 3 and
/// carry at bit 7 of the unsigned byte addition, zero and negative clear.
pub open spec fn spec_alu_addsp(sp: u16, n: u8) -> (u16, Flags) {
    let v = spec_sign_extend(n);
    (
        spec_wadd16(sp, v),
        Flags {
            zero: false,
            negative: false,
            half_carry: (sp % 16) + (v % 16) > 0xF,
            carry: (sp % 256) + (v % 256) > 0xFF,
        },
    )
}


// ---------------------------------------------------------------------------
// One specification function per operation kind: the exact machine state
// after the instruction, given the operand modes the opcode binds.
// ---------------------------------------------------------------------------

pub open spec fn spec_op_ld<W: WriteU8, R: ReadU8>(w: W, r: R, c: CPU, m: MmuV) -> (CPU, MmuV) {
    let (v, c1, m1) = r.spec_read8(c, m);
    w.spec_write8(c1, m1, v)
}

pub open spec fn spec_op_add<R: ReadU8>(r: R, c: CPU, m: MmuV) -> (CPU, MmuV) {
    let (v, c1, m1) = r.spec_read8(c, m);
    let (res, f) = spec_alu_add(c1.r.a, v);
    (CPU { r: Registers { a: res, f, ..c1.r }, ..c1 }, m1)
}

pub open spec fn spec_op_adc<R: ReadU8>(r: R, c: CPU, m: MmuV) -> (CPU, MmuV) {
    let (v, c1, m1) = r.spec_read8(c, m);
    let (res, f) = spec_alu_adc(c1.r.a, v, c1.r.f.carry);
    (CPU { r: Registers { a: res, f, ..c1.r }, ..c1 }, m1)
}

pub open spec fn spec_op_sub<R: ReadU8>(r: R, c: CPU, m: MmuV) -> (CPU, MmuV) {
    let (v, c1, m1) = r.spec_read8(c, m);
    let (res, f) = spec_alu_sub(c1.r.a, v);
    (CPU { r: Registers { a: res, f, ..c1.r }, ..c1 }, m1)
}

pub open spec fn spec_op_sbc<R: ReadU8>(r: R, c: CPU, m: MmuV) -> (CPU, MmuV) {
    let (v, c1, m1) = r.spec_read8(c, m);
    let (res, f) = spec_alu_sbc(c1.r.a, v, c1.r.f.carry);
    (CPU { r: Registers { a: res, f, ..c1.r }, ..c1 }, m1)
}

pub open spec fn spec_op_and<R: ReadU8>(r: R, c: CPU, m: MmuV) -> (CPU, MmuV) {
    let (v, c1, m1) = r.spec_read8(c, m);
    let (res, f) = spec_alu_and(c1.r.a, v);
    (CPU { r: Registers { a: res, f, ..c1.r }, ..c1 }, m1)
}

pub open spec fn spec_op_or<R: ReadU8>(r: R, c: CPU, m: MmuV) -> (CPU, MmuV) {
    let (v, c1, m1) = r.spec_read8(c, m);
    let (res, f) = spec_alu_or(c1.r.a, v);
    (CPU { r: Registers { a: res, f, ..c1.r }, ..c1 }, m1)
}

pub open spec fn spec_op_xor<R: ReadU8>(r: R, c: CPU, m: MmuV) -> (CPU, MmuV) {
    let (v, c1, m1) = r.spec_read8(c, m);
    let (res, f) = spec_alu_xor(c1.r.a, v);
    (CPU { r: Registers { a: res, f, ..c1.r }, ..c1 }, m1)
}

pub open spec fn spec_op_cp<R: ReadU8>(r: R, c: CPU, m: MmuV) -> (CPU, MmuV) {
    let (v, c1, m1) = r.spec_read8(c, m);
    let (res, f) = spec_alu_sub(c1.r.a, v);
    (CPU { r: Registers { f, ..c1.r }, ..c1 }, m1)
}

pub open spec fn spec_op_inc<RW: ReadU8 + WriteU8>(rw: RW, c: CPU, m: MmuV) -> (CPU, MmuV) {
    let (v, c1, m1) = rw.spec_read8(c, m);
    let (res, f) = spec_alu_inc(v, c1.r.f);
    rw.spec_write8(CPU { r: Registers { f, ..c1.r }, ..c1 }, m1, res)
}

pub open spec fn spec_op_dec<RW: ReadU8 + WriteU8>(rw: RW, c: CPU, m: MmuV) -> (CPU, MmuV) {
    let (v, c1, m1) = rw.spec_read8(c, m);
    let (res, f) = spec_alu_dec(v, c1.r.f);
    rw.spec_write8(CPU { r: Registers { f, ..c1.r }, ..c1 }, m1, res)
}

pub open spec fn spec_op_rlc<RW: ReadU8 + WriteU8>(rw: RW, cb: bool, c: CPU, m: MmuV) -> (CPU, MmuV) {
    let (v, c1, m1) = rw.spec_read8(c, m);
    let (res, f) = spec_alu_rlc(v, cb);
    rw.spec_write8(CPU { r: Registers { f, ..c1.r }, ..c1 }, m1, res)
}

pub open spec fn spec_op_rl<RW: ReadU8 + WriteU8>(rw: RW, cb: bool, c: CPU, m: MmuV) -> (CPU, MmuV) {
    let (v, c1, m1) = rw.spec_read8(c, m);
    let (res, f) = spec_alu_rl(v, cb, c1.r.f.carry);
    rw.spec_write8(CPU { r: Registers { f, ..c1.r }, ..c1 }, m1, res)
}

pub open spec fn spec_op_rrc<RW: ReadU8 + WriteU8>(rw: RW, cb: bool, c: CPU, m: MmuV) -> (CPU, MmuV) {
    let (v, c1, m1) = rw.spec_read8(c, m);
    let (res, f) = spec_alu_rrc(v, cb);
    rw.spec_write8(CPU { r: Registers { f, ..c1.r }, ..c1 }, m1, res)
}

pub open spec fn spec_op_rr<RW: ReadU8 + WriteU8>(rw: RW, cb: bool, c: CPU, m: MmuV) -> (CPU, MmuV) {
    let (v, c1, m1) = rw.spec_read8(c, m);
    let (res, f) = spec_alu_rr(v, cb, c1.r.f.carry);
    rw.spec_write8(CPU { r: Registers { f, ..c1.r }, ..c1 }, m1, res)
}

pub open spec fn spec_op_sla<RW: ReadU8 + WriteU8>(rw: RW, c: CPU, m: MmuV) -> (CPU, MmuV) {
    let (v, c1, m1) = rw.spec_read8(c, m);
    let (res, f) = spec_alu_sla(v);
    rw.spec_write8(CPU { r: Registers { f, ..c1.r }, ..c1 }, m1, res)
}

pub open spec fn spec_op_sra<RW: ReadU8 + WriteU8>(rw: RW, c: CPU, m: MmuV) -> (CPU, MmuV) {
    let (v, c1, m1) = rw.spec_read8(c, m);
    let (res, f) = spec_alu_sra(v);
    rw.spec_write8(CPU { r: Registers { f, ..c1.r }, ..c1 }, m1, res)
}

pub open spec fn spec_op_srl<RW: ReadU8 + WriteU8>(rw: RW, c: CPU, m: MmuV) -> (CPU, MmuV) {
    let (v, c1, m1) = rw.spec_read8(c, m);
    let (res, f) = spec_alu_srl(v);
    rw.spec_write8(CPU { r: Registers { f, ..c1.r }, ..c1 }, m1, res)
}

pub open spec fn spec_op_swap<RW: ReadU8 + WriteU8>(rw: RW, c: CPU, m: MmuV) -> (CPU, MmuV) {
    let (v, c1, m1) = rw.spec_read8(c, m);
    let (res, f) = spec_alu_swap(v);
    rw.spec_write8(CPU { r: Registers { f, ..c1.r }, ..c1 }, m1, res)
}

pub open spec fn spec_op_bit<R: ReadU8>(b: u8, r: R, c: CPU, m: MmuV) -> (CPU, MmuV) {
    let (v, c1, m1) = r.spec_read8(c, m);
    let f = Flags {
        zero: v & (1u8 << b) == 0,
        negative: false,
        half_carry: true,
        carry: c1.r.f.carry,
    };
    (CPU { r: Registers { f, ..c1.r }, ..c1 }, m1)
}

pub open spec fn spec_op_set<RW: ReadU8 + WriteU8>(b: u8, rw: RW, c: CPU, m: MmuV) -> (CPU, MmuV) {
    let (v, c1, m1) = rw.spec_read8(c, m);
    rw.spec_write8(c1, m1, (v | (1u8 << b)) as u8)
}

pub open spec fn spec_op_res<RW: ReadU8 + WriteU8>(b: u8, rw: RW, c: CPU, m: MmuV) -> (CPU, MmuV) {
    let (v, c1, m1) = rw.spec_read8(c, m);
    rw.spec_write8(c1, m1, (v & !(1u8 << b)) as u8)
}

pub open spec fn spec_op_daa(c: CPU, m: MmuV) -> (CPU, MmuV) {
    let (res, f) = spec_alu_daa(c.r.a, c.r.f);
    (CPU { r: Registers { a: res, f, ..c.r }, ..c }, m)
}

pub open spec fn spec_op_cpl(c: CPU, m: MmuV) -> (CPU, MmuV) {
    let f = Flags { zero: c.r.f.zero, negative: true, half_carry: true, carry: c.r.f.carry };
    (CPU { r: Registers { a: !c.r.a, f, ..c.r }, ..c }, m)
}

pub open spec fn spec_op_ccf(c: CPU, m: MmuV) -> (CPU, MmuV) {
    let f = Flags { zero: c.r.f.zero, negative: false, half_carry: false, carry: !c.r.f.carry };
    (CPU { r: Registers { f, ..c.r }, ..c }, m)
}

pub open spec fn spec_op_scf(c: CPU, m: MmuV) -> (CPU, MmuV) {
    let f = Flags { zero: c.r.f.zero, negative: false, half_carry: false, carry: true };
    (CPU { r: Registers { f, ..c.r }, ..c }, m)
}

pub open spec fn spec_op_halt(c: CPU, m: MmuV) -> (CPU, MmuV) {
    (CPU { halted: true, ..c }, m)
}

pub open spec fn spec_op_stop(c: CPU, m: MmuV) -> (CPU, MmuV) {
    let (n, c1, m1) = spec_next_u8(CPU { halted: true, ..c }, m);
    (c1, m1)
}

pub open spec fn spec_op_di(c: CPU, m: MmuV) -> (CPU, MmuV) {
    (CPU { interrupt_state: InterruptStatus::Disabled, ..c }, m)
}

pub open spec fn spec_op_ei(c: CPU, m: MmuV) -> (CPU, MmuV) {
    let s = match c.interrupt_state {
        InterruptStatus::Disabled => InterruptStatus::Enabling,
        _ => c.interrupt_state,
    };
    (CPU { interrupt_state: s, ..c }, m)
}

pub open spec fn spec_op_jp<R: ReadU16>(r: R, c: CPU, m: MmuV) -> (CPU, MmuV) {
    let (addr, c1, m1) = r.spec_read16(c, m);
    let m2 = spec_mmu_tick(m1);
    (CPU { r: Registers { pc: addr, ..c1.r }, ..c1 }, m2)
}

pub open spec fn spec_op_jp_hl<R: ReadU16>(r: R, c: CPU, m: MmuV) -> (CPU, MmuV) {
    let (addr, c1, m1) = r.spec_read16(c, m);
    (CPU { r: Registers { pc: addr, ..c1.r }, ..c1 }, m1)
}

pub open spec fn spec_op_jr(c: CPU, m: MmuV) -> (CPU, MmuV) {
    let (off, c1, m1) = spec_next_u8(c, m);
    spec_jump_relative(c1, m1, off)
}

pub open spec fn spec_op_call(c: CPU, m: MmuV) -> (CPU, MmuV) {
    let (addr, c1, m1) = spec_next_u16(c, m);
    spec_call_address(c1, m1, addr)
}

pub open spec fn spec_op_rst(addr: u8, c: CPU, m: MmuV) -> (CPU, MmuV) {
    spec_call_address(c, m, addr as u16)
}

pub open spec fn spec_op_ret(c: CPU, m: MmuV) -> (CPU, MmuV) {
    spec_return_op(c, m)
}

pub open spec fn spec_op_jp_conditional(cond: Condition, c: CPU, m: MmuV) -> (CPU, MmuV) {
    let (addr, c1, m1) = spec_next_u16(c, m);
    if spec_condition_check(cond, c1.r.f) {
        let m2 = spec_mmu_tick(m1);
        (CPU { r: Registers { pc: addr, ..c1.r }, ..c1 }, m2)
    } else {
        (c1, m1)
    }
}

pub open spec fn spec_op_jr_conditional(cond: Condition, c: CPU, m: MmuV) -> (CPU, MmuV) {
    let (off, c1, m1) = spec_next_u8(c, m);
    if spec_condition_check(cond, c1.r.f) {
        spec_jump_relative(c1, m1, off)
    } else {
        (c1, m1)
    }
}

pub open spec fn spec_op_call_conditional(cond: Condition, c: CPU, m: MmuV) -> (CPU, MmuV) {
    let (addr, c1, m1) = spec_next_u16(c, m);
    if spec_condition_check(cond, c1.r.f) {
        spec_call_address(c1, m1, addr)
    } else {
        (c1, m1)
    }
}

pub open spec fn spec_op_ret_conditional(cond: Condition, c: CPU, m: MmuV) -> (CPU, MmuV) {
    let m1 = spec_mmu_tick(m);
    if spec_condition_check(cond, c.r.f) {
        spec_return_op(c, m1)
    } else {
        (c, m1)
    }
}

pub open spec fn spec_op_reti(c: CPU, m: MmuV) -> (CPU, MmuV) {
    spec_return_op(CPU { interrupt_state: InterruptStatus::Enabling, ..c }, m)
}

pub open spec fn spec_op_ld16<W: WriteU16, R: ReadU16>(w: W, r: R, c: CPU, m: MmuV) -> (CPU, MmuV) {
    let (v, c1, m1) = r.spec_read16(c, m);
    w.spec_write16(c1, m1, v)
}

pub open spec fn spec_op_ld16_sp_n(c: CPU, m: MmuV) -> (CPU, MmuV) {
    let sp = c.r.sp;
    let (n, c1, m1) = spec_next_u8(c, m);
    let m2 = spec_mmu_tick(m1);
    let (res, f) = spec_alu_addsp(sp, n);
    (CPU { r: spec_set_u16(Registers { f, ..c1.r }, Register16Bit::HL, res), ..c1 }, m2)
}

pub open spec fn spec_op_push16<R: ReadU16>(r: R, c: CPU, m: MmuV) -> (CPU, MmuV) {
    let (v, c1, m1) = r.spec_read16(c, m);
    let m2 = spec_mmu_tick(m1);
    spec_push_u16(c1, m2, v)
}

pub open spec fn spec_op_pop16<W: WriteU16>(w: W, c: CPU, m: MmuV) -> (CPU, MmuV) {
    let (v, c1, m1) = spec_pop_u16(c, m);
    w.spec_write16(c1, m1, v)
}

pub open spec fn spec_op_inc16<RW: ReadU16 + WriteU16>(rw: RW, c: CPU, m: MmuV) -> (CPU, MmuV) {
    let (v, c1, m1) = rw.spec_read16(c, m);
    let m2 = spec_mmu_tick(m1);
    rw.spec_write16(c1, m2, spec_wadd16(v, 1))
}

pub open spec fn spec_op_dec16<RW: ReadU16 + WriteU16>(rw: RW, c: CPU, m: MmuV) -> (CPU, MmuV) {
    let (v, c1, m1) = rw.spec_read16(c, m);
    let m2 = spec_mmu_tick(m1);
    rw.spec_write16(c1, m2, spec_wsub16(v, 1))
}

pub open spec fn spec_op_add16_hl<R: ReadU16>(r: R, c: CPU, m: MmuV) -> (CPU, MmuV) {
    let hl = spec_get_u16(c.r, Register16Bit::HL);
    let (v, c1, m1) = r.spec_read16(c, m);
    let m2 = spec_mmu_tick(m1);
    let (res, f) = spec_alu_add16(hl, v, c1.r.f);
    (CPU { r: spec_set_u16(Registers { f, ..c1.r }, Register16Bit::HL, res), ..c1 }, m2)
}

pub open spec fn spec_op_add16_sp(c: CPU, m: MmuV) -> (CPU, MmuV) {
    let sp = c.r.sp;
    let (n, c1, m1) = spec_next_u8(c, m);
    let m2 = spec_mmu_tick(m1);
    let (res, f) = spec_alu_addsp(sp, n);
    (CPU { r: Registers { sp: res, f, ..c1.r }, ..c1 }, m2)
}

/// The lowest set bit position of the five interrupt lines.
pub open spec fn spec_lowest_bit(v: u8) -> u8 {
    if v % 2 == 1 {
        0
    } else if (v / 2) % 2 == 1 {
        1
    } else if (v / 4) % 2 == 1 {
        2
    } else if (v / 8) % 2 == 1 {
        3
    } else {
        4
    }
}

/// The fixed handler address of an interrupt line.
pub open spec fn spec_interrupt_vector(idx: u8) -> u16 {
    (0x40 + 8 * idx) as u16
}

/// Servicing an interrupt: the highest-priority enabled and requested line
/// has its request bit cleared, dispatch is disabled, the return address is
/// pushed (with the internal delay a call costs), the program counter is
/// loaded with the line's vector, and the halt latch clears.
pub open spec fn spec_handle_interrupt(c: CPU, m: MmuV) -> (CPU, MmuV) {
    let idx = spec_lowest_bit(spec_enabled_flags(m.intr));
    let addr = spec_interrupt_vector(idx);
    let m1 = MmuV {
        intr: InterruptHandler { flag: (m.intr.flag & !(1u8 << idx)) as u8, ..m.intr },
        ..m
    };
    let c1 = CPU { interrupt_state: InterruptStatus::Disabled, ..c };
    let (c2, m2) = spec_call_address(c1, m1, addr);
    (CPU { halted: false, ..c2 }, m2)
}

impl CPU {

    /// Move an 8-bit value from the source operand to the destination.
    pub fn ld<W: WriteU8, R: ReadU8>(&mut self, mmu: &mut MMU, w: W, r: R)
        requires
            old(mmu).wf(),
        ensures
            final(mmu).wf(),
            (*final(self), final(mmu)@) == spec_op_ld(w, r, *old(self), old(mmu)@),
    {
        let value = r.read_u8(self, mmu);
        w.write_u8(self, mmu, value);
    }

    /// Add the operand to the accumulator.
    pub fn add<R: ReadU8>(&mut self, mmu: &mut MMU, r: R)
        requires
            old(mmu).wf(),
        ensures
            final(mmu).wf(),
            (*final(self), final(mmu)@) == spec_op_add(r, *old(self), old(mmu)@),
    {
        let value = r.read_u8(self, mmu);
        let a = self.r.a;
        let result = a.wrapping_add(value);
        self.r.f = Flags {
            zero: result == 0,
            negative: false,
            half_carry: (a % 16) + (value % 16) > 0xF,
            carry: a as u16 + value as u16 > 0xFF,
        };
        self.r.a = result;
    }

    /// Add the operand and the carry flag to the accumulator.
    #[verifier::rlimit(100)]
    pub fn adc<R: ReadU8>(&mut self, mmu: &mut MMU, r: R)
        requires
            old(mmu).wf(),
        ensures
            final(mmu).wf(),
            (*final(self), final(mmu)@) == spec_op_adc(r, *old(self), old(mmu)@),
    {
        let value = r.read_u8(self, mmu);
        let a = self.r.a;
        let carried: u8 = if self.r.f.carry {
            1
        } else {
            0
        };
        let result = a.wrapping_add(value).wrapping_add(carried);
        self.r.f = Flags {
            zero: result == 0,
            negative: false,
            half_carry: (a % 16) + (value % 16) + carried > 0xF,
            carry: a as u16 + value as u16 + carried as u16 > 0xFF,
        };
        self.r.a = result;
    }

    /// Subtract the operand from the accumulator.
    pub fn sub<R: ReadU8>(&mut self, mmu: &mut MMU, r: R)
        requires
            old(mmu).wf(),
        ensures
            final(mmu).wf(),
            (*final(self), final(mmu)@) == spec_op_sub(r, *old(self), old(mmu)@),
    {
        let value = r.read_u8(self, mmu);
        let a = self.r.a;
        let result = a.wrapping_sub(value);
        self.r.f = Flags {
            zero: result == 0,
            negative: true,
            half_carry: (a % 16) < (value % 16),
            carry: a < value,
        };
        self.r.a = result;
    }

    /// Subtract the operand and the carry flag from the accumulator.
    #[verifier::rlimit(100)]
    pub fn sbc<R: ReadU8>(&mut self, mmu: &mut MMU, r: R)
        requires
            old(mmu).wf(),
        ensures
            final(mmu).wf(),
            (*final(self), final(mmu)@) == spec_op_sbc(r, *old(self), old(mmu)@),
    {
        let value = r.read_u8(self, mmu);
        let a = self.r.a;
        let carried: u8 = if self.r.f.carry {
            1
        } else {
            0
        };
        let result = a.wrapping_sub(value).wrapping_sub(carried);
        self.r.f = Flags {
            zero: result == 0,
            negative: true,
            half_carry: (a % 16) < (value % 16) + carried,
            carry: (a as u16) < value as u16 + carried as u16,
        };
        self.r.a = result;
    }

    /// Bitwise-and the operand into the accumulator.
    pub fn and<R: ReadU8>(&mut self, mmu: &mut MMU, r: R)
        requires
            old(mmu).wf(),
        ensures
            final(mmu).wf(),
            (*final(self), final(mmu)@) == spec_op_and(r, *old(self), old(mmu)@),
    {
        let value = r.read_u8(self, mmu);
        let result = self.r.a & value;
        self.r.f = Flags { zero: result == 0, negative: false, half_carry: true, carry: false };
        self.r.a = result;
    }

    /// Bitwise-or the operand into the accumulator.
    pub fn or<R: ReadU8>(&mut self, mmu: &mut MMU, r: R)
        requires
            old(mmu).wf(),
        ensures
            final(mmu).wf(),
            (*final(self), final(mmu)@) == spec_op_or(r, *old(self), old(mmu)@),
    {
        let value = r.read_u8(self, mmu);
        let result = self.r.a | value;
        self.r.f = Flags { zero: result == 0, negative: false, half_carry: false, carry: false };
        self.r.a = result;
    }

    /// Bitwise-exclusive-or the operand into the accumulator.
    pub fn xor<R: ReadU8>(&mut self, mmu: &mut MMU, r: R)
        requires
            old(mmu).wf(),
        ensures
            final(mmu).wf(),
            (*final(self), final(mmu)@) == spec_op_xor(r, *old(self), old(mmu)@),
    {
        let value = r.read_u8(self, mmu);
        let result = self.r.a ^ value;
        self.r.f = Flags { zero: result == 0, negative: false, half_carry: false, carry: false };
        self.r.a = result;
    }

    /// Compare the operand against the accumulator: subtraction flags
    /// without storing the result.
    pub fn cp<R: ReadU8>(&mut self, mmu: &mut MMU, r: R)
        requires
            old(mmu).wf(),
        ensures
            final(mmu).wf(),
            (*final(self), final(mmu)@) == spec_op_cp(r, *old(self), old(mmu)@),
    {
        let value = r.read_u8(self, mmu);
        let a = self.r.a;
        let result = a.wrapping_sub(value);
        self.r.f = Flags {
            zero: result == 0,
            negative: true,
            half_carry: (a % 16) < (value % 16),
            carry: a < value,
        };
    }

    /// Increment the operand in place; the carry flag is kept.
    pub fn inc<RW: ReadU8 + WriteU8>(&mut self, mmu: &mut MMU, rw: RW)
        requires
            old(mmu).wf(),
        ensures
            final(mmu).wf(),
            (*final(self), final(mmu)@) == spec_op_inc(rw, *old(self), old(mmu)@),
    {
        let value = rw.read_u8(self, mmu);
        let new_value = value.wrapping_add(1);
        self.r.f = Flags {
            zero: new_value == 0,
            negative: false,
            half_carry: value % 16 == 0xF,
            carry: self.r.f.carry,
        };
        rw.write_u8(self, mmu, new_value);
    }

    /// Decrement the operand in place; the carry flag is kept.
    pub fn dec<RW: ReadU8 + WriteU8>(&mut self, mmu: &mut MMU, rw: RW)
        requires
            old(mmu).wf(),
        ensures
            final(mmu).wf(),
            (*final(self), final(mmu)@) == spec_op_dec(rw, *old(self), old(mmu)@),
    {
        let value = rw.read_u8(self, mmu);
        let new_value = value.wrapping_sub(1);
        self.r.f = Flags {
            zero: new_value == 0,
            negative: true,
            half_carry: value % 16 == 0x0,
            carry: self.r.f.carry,
        };
        rw.write_u8(self, mmu, new_value);
    }

    /// Rotate the operand left; bit 7 enters both the carry flag and bit 0.
    pub fn rlc<RW: ReadU8 + WriteU8>(&mut self, mmu: &mut MMU, rw: RW, cb: bool)
        requires
            old(mmu).wf(),
        ensures
            final(mmu).wf(),
            (*final(self), final(mmu)@) == spec_op_rlc(rw, cb, *old(self), old(mmu)@),
    {
        let value = rw.read_u8(self, mmu);
        let new_value = (value % 128) * 2 + value / 128;
        self.r.f = Flags {
            zero: cb && new_value == 0,
            negative: false,
            half_carry: false,
            carry: value >= 0x80,
        };
        rw.write_u8(self, mmu, new_value);
    }

    /// Rotate the operand left through the carry flag.
    pub fn rl<RW: ReadU8 + WriteU8>(&mut self, mmu: &mut MMU, rw: RW, cb: bool)
        requires
            old(mmu).wf(),
        ensures
            final(mmu).wf(),
            (*final(self), final(mmu)@) == spec_op_rl(rw, cb, *old(self), old(mmu)@),
    {
        let value = rw.read_u8(self, mmu);
        let prev_carried: u8 = if self.r.f.carry {
            1
        } else {
            0
        };
        let new_value = (value % 128) * 2 + prev_carried;
        self.r.f = Flags {
            zero: cb && new_value == 0,
            negative: false,
            half_carry: false,
            carry: value >= 0x80,
        };
        rw.write_u8(self, mmu, new_value);
    }

    /// Rotate the operand right; bit 0 enters both the carry flag and bit 7.
    pub fn rrc<RW: ReadU8 + WriteU8>(&mut self, mmu: &mut MMU, rw: RW, cb: bool)
        requires
            old(mmu).wf(),
        ensures
            final(mmu).wf(),
            (*final(self), final(mmu)@) == spec_op_rrc(rw, cb, *old(self), old(mmu)@),
    {
        let value = rw.read_u8(self, mmu);
        let new_value = value / 2 + (value % 2) * 128;
        self.r.f = Flags {
            zero: cb && new_value == 0,
            negative: false,
            half_carry: false,
            carry: value % 2 == 1,
        };
        rw.write_u8(self, mmu, new_value);
    }

    /// Rotate the operand right through the carry flag.
    pub fn rr<RW: ReadU8 + WriteU8>(&mut self, mmu: &mut MMU, rw: RW, cb: bool)
        requires
            old(mmu).wf(),
        ensures
            final(mmu).wf(),
            (*final(self), final(mmu)@) == spec_op_rr(rw, cb, *old(self), old(mmu)@),
    {
        let value = rw.read_u8(self, mmu);
        let prev_carried: u8 = if self.r.f.carry {
            1
        } else {
            0
        };
        let new_value = value / 2 + prev_carried * 128;
        self.r.f = Flags {
            zero: cb && new_value == 0,
            negative: false,
            half_carry: false,
            carry: value % 2 == 1,
        };
        rw.write_u8(self, mmu, new_value);
    }

    /// Shift the operand left into the carry flag.
    pub fn sla<RW: ReadU8 + WriteU8>(&mut self, mmu: &mut MMU, rw: RW)
        requires
            old(mmu).wf(),
        ensures
            final(mmu).wf(),
            (*final(self), final(mmu)@) == spec_op_sla(rw, *old(self), old(mmu)@),
    {
        let value = rw.read_u8(self, mmu);
        let new_value = (value % 128) * 2;
        self.r.f = Flags {
            zero: new_value == 0,
            negative: false,
            half_carry: false,
            carry: value >= 0x80,
        };
        rw.write_u8(self, mmu, new_value);
    }

    /// Shift the operand right arithmetically, keeping bit 7.
    pub fn sra<RW: ReadU8 + WriteU8>(&mut self, mmu: &mut MMU, rw: RW)
        requires
            old(mmu).wf(),
        ensures
            final(mmu).wf(),
            (*final(self), final(mmu)@) == spec_op_sra(rw, *old(self), old(mmu)@),
    {
        let value = rw.read_u8(self, mmu);
        let new_value = if value >= 0x80 {
            0x80 + value / 2
        } else {
            value / 2
        };
        self.r.f = Flags {
            zero: new_value == 0,
            negative: false,
            half_carry: false,
            carry: value % 2 == 1,
        };
        rw.write_u8(self, mmu, new_value);
    }

    /// Shift the operand right logically.
    pub fn srl<RW: ReadU8 + WriteU8>(&mut self, mmu: &mut MMU, rw: RW)
        requires
            old(mmu).wf(),
        ensures
            final(mmu).wf(),
            (*final(self), final(mmu)@) == spec_op_srl(rw, *old(self), old(mmu)@),
    {
        let value = rw.read_u8(self, mmu);
        let new_value = value / 2;
        self.r.f = Flags {
            zero: new_value == 0,
            negative: false,
            half_carry: false,
            carry: value % 2 == 1,
        };
        rw.write_u8(self, mmu, new_value);
    }

    /// Swap the operand's nibbles.
    pub fn swap<RW: ReadU8 + WriteU8>(&mut self, mmu: &mut MMU, rw: RW)
        requires
            old(mmu).wf(),
        ensures
            final(mmu).wf(),
            (*final(self), final(mmu)@) == spec_op_swap(rw, *old(self), old(mmu)@),
    {
        let value = rw.read_u8(self, mmu);
        let new_value = (value % 16) * 16 + value / 16;
        self.r.f = Flags {
            zero: new_value == 0,
            negative: false,
            half_carry: false,
            carry: false,
        };
        rw.write_u8(self, mmu, new_value);
    }

    /// Test one bit of the operand into the zero flag.
    pub fn bit<R: ReadU8>(&mut self, mmu: &mut MMU, bit: u8, r: R)
        requires
            old(mmu).wf(),
            bit < 8,
        ensures
            final(mmu).wf(),
            (*final(self), final(mmu)@) == spec_op_bit(bit, r, *old(self), old(mmu)@),
    {
        let value = r.read_u8(self, mmu);
        self.r.f = Flags {
            zero: value & (1u8 << bit) == 0,
            negative: false,
            half_carry: true,
            carry: self.r.f.carry,
        };
    }

    /// Set one bit of the operand.
    pub fn set<RW: ReadU8 + WriteU8>(&mut self, mmu: &mut MMU, bit: u8, rw: RW)
        requires
            old(mmu).wf(),
            bit < 8,
        ensures
            final(mmu).wf(),
            (*final(self), final(mmu)@) == spec_op_set(bit, rw, *old(self), old(mmu)@),
    {
        let value = rw.read_u8(self, mmu);
        let new_value = value | (1u8 << bit);
        rw.write_u8(self, mmu, new_value);
    }

    /// Clear one bit of the operand.
    pub fn res<RW: ReadU8 + WriteU8>(&mut self, mmu: &mut MMU, bit: u8, rw: RW)
        requires
            old(mmu).wf(),
            bit < 8,
        ensures
            final(mmu).wf(),
            (*final(self), final(mmu)@) == spec_op_res(bit, rw, *old(self), old(mmu)@),
    {
        let value = rw.read_u8(self, mmu);
        let new_value = value & !(1u8 << bit);
        rw.write_u8(self, mmu, new_value);
    }

    /// Decimal-adjust the accumulator after binary-coded-decimal
    /// arithmetic.
    #[verifier::rlimit(100)]
    pub fn daa(&mut self, _mmu: &MMU)
        ensures
            (*final(self), _mmu@) == spec_op_daa(*old(self), _mmu@),
    {
        let mut a = self.r.a;
        let negative = self.r.f.negative;
        let half_carry = self.r.f.half_carry;
        let mut carry = self.r.f.carry;
        if !negative {
            if carry || a > 0x99 {
                a = a.wrapping_add(0x60);
                carry = true;
            }
            if half_carry || (a % 16) > 0x09 {
                a = a.wrapping_add(0x6);
            }
        } else {
            if carry {
                a = a.wrapping_sub(0x60);
            }
            if half_carry {
                a = a.wrapping_sub(0x6);
            }
        }
        self.r.f = Flags { zero: a == 0, negative, half_carry: false, carry };
        self.r.a = a;
    }

    /// Complement the accumulator.
    pub fn cpl(&mut self, _mmu: &MMU)
        ensures
            (*final(self), _mmu@) == spec_op_cpl(*old(self), _mmu@),
    {
        self.r.a = !self.r.a;
        self.r.f = Flags {
            zero: self.r.f.zero,
            negative: true,
            half_carry: true,
            carry: self.r.f.carry,
        };
    }

    /// Complement the carry flag.
    pub fn ccf(&mut self, _mmu: &MMU)
        ensures
            (*final(self), _mmu@) == spec_op_ccf(*old(self), _mmu@),
    {
        self.r.f = Flags {
            zero: self.r.f.zero,
            negative: false,
            half_carry: false,
            carry: !self.r.f.carry,
        };
    }

    /// Set the carry flag.
    pub fn scf(&mut self, _mmu: &MMU)
        ensures
            (*final(self), _mmu@) == spec_op_scf(*old(self), _mmu@),
    {
        self.r.f = Flags {
            zero: self.r.f.zero,
            negative: false,
            half_carry: false,
            carry: true,
        };
    }

    /// Latch the halt state; peripherals keep advancing while halted.
    pub fn halt(&mut self, _mmu: &MMU)
        ensures
            (*final(self), _mmu@) == spec_op_halt(*old(self), _mmu@),
    {
        self.halted = true;
    }

    /// Halt and consume the following byte, as the stop instruction does.
    pub fn stop(&mut self, mmu: &mut MMU)
        requires
            old(mmu).wf(),
        ensures
            final(mmu).wf(),
            (*final(self), final(mmu)@) == spec_op_stop(*old(self), old(mmu)@),
    {
        self.halted = true;
        let _skipped = self.next_u8(mmu);
    }

    /// Disable interrupt dispatch immediately.
    pub fn di(&mut self, _mmu: &MMU)
        ensures
            (*final(self), _mmu@) == spec_op_di(*old(self), _mmu@),
    {
        self.interrupt_state = InterruptStatus::Disabled;
    }

    /// Request interrupt dispatch; it takes effect only after the next
    /// instruction completes.
    pub fn ei(&mut self, _mmu: &MMU)
        ensures
            (*final(self), _mmu@) == spec_op_ei(*old(self), _mmu@),
    {
        self.interrupt_state = match self.interrupt_state {
            InterruptStatus::Disabled => InterruptStatus::Enabling,
            _ => self.interrupt_state,
        };
    }


    /// Jump to an absolute address, with one internal delay cycle.
    pub fn jp<R: ReadU16>(&mut self, mmu: &mut MMU, r: R)
        requires
            old(mmu).wf(),
        ensures
            final(mmu).wf(),
            (*final(self), final(mmu)@) == spec_op_jp(r, *old(self), old(mmu)@),
    {
        let address = r.read_u16(self, mmu);
        mmu.spin();
        self.jump(mmu, address);
    }

    /// Jump to the address in a register pair, with no delay cycle.
    pub fn jp_hl<R: ReadU16>(&mut self, mmu: &mut MMU, r: R)
        requires
            old(mmu).wf(),
        ensures
            final(mmu).wf(),
            (*final(self), final(mmu)@) == spec_op_jp_hl(r, *old(self), old(mmu)@),
    {
        let address = r.read_u16(self, mmu);
        self.jump(mmu, address);
    }

    /// Jump by a signed immediate offset.
    pub fn jr(&mut self, mmu: &mut MMU)
        requires
            old(mmu).wf(),
        ensures
            final(mmu).wf(),
            (*final(self), final(mmu)@) == spec_op_jr(*old(self), old(mmu)@),
    {
        let offset = self.next_u8(mmu);
        self.jump_relative(mmu, offset);
    }

    /// Call an immediate absolute address.
    pub fn call(&mut self, mmu: &mut MMU)
        requires
            old(mmu).wf(),
        ensures
            final(mmu).wf(),
            (*final(self), final(mmu)@) == spec_op_call(*old(self), old(mmu)@),
    {
        let address = self.next_u16(mmu);
        self.call_address(mmu, address);
    }

    /// Call a fixed restart vector.
    pub fn rst(&mut self, mmu: &mut MMU, address: u8)
        requires
            old(mmu).wf(),
        ensures
            final(mmu).wf(),
            (*final(self), final(mmu)@) == spec_op_rst(address, *old(self), old(mmu)@),
    {
        self.call_address(mmu, address as u16);
    }

    /// Return to the address on the stack.
    pub fn ret(&mut self, mmu: &mut MMU)
        requires
            old(mmu).wf(),
        ensures
            final(mmu).wf(),
            (*final(self), final(mmu)@) == spec_op_ret(*old(self), old(mmu)@),
    {
        self.return_op(mmu);
    }

    /// Jump to an immediate address when the condition holds; the delay
    /// cycle is spent only on a taken jump.
    pub fn jp_conditional(&mut self, mmu: &mut MMU, condition: Condition)
        requires
            old(mmu).wf(),
        ensures
            final(mmu).wf(),
            (*final(self), final(mmu)@) == spec_op_jp_conditional(condition, *old(self), old(mmu)@),
    {
        let address = self.next_u16(mmu);
        if condition.check(self.r.f) {
            mmu.spin();
            self.jump(mmu, address);
        }
    }

    /// Jump by a signed immediate offset when the condition holds.
    pub fn jr_conditional(&mut self, mmu: &mut MMU, condition: Condition)
        requires
            old(mmu).wf(),
        ensures
            final(mmu).wf(),
            (*final(self), final(mmu)@) == spec_op_jr_conditional(condition, *old(self), old(mmu)@),
    {
        let offset = self.next_u8(mmu);
        if condition.check(self.r.f) {
            self.jump_relative(mmu, offset);
        }
    }

    /// Call an immediate address when the condition holds.
    pub fn call_conditional(&mut self, mmu: &mut MMU, condition: Condition)
        requires
            old(mmu).wf(),
        ensures
            final(mmu).wf(),
            (*final(self), final(mmu)@) == spec_op_call_conditional(condition, *old(self), old(mmu)@),
    {
        let address = self.next_u16(mmu);
        if condition.check(self.r.f) {
            self.call_address(mmu, address);
        }
    }

    /// Return when the condition holds; the test itself costs one cycle.
    pub fn ret_conditional(&mut self, mmu: &mut MMU, condition: Condition)
        requires
            old(mmu).wf(),
        ensures
            final(mmu).wf(),
            (*final(self), final(mmu)@) == spec_op_ret_conditional(condition, *old(self), old(mmu)@),
    {
        mmu.spin();
        if condition.check(self.r.f) {
            self.return_op(mmu);
        }
    }

    /// Return and request interrupt dispatch again.
    pub fn reti(&mut self, mmu: &mut MMU)
        requires
            old(mmu).wf(),
        ensures
            final(mmu).wf(),
            (*final(self), final(mmu)@) == spec_op_reti(*old(self), old(mmu)@),
    {
        self.interrupt_state = InterruptStatus::Enabling;
        self.return_op(mmu);
    }

    /// Move a 16-bit value from the source operand to the destination.
    pub fn ld16<W: WriteU16, R: ReadU16>(&mut self, mmu: &mut MMU, w: W, r: R)
        requires
            old(mmu).wf(),
        ensures
            final(mmu).wf(),
            (*final(self), final(mmu)@) == spec_op_ld16(w, r, *old(self), old(mmu)@),
    {
        let value = r.read_u16(self, mmu);
        w.write_u16(self, mmu, value);
    }

    /// Load HL with the stack pointer plus a signed immediate offset.
    #[verifier::rlimit(100)]
    pub fn ld16_sp_n(&mut self, mmu: &mut MMU)
        requires
            old(mmu).wf(),
        ensures
            final(mmu).wf(),
            (*final(self), final(mmu)@) == spec_op_ld16_sp_n(*old(self), old(mmu)@),
    {
        let sp = self.r.get_u16(Register16Bit::SP);
        let n = self.next_u8(mmu);
        let value: u16 = if n < 0x80 {
            n as u16
        } else {
            n as u16 + 0xFF00
        };
        mmu.spin();
        let result = sp.wrapping_add(value);
        self.r.f = Flags {
            zero: false,
            negative: false,
            half_carry: (sp % 16) + (value % 16) > 0xF,
            carry: (sp % 256) + (value % 256) > 0xFF,
        };
        self.r.set_u16(Register16Bit::HL, result);
    }

    /// Push a 16-bit operand onto the stack, with one delay cycle.
    pub fn push16<R: ReadU16>(&mut self, mmu: &mut MMU, r: R)
        requires
            old(mmu).wf(),
        ensures
            final(mmu).wf(),
            (*final(self), final(mmu)@) == spec_op_push16(r, *old(self), old(mmu)@),
    {
        let value = r.read_u16(self, mmu);
        mmu.spin();
        self.push_u16(mmu, value);
    }

    /// Pop a 16-bit value off the stack into the destination operand.
    pub fn pop16<W: WriteU16>(&mut self, mmu: &mut MMU, w: W)
        requires
            old(mmu).wf(),
        ensures
            final(mmu).wf(),
            (*final(self), final(mmu)@) == spec_op_pop16(w, *old(self), old(mmu)@),
    {
        let value = self.pop_u16(mmu);
        w.write_u16(self, mmu, value);
    }

    /// Increment a 16-bit operand, with one delay cycle and no flags.
    pub fn inc16<RW: ReadU16 + WriteU16>(&mut self, mmu: &mut MMU, rw: RW)
        requires
            old(mmu).wf(),
        ensures
            final(mmu).wf(),
            (*final(self), final(mmu)@) == spec_op_inc16(rw, *old(self), old(mmu)@),
    {
        let value = rw.read_u16(self, mmu);
        let new_value = value.wrapping_add(1);
        mmu.spin();
        rw.write_u16(self, mmu, new_value);
    }

    /// Decrement a 16-bit operand, with one delay cycle and no flags.
    pub fn dec16<RW: ReadU16 + WriteU16>(&mut self, mmu: &mut MMU, rw: RW)
        requires
            old(mmu).wf(),
        ensures
            final(mmu).wf(),
            (*final(self), final(mmu)@) == spec_op_dec16(rw, *old(self), old(mmu)@),
    {
        let value = rw.read_u16(self, mmu);
        let new_value = value.wrapping_sub(1);
        mmu.spin();
        rw.write_u16(self, mmu, new_value);
    }

    /// Add a 16-bit operand into HL; half-carry at bit 11, carry at bit 15.
    #[verifier::rlimit(100)]
    pub fn add16_hl<R: ReadU16>(&mut self, mmu: &mut MMU, r: R)
        requires
            old(mmu).wf(),
        ensures
            final(mmu).wf(),
            (*final(self), final(mmu)@) == spec_op_add16_hl(r, *old(self), old(mmu)@),
    {
        let hl = self.r.get_u16(Register16Bit::HL);
        let value = r.read_u16(self, mmu);
        mmu.spin();
        let new_value = hl.wrapping_add(value);
        self.r.f = Flags {
            zero: self.r.f.zero,
            negative: false,
            half_carry: (hl % 0x800) + (value % 0x800) > 0x7FF,
            carry: hl > 0xFFFF - value,
        };
        self.r.set_u16(Register16Bit::HL, new_value);
    }

    /// Add a signed immediate offset to the stack pointer.
    #[verifier::rlimit(100)]
    pub fn add16_sp(&mut self, mmu: &mut MMU)
        requires
            old(mmu).wf(),
        ensures
            final(mmu).wf(),
            (*final(self), final(mmu)@) == spec_op_add16_sp(*old(self), old(mmu)@),
    {
        let sp = self.r.get_u16(Register16Bit::SP);
        let n = self.next_u8(mmu);
        let value: u16 = if n < 0x80 {
            n as u16
        } else {
            n as u16 + 0xFF00
        };
        mmu.spin();
        let result = sp.wrapping_add(value);
        self.r.f = Flags {
            zero: false,
            negative: false,
            half_carry: (sp % 16) + (value % 16) > 0xF,
            carry: (sp % 256) + (value % 256) > 0xFF,
        };
        self.r.set_u16(Register16Bit::SP, result);
    }

    /// Service the highest-priority enabled and requested interrupt.
    pub fn handle_interrupt(&mut self, mmu: &mut MMU)
        requires
            old(mmu).wf(),
        ensures
            final(mmu).wf(),
            (*final(self), final(mmu)@) == spec_handle_interrupt(*old(self), old(mmu)@),
    {
        let interrupt_enabled_flagged = mmu.interrupt.get_enabled_flags();
        let interrupt = lowest_set_bit(interrupt_enabled_flagged);
        let address: u16 = 0x40 + 8 * interrupt as u16;

        let flag = mmu.interrupt.get_flag();
        mmu.interrupt.set_flag(flag & !(1u8 << interrupt));
        self.interrupt_state = InterruptStatus::Disabled;

        self.call_address(mmu, address);
        self.halted = false;
    }
}

/// The lowest set bit position of an interrupt line set (the five
/// significant bits; four when none is set).
pub fn lowest_set_bit(v: u8) -> (b: u8)
    ensures
        b == spec_lowest_bit(v),
        b <= 4,
{
    if v % 2 == 1 {
        0
    } else if (v / 2) % 2 == 1 {
        1
    } else if (v / 4) % 2 == 1 {
        2
    } else if (v / 8) % 2 == 1 {
        3
    } else {
        4
    }
}


/// Wrap a defined-dispatch result.
pub open spec fn spec_ok3(t: (CPU, MmuV)) -> (CPU, MmuV, bool) {
    (t.0, t.1, true)
}

/// The effect of a primary-table opcode in the 0x00-0x3F range, with a
/// flag that is false exactly on the table's holes.
#[verifier::opaque]
pub open spec fn spec_dispatch_p0(op: u8, c: CPU, m: MmuV) -> (CPU, MmuV, bool) {
    if op == 0x00 {
        (c, m, true)
    } else if op == 0x01 {
        spec_ok3(spec_op_ld16(BC, NextU16, c, m))
    } else if op == 0x02 {
        spec_ok3(spec_op_ld(Address::BC, A, c, m))
    } else if op == 0x03 {
        spec_ok3(spec_op_inc16(BC, c, m))
    } else if op == 0x04 {
        spec_ok3(spec_op_inc(B, c, m))
    } else if op == 0x05 {
        spec_ok3(spec_op_dec(B, c, m))
    } else if op == 0x06 {
        spec_ok3(spec_op_ld(B, NextU8, c, m))
    } else if op == 0x07 {
        spec_ok3(spec_op_rlc(A, false, c, m))
    } else if op == 0x08 {
        spec_ok3(spec_op_ld16(Address::NextU16, SP, c, m))
    } else if op == 0x09 {
        spec_ok3(spec_op_add16_hl(BC, c, m))
    } else if op == 0x0A {
        spec_ok3(spec_op_ld(A, Address::BC, c, m))
    } else if op == 0x0B {
        spec_ok3(spec_op_dec16(BC, c, m))
    } else if op == 0x0C {
        spec_ok3(spec_op_inc(C, c, m))
    } else if op == 0x0D {
        spec_ok3(spec_op_dec(C, c, m))
    } else if op == 0x0E {
        spec_ok3(spec_op_ld(C, NextU8, c, m))
    } else if op == 0x0F {
        spec_ok3(spec_op_rrc(A, false, c, m))
    } else if op == 0x10 {
        spec_ok3(spec_op_stop(c, m))
    } else if op == 0x11 {
        spec_ok3(spec_op_ld16(DE, NextU16, c, m))
    } else if op == 0x12 {
        spec_ok3(spec_op_ld(Address::DE, A, c, m))
    } else if op == 0x13 {
        spec_ok3(spec_op_inc16(DE, c, m))
    } else if op == 0x14 {
        spec_ok3(spec_op_inc(D, c, m))
    } else if op == 0x15 {
        spec_ok3(spec_op_dec(D, c, m))
    } else if op == 0x16 {
        spec_ok3(spec_op_ld(D, NextU8, c, m))
    } else if op == 0x17 {
        spec_ok3(spec_op_rl(A, false, c, m))
    } else if op == 0x18 {
        spec_ok3(spec_op_jr(c, m))
    } else if op == 0x19 {
        spec_ok3(spec_op_add16_hl(DE, c, m))
    } else if op == 0x1A {
        spec_ok3(spec_op_ld(A, Address::DE, c, m))
    } else if op == 0x1B {
        spec_ok3(spec_op_dec16(DE, c, m))
    } else if op == 0x1C {
        spec_ok3(spec_op_inc(E, c, m))
    } else if op == 0x1D {
        spec_ok3(spec_op_dec(E, c, m))
    } else if op == 0x1E {
        spec_ok3(spec_op_ld(E, NextU8, c, m))
    } else if op == 0x1F {
        spec_ok3(spec_op_rr(A, false, c, m))
    } else if op == 0x20 {
        spec_ok3(spec_op_jr_conditional(Condition::NOTZERO, c, m))
    } else if op == 0x21 {
        spec_ok3(spec_op_ld16(HL, NextU16, c, m))
    } else if op == 0x22 {
        spec_ok3(spec_op_ld(Address::HLI, A, c, m))
    } else if op == 0x23 {
        spec_ok3(spec_op_inc16(HL, c, m))
    } else if op == 0x24 {
        spec_ok3(spec_op_inc(H, c, m))
    } else if op == 0x25 {
        spec_ok3(spec_op_dec(H, c, m))
    } else if op == 0x26 {
        spec_ok3(spec_op_ld(H, NextU8, c, m))
    } else if op == 0x27 {
        spec_ok3(spec_op_daa(c, m))
    } else if op == 0x28 {
        spec_ok3(spec_op_jr_conditional(Condition::ZERO, c, m))
    } else if op == 0x29 {
        spec_ok3(spec_op_add16_hl(HL, c, m))
    } else if op == 0x2A {
        spec_ok3(spec_op_ld(A, Address::HLI, c, m))
    } else if op == 0x2B {
        spec_ok3(spec_op_dec16(HL, c, m))
    } else if op == 0x2C {
        spec_ok3(spec_op_inc(L, c, m))
    } else if op == 0x2D {
        spec_ok3(spec_op_dec(L, c, m))
    } else if op == 0x2E {
        spec_ok3(spec_op_ld(L, NextU8, c, m))
    } else if op == 0x2F {
        spec_ok3(spec_op_cpl(c, m))
    } else if op == 0x30 {
        spec_ok3(spec_op_jr_conditional(Condition::NOTCARRY, c, m))
    } else if op == 0x31 {
        spec_ok3(spec_op_ld16(SP, NextU16, c, m))
    } else if op == 0x32 {
        spec_ok3(spec_op_ld(Address::HLD, A, c, m))
    } else if op == 0x33 {
        spec_ok3(spec_op_inc16(SP, c, m))
    } else if op == 0x34 {
        spec_ok3(spec_op_inc(Address::HL, c, m))
    } else if op == 0x35 {
        spec_ok3(spec_op_dec(Address::HL, c, m))
    } else if op == 0x36 {
        spec_ok3(spec_op_ld(Address::HL, NextU8, c, m))
    } else if op == 0x37 {
        spec_ok3(spec_op_scf(c, m))
    } else if op == 0x38 {
        spec_ok3(spec_op_jr_conditional(Condition::CARRY, c, m))
    } else if op == 0x39 {
        spec_ok3(spec_op_add16_hl(SP, c, m))
    } else if op == 0x3A {
        spec_ok3(spec_op_ld(A, Address::HLD, c, m))
    } else if op == 0x3B {
        spec_ok3(spec_op_dec16(SP, c, m))
    } else if op == 0x3C {
        spec_ok3(spec_op_inc(A, c, m))
    } else if op == 0x3D {
        spec_ok3(spec_op_dec(A, c, m))
    } else if op == 0x3E {
        spec_ok3(spec_op_ld(A, NextU8, c, m))
    } else if op == 0x3F {
        spec_ok3(spec_op_ccf(c, m))
    } else {
        (c, m, false)
    }
}

/// The effect of a primary-table opcode in the 0x40-0x7F range, with a
/// flag that is false exactly on the table's holes.
#[verifier::opaque]
pub open spec fn spec_dispatch_p1(op: u8, c: CPU, m: MmuV) -> (CPU, MmuV, bool) {
    if op == 0x40 {
        spec_ok3(spec_op_ld(B, B, c, m))
    } else if op == 0x41 {
        spec_ok3(spec_op_ld(B, C, c, m))
    } else if op == 0x42 {
        spec_ok3(spec_op_ld(B, D, c, m))
    } else if op == 0x43 {
        spec_ok3(spec_op_ld(B, E, c, m))
    } else if op == 0x44 {
        spec_ok3(spec_op_ld(B, H, c, m))
    } else if op == 0x45 {
        spec_ok3(spec_op_ld(B, L, c, m))
    } else if op == 0x46 {
        spec_ok3(spec_op_ld(B, Address::HL, c, m))
    } else if op == 0x47 {
        spec_ok3(spec_op_ld(B, A, c, m))
    } else if op == 0x48 {
        spec_ok3(spec_op_ld(C, B, c, m))
    } else if op == 0x49 {
        spec_ok3(spec_op_ld(C, C, c, m))
    } else if op == 0x4A {
        spec_ok3(spec_op_ld(C, D, c, m))
    } else if op == 0x4B {
        spec_ok3(spec_op_ld(C, E, c, m))
    } else if op == 0x4C {
        spec_ok3(spec_op_ld(C, H, c, m))
    } else if op == 0x4D {
        spec_ok3(spec_op_ld(C, L, c, m))
    } else if op == 0x4E {
        spec_ok3(spec_op_ld(C, Address::HL, c, m))
    } else if op == 0x4F {
        spec_ok3(spec_op_ld(C, A, c, m))
    } else if op == 0x50 {
        spec_ok3(spec_op_ld(D, B, c, m))
    } else if op == 0x51 {
        spec_ok3(spec_op_ld(D, C, c, m))
    } else if op == 0x52 {
        spec_ok3(spec_op_ld(D, D, c, m))
    } else if op == 0x53 {
        spec_ok3(spec_op_ld(D, E, c, m))
    } else if op == 0x54 {
        spec_ok3(spec_op_ld(D, H, c, m))
    } else if op == 0x55 {
        spec_ok3(spec_op_ld(D, L, c, m))
    } else if op == 0x56 {
        spec_ok3(spec_op_ld(D, Address::HL, c, m))
    } else if op == 0x57 {
        spec_ok3(spec_op_ld(D, A, c, m))
    } else if op == 0x58 {
        spec_ok3(spec_op_ld(E, B, c, m))
    } else if op == 0x59 {
        spec_ok3(spec_op_ld(E, C, c, m))
    } else if op == 0x5A {
        spec_ok3(spec_op_ld(E, D, c, m))
    } else if op == 0x5B {
        spec_ok3(spec_op_ld(E, E, c, m))
    } else if op == 0x5C {
        spec_ok3(spec_op_ld(E, H, c, m))
    } else if op == 0x5D {
        spec_ok3(spec_op_ld(E, L, c, m))
    } else if op == 0x5E {
        spec_ok3(spec_op_ld(E, Address::HL, c, m))
    } else if op == 0x5F {
        spec_ok3(spec_op_ld(E, A, c, m))
    } else if op == 0x60 {
        spec_ok3(spec_op_ld(H, B, c, m))
    } else if op == 0x61 {
        spec_ok3(spec_op_ld(H, C, c, m))
    } else if op == 0x62 {
        spec_ok3(spec_op_ld(H, D, c, m))
    } else if op == 0x63 {
        spec_ok3(spec_op_ld(H, E, c, m))
    } else if op == 0x64 {
        spec_ok3(spec_op_ld(H, H, c, m))
    } else if op == 0x65 {
        spec_ok3(spec_op_ld(H, L, c, m))
    } else if op == 0x66 {
        spec_ok3(spec_op_ld(H, Address::HL, c, m))
    } else if op == 0x67 {
        spec_ok3(spec_op_ld(H, A, c, m))
    } else if op == 0x68 {
        spec_ok3(spec_op_ld(L, B, c, m))
    } else if op == 0x69 {
        spec_ok3(spec_op_ld(L, C, c, m))
    } else if op == 0x6A {
        spec_ok3(spec_op_ld(L, D, c, m))
    } else if op == 0x6B {
        spec_ok3(spec_op_ld(L, E, c, m))
    } else if op == 0x6C {
        spec_ok3(spec_op_ld(L, H, c, m))
    } else if op == 0x6D {
        spec_ok3(spec_op_ld(L, L, c, m))
    } else if op == 0x6E {
        spec_ok3(spec_op_ld(L, Address::HL, c, m))
    } else if op == 0x6F {
        spec_ok3(spec_op_ld(L, A, c, m))
    } else if op == 0x70 {
        spec_ok3(spec_op_ld(Address::HL, B, c, m))
    } else if op == 0x71 {
        spec_ok3(spec_op_ld(Address::HL, C, c, m))
    } else if op == 0x72 {
        spec_ok3(spec_op_ld(Address::HL, D, c, m))
    } else if op == 0x73 {
        spec_ok3(spec_op_ld(Address::HL, E, c, m))
    } else if op == 0x74 {
        spec_ok3(spec_op_ld(Address::HL, H, c, m))
    } else if op == 0x75 {
        spec_ok3(spec_op_ld(Address::HL, L, c, m))
    } else if op == 0x76 {
        spec_ok3(spec_op_halt(c, m))
    } else if op == 0x77 {
        spec_ok3(spec_op_ld(Address::HL, A, c, m))
    } else if op == 0x78 {
        spec_ok3(spec_op_ld(A, B, c, m))
    } else if op == 0x79 {
        spec_ok3(spec_op_ld(A, C, c, m))
    } else if op == 0x7A {
        spec_ok3(spec_op_ld(A, D, c, m))
    } else if op == 0x7B {
        spec_ok3(spec_op_ld(A, E, c, m))
    } else if op == 0x7C {
        spec_ok3(spec_op_ld(A, H, c, m))
    } else if op == 0x7D {
        spec_ok3(spec_op_ld(A, L, c, m))
    } else if op == 0x7E {
        spec_ok3(spec_op_ld(A, Address::HL, c, m))
    } else if op == 0x7F {
        spec_ok3(spec_op_ld(A, A, c, m))
    } else {
        (c, m, false)
    }
}

/// The effect of a primary-table opcode in the 0x80-0xBF range, with a
/// flag that is false exactly on the table's holes.
#[verifier::opaque]
pub open spec fn spec_dispatch_p2(op: u8, c: CPU, m: MmuV) -> (CPU, MmuV, bool) {
    if op == 0x80 {
        spec_ok3(spec_op_add(B, c, m))
    } else if op == 0x81 {
        spec_ok3(spec_op_add(C, c, m))
    } else if op == 0x82 {
        spec_ok3(spec_op_add(D, c, m))
    } else if op == 0x83 {
        spec_ok3(spec_op_add(E, c, m))
    } else if op == 0x84 {
        spec_ok3(spec_op_add(H, c, m))
    } else if op == 0x85 {
        spec_ok3(spec_op_add(L, c, m))
    } else if op == 0x86 {
        spec_ok3(spec_op_add(Address::HL, c, m))
    } else if op == 0x87 {
        spec_ok3(spec_op_add(A, c, m))
    } else if op == 0x88 {
        spec_ok3(spec_op_adc(B, c, m))
    } else if op == 0x89 {
        spec_ok3(spec_op_adc(C, c, m))
    } else if op == 0x8A {
        spec_ok3(spec_op_adc(D, c, m))
    } else if op == 0x8B {
        spec_ok3(spec_op_adc(E, c, m))
    } else if op == 0x8C {
        spec_ok3(spec_op_adc(H, c, m))
    } else if op == 0x8D {
        spec_ok3(spec_op_adc(L, c, m))
    } else if op == 0x8E {
        spec_ok3(spec_op_adc(Address::HL, c, m))
    } else if op == 0x8F {
        spec_ok3(spec_op_adc(A, c, m))
    } else if op == 0x90 {
        spec_ok3(spec_op_sub(B, c, m))
    } else if op == 0x91 {
        spec_ok3(spec_op_sub(C, c, m))
    } else if op == 0x92 {
        spec_ok3(spec_op_sub(D, c, m))
    } else if op == 0x93 {
        spec_ok3(spec_op_sub(E, c, m))
    } else if op == 0x94 {
        spec_ok3(spec_op_sub(H, c, m))
    } else if op == 0x95 {
        spec_ok3(spec_op_sub(L, c, m))
    } else if op == 0x96 {
        spec_ok3(spec_op_sub(Address::HL, c, m))
    } else if op == 0x97 {
        spec_ok3(spec_op_sub(A, c, m))
    } else if op == 0x98 {
        spec_ok3(spec_op_sbc(B, c, m))
    } else if op == 0x99 {
        spec_ok3(spec_op_sbc(C, c, m))
    } else if op == 0x9A {
        spec_ok3(spec_op_sbc(D, c, m))
    } else if op == 0x9B {
        spec_ok3(spec_op_sbc(E, c, m))
    } else if op == 0x9C {
        spec_ok3(spec_op_sbc(H, c, m))
    } else if op == 0x9D {
        spec_ok3(spec_op_sbc(L, c, m))
    } else if op == 0x9E {
        spec_ok3(spec_op_sbc(Address::HL, c, m))
    } else if op == 0x9F {
        spec_ok3(spec_op_sbc(A, c, m))
    } else if op == 0xA0 {
        spec_ok3(spec_op_and(B, c, m))
    } else if op == 0xA1 {
        spec_ok3(spec_op_and(C, c, m))
    } else if op == 0xA2 {
        spec_ok3(spec_op_and(D, c, m))
    } else if op == 0xA3 {
        spec_ok3(spec_op_and(E, c, m))
    } else if op == 0xA4 {
        spec_ok3(spec_op_and(H, c, m))
    } else if op == 0xA5 {
        spec_ok3(spec_op_and(L, c, m))
    } else if op == 0xA6 {
        spec_ok3(spec_op_and(Address::HL, c, m))
    } else if op == 0xA7 {
        spec_ok3(spec_op_and(A, c, m))
    } else if op == 0xA8 {
        spec_ok3(spec_op_xor(B, c, m))
    } else if op == 0xA9 {
        spec_ok3(spec_op_xor(C, c, m))
    } else if op == 0xAA {
        spec_ok3(spec_op_xor(D, c, m))
    } else if op == 0xAB {
        spec_ok3(spec_op_xor(E, c, m))
    } else if op == 0xAC {
        spec_ok3(spec_op_xor(H, c, m))
    } else if op == 0xAD {
        spec_ok3(spec_op_xor(L, c, m))
    } else if op == 0xAE {
        spec_ok3(spec_op_xor(Address::HL, c, m))
    } else if op == 0xAF {
        spec_ok3(spec_op_xor(A, c, m))
    } else if op == 0xB0 {
        spec_ok3(spec_op_or(B, c, m))
    } else if op == 0xB1 {
        spec_ok3(spec_op_or(C, c, m))
    } else if op == 0xB2 {
        spec_ok3(spec_op_or(D, c, m))
    } else if op == 0xB3 {
        spec_ok3(spec_op_or(E, c, m))
    } else if op == 0xB4 {
        spec_ok3(spec_op_or(H, c, m))
    } else if op == 0xB5 {
        spec_ok3(spec_op_or(L, c, m))
    } else if op == 0xB6 {
        spec_ok3(spec_op_or(Address::HL, c, m))
    } else if op == 0xB7 {
        spec_ok3(spec_op_or(A, c, m))
    } else if op == 0xB8 {
        spec_ok3(spec_op_cp(B, c, m))
    } else if op == 0xB9 {
        spec_ok3(spec_op_cp(C, c, m))
    } else if op == 0xBA {
        spec_ok3(spec_op_cp(D, c, m))
    } else if op == 0xBB {
        spec_ok3(spec_op_cp(E, c, m))
    } else if op == 0xBC {
        spec_ok3(spec_op_cp(H, c, m))
    } else if op == 0xBD {
        spec_ok3(spec_op_cp(L, c, m))
    } else if op == 0xBE {
        spec_ok3(spec_op_cp(Address::HL, c, m))
    } else if op == 0xBF {
        spec_ok3(spec_op_cp(A, c, m))
    } else {
        (c, m, false)
    }
}

/// The effect of a primary-table opcode in the 0xC0-0xFF range, with a
/// flag that is false exactly on the table's holes.
#[verifier::opaque]
pub open spec fn spec_dispatch_p3(op: u8, c: CPU, m: MmuV) -> (CPU, MmuV, bool) {
    if op == 0xC0 {
        spec_ok3(spec_op_ret_conditional(Condition::NOTZERO, c, m))
    } else if op == 0xC1 {
        spec_ok3(spec_op_pop16(BC, c, m))
    } else if op == 0xC2 {
        spec_ok3(spec_op_jp_conditional(Condition::NOTZERO, c, m))
    } else if op == 0xC3 {
        spec_ok3(spec_op_jp(NextU16, c, m))
    } else if op == 0xC4 {
        spec_ok3(spec_op_call_conditional(Condition::NOTZERO, c, m))
    } else if op == 0xC5 {
        spec_ok3(spec_op_push16(BC, c, m))
    } else if op == 0xC6 {
        spec_ok3(spec_op_add(NextU8, c, m))
    } else if op == 0xC7 {
        spec_ok3(spec_op_rst(0x00, c, m))
    } else if op == 0xC8 {
        spec_ok3(spec_op_ret_conditional(Condition::ZERO, c, m))
    } else if op == 0xC9 {
        spec_ok3(spec_op_ret(c, m))
    } else if op == 0xCA {
        spec_ok3(spec_op_jp_conditional(Condition::ZERO, c, m))
    } else if op == 0xCC {
        spec_ok3(spec_op_call_conditional(Condition::ZERO, c, m))
    } else if op == 0xCD {
        spec_ok3(spec_op_call(c, m))
    } else if op == 0xCE {
        spec_ok3(spec_op_adc(NextU8, c, m))
    } else if op == 0xCF {
        spec_ok3(spec_op_rst(0x08, c, m))
    } else if op == 0xD0 {
        spec_ok3(spec_op_ret_conditional(Condition::NOTCARRY, c, m))
    } else if op == 0xD1 {
        spec_ok3(spec_op_pop16(DE, c, m))
    } else if op == 0xD2 {
        spec_ok3(spec_op_jp_conditional(Condition::NOTCARRY, c, m))
    } else if op == 0xD4 {
        spec_ok3(spec_op_call_conditional(Condition::NOTCARRY, c, m))
    } else if op == 0xD5 {
        spec_ok3(spec_op_push16(DE, c, m))
    } else if op == 0xD6 {
        spec_ok3(spec_op_sub(NextU8, c, m))
    } else if op == 0xD7 {
        spec_ok3(spec_op_rst(0x10, c, m))
    } else if op == 0xD8 {
        spec_ok3(spec_op_ret_conditional(Condition::CARRY, c, m))
    } else if op == 0xD9 {
        spec_ok3(spec_op_reti(c, m))
    } else if op == 0xDA {
        spec_ok3(spec_op_jp_conditional(Condition::CARRY, c, m))
    } else if op == 0xDC {
        spec_ok3(spec_op_call_conditional(Condition::CARRY, c, m))
    } else if op == 0xDE {
        spec_ok3(spec_op_sbc(NextU8, c, m))
    } else if op == 0xDF {
        spec_ok3(spec_op_rst(0x18, c, m))
    } else if op == 0xE0 {
        spec_ok3(spec_op_ld(Address::HighRAM, A, c, m))
    } else if op == 0xE1 {
        spec_ok3(spec_op_pop16(HL, c, m))
    } else if op == 0xE2 {
        spec_ok3(spec_op_ld(Address::HighRAMC, A, c, m))
    } else if op == 0xE5 {
        spec_ok3(spec_op_push16(HL, c, m))
    } else if op == 0xE6 {
        spec_ok3(spec_op_and(NextU8, c, m))
    } else if op == 0xE7 {
        spec_ok3(spec_op_rst(0x20, c, m))
    } else if op == 0xE8 {
        spec_ok3(spec_op_add16_sp(c, m))
    } else if op == 0xE9 {
        spec_ok3(spec_op_jp_hl(HL, c, m))
    } else if op == 0xEA {
        spec_ok3(spec_op_ld(Address::NextU16, A, c, m))
    } else if op == 0xEE {
        spec_ok3(spec_op_xor(NextU8, c, m))
    } else if op == 0xEF {
        spec_ok3(spec_op_rst(0x28, c, m))
    } else if op == 0xF0 {
        spec_ok3(spec_op_ld(A, Address::HighRAM, c, m))
    } else if op == 0xF1 {
        spec_ok3(spec_op_pop16(AF, c, m))
    } else if op == 0xF2 {
        spec_ok3(spec_op_ld(A, Address::HighRAMC, c, m))
    } else if op == 0xF3 {
        spec_ok3(spec_op_di(c, m))
    } else if op == 0xF5 {
        spec_ok3(spec_op_push16(AF, c, m))
    } else if op == 0xF6 {
        spec_ok3(spec_op_or(NextU8, c, m))
    } else if op == 0xF7 {
        spec_ok3(spec_op_rst(0x30, c, m))
    } else if op == 0xF8 {
        spec_ok3(spec_op_ld16_sp_n(c, m))
    } else if op == 0xF9 {
        spec_ok3(spec_op_ld16(SP, HL, c, m))
    } else if op == 0xFA {
        spec_ok3(spec_op_ld(A, Address::NextU16, c, m))
    } else if op == 0xFB {
        spec_ok3(spec_op_ei(c, m))
    } else if op == 0xFE {
        spec_ok3(spec_op_cp(NextU8, c, m))
    } else if op == 0xFF {
        spec_ok3(spec_op_rst(0x38, c, m))
    } else {
        (c, m, false)
    }
}

/// The effect of an extended-table opcode in the 0x00-0x3F range.
#[verifier::opaque]
pub open spec fn spec_dispatch_c0(op: u8, c: CPU, m: MmuV) -> (CPU, MmuV) {
    if op == 0x00 {
        spec_op_rlc(B, true, c, m)
    } else if op == 0x01 {
        spec_op_rlc(C, true, c, m)
    } else if op == 0x02 {
        spec_op_rlc(D, true, c, m)
    } else if op == 0x03 {
        spec_op_rlc(E, true, c, m)
    } else if op == 0x04 {
        spec_op_rlc(H, true, c, m)
    } else if op == 0x05 {
        spec_op_rlc(L, true, c, m)
    } else if op == 0x06 {
        spec_op_rlc(Address::HL, true, c, m)
    } else if op == 0x07 {
        spec_op_rlc(A, true, c, m)
    } else if op == 0x08 {
        spec_op_rrc(B, true, c, m)
    } else if op == 0x09 {
        spec_op_rrc(C, true, c, m)
    } else if op == 0x0A {
        spec_op_rrc(D, true, c, m)
    } else if op == 0x0B {
        spec_op_rrc(E, true, c, m)
    } else if op == 0x0C {
        spec_op_rrc(H, true, c, m)
    } else if op == 0x0D {
        spec_op_rrc(L, true, c, m)
    } else if op == 0x0E {
        spec_op_rrc(Address::HL, true, c, m)
    } else if op == 0x0F {
        spec_op_rrc(A, true, c, m)
    } else if op == 0x10 {
        spec_op_rl(B, true, c, m)
    } else if op == 0x11 {
        spec_op_rl(C, true, c, m)
    } else if op == 0x12 {
        spec_op_rl(D, true, c, m)
    } else if op == 0x13 {
        spec_op_rl(E, true, c, m)
    } else if op == 0x14 {
        spec_op_rl(H, true, c, m)
    } else if op == 0x15 {
        spec_op_rl(L, true, c, m)
    } else if op == 0x16 {
        spec_op_rl(Address::HL, true, c, m)
    } else if op == 0x17 {
        spec_op_rl(A, true, c, m)
    } else if op == 0x18 {
        spec_op_rr(B, true, c, m)
    } else if op == 0x19 {
        spec_op_rr(C, true, c, m)
    } else if op == 0x1A {
        spec_op_rr(D, true, c, m)
    } else if op == 0x1B {
        spec_op_rr(E, true, c, m)
    } else if op == 0x1C {
        spec_op_rr(H, true, c, m)
    } else if op == 0x1D {
        spec_op_rr(L, true, c, m)
    } else if op == 0x1E {
        spec_op_rr(Address::HL, true, c, m)
    } else if op == 0x1F {
        spec_op_rr(A, true, c, m)
    } else if op == 0x20 {
        spec_op_sla(B, c, m)
    } else if op == 0x21 {
        spec_op_sla(C, c, m)
    } else if op == 0x22 {
        spec_op_sla(D, c, m)
    } else if op == 0x23 {
        spec_op_sla(E, c, m)
    } else if op == 0x24 {
        spec_op_sla(H, c, m)
    } else if op == 0x25 {
        spec_op_sla(L, c, m)
    } else if op == 0x26 {
        spec_op_sla(Address::HL, c, m)
    } else if op == 0x27 {
        spec_op_sla(A, c, m)
    } else if op == 0x28 {
        spec_op_sra(B, c, m)
    } else if op == 0x29 {
        spec_op_sra(C, c, m)
    } else if op == 0x2A {
        spec_op_sra(D, c, m)
    } else if op == 0x2B {
        spec_op_sra(E, c, m)
    } else if op == 0x2C {
        spec_op_sra(H, c, m)
    } else if op == 0x2D {
        spec_op_sra(L, c, m)
    } else if op == 0x2E {
        spec_op_sra(Address::HL, c, m)
    } else if op == 0x2F {
        spec_op_sra(A, c, m)
    } else if op == 0x30 {
        spec_op_swap(B, c, m)
    } else if op == 0x31 {
        spec_op_swap(C, c, m)
    } else if op == 0x32 {
        spec_op_swap(D, c, m)
    } else if op == 0x33 {
        spec_op_swap(E, c, m)
    } else if op == 0x34 {
        spec_op_swap(H, c, m)
    } else if op == 0x35 {
        spec_op_swap(L, c, m)
    } else if op == 0x36 {
        spec_op_swap(Address::HL, c, m)
    } else if op == 0x37 {
        spec_op_swap(A, c, m)
    } else if op == 0x38 {
        spec_op_srl(B, c, m)
    } else if op == 0x39 {
        spec_op_srl(C, c, m)
    } else if op == 0x3A {
        spec_op_srl(D, c, m)
    } else if op == 0x3B {
        spec_op_srl(E, c, m)
    } else if op == 0x3C {
        spec_op_srl(H, c, m)
    } else if op == 0x3D {
        spec_op_srl(L, c, m)
    } else if op == 0x3E {
        spec_op_srl(Address::HL, c, m)
    } else if op == 0x3F {
        spec_op_srl(A, c, m)
    } else {
        (c, m)
    }
}

/// The effect of an extended-table opcode in the 0x40-0x7F range.
#[verifier::opaque]
pub open spec fn spec_dispatch_c1(op: u8, c: CPU, m: MmuV) -> (CPU, MmuV) {
    if op == 0x40 {
        spec_op_bit(0, B, c, m)
    } else if op == 0x41 {
        spec_op_bit(0, C, c, m)
    } else if op == 0x42 {
        spec_op_bit(0, D, c, m)
    } else if op == 0x43 {
        spec_op_bit(0, E, c, m)
    } else if op == 0x44 {
        spec_op_bit(0, H, c, m)
    } else if op == 0x45 {
        spec_op_bit(0, L, c, m)
    } else if op == 0x46 {
        spec_op_bit(0, Address::HL, c, m)
    } else if op == 0x47 {
        spec_op_bit(0, A, c, m)
    } else if op == 0x48 {
        spec_op_bit(1, B, c, m)
    } else if op == 0x49 {
        spec_op_bit(1, C, c, m)
    } else if op == 0x4A {
        spec_op_bit(1, D, c, m)
    } else if op == 0x4B {
        spec_op_bit(1, E, c, m)
    } else if op == 0x4C {
        spec_op_bit(1, H, c, m)
    } else if op == 0x4D {
        spec_op_bit(1, L, c, m)
    } else if op == 0x4E {
        spec_op_bit(1, Address::HL, c, m)
    } else if op == 0x4F {
        spec_op_bit(1, A, c, m)
    } else if op == 0x50 {
        spec_op_bit(2, B, c, m)
    } else if op == 0x51 {
        spec_op_bit(2, C, c, m)
    } else if op == 0x52 {
        spec_op_bit(2, D, c, m)
    } else if op == 0x53 {
        spec_op_bit(2, E, c, m)
    } else if op == 0x54 {
        spec_op_bit(2, H, c, m)
    } else if op == 0x55 {
        spec_op_bit(2, L, c, m)
    } else if op == 0x56 {
        spec_op_bit(2, Address::HL, c, m)
    } else if op == 0x57 {
        spec_op_bit(2, A, c, m)
    } else if op == 0x58 {
        spec_op_bit(3, B, c, m)
    } else if op == 0x59 {
        spec_op_bit(3, C, c, m)
    } else if op == 0x5A {
        spec_op_bit(3, D, c, m)
    } else if op == 0x5B {
        spec_op_bit(3, E, c, m)
    } else if op == 0x5C {
        spec_op_bit(3, H, c, m)
    } else if op == 0x5D {
        spec_op_bit(3, L, c, m)
    } else if op == 0x5E {
        spec_op_bit(3, Address::HL, c, m)
    } else if op == 0x5F {
        spec_op_bit(3, A, c, m)
    } else if op == 0x60 {
        spec_op_bit(4, B, c, m)
    } else if op == 0x61 {
        spec_op_bit(4, C, c, m)
    } else if op == 0x62 {
        spec_op_bit(4, D, c, m)
    } else if op == 0x63 {
        spec_op_bit(4, E, c, m)
    } else if op == 0x64 {
        spec_op_bit(4, H, c, m)
    } else if op == 0x65 {
        spec_op_bit(4, L, c, m)
    } else if op == 0x66 {
        spec_op_bit(4, Address::HL, c, m)
    } else if op == 0x67 {
        spec_op_bit(4, A, c, m)
    } else if op == 0x68 {
        spec_op_bit(5, B, c, m)
    } else if op == 0x69 {
        spec_op_bit(5, C, c, m)
    } else if op == 0x6A {
        spec_op_bit(5, D, c, m)
    } else if op == 0x6B {
        spec_op_bit(5, E, c, m)
    } else if op == 0x6C {
        spec_op_bit(5, H, c, m)
    } else if op == 0x6D {
        spec_op_bit(5, L, c, m)
    } else if op == 0x6E {
        spec_op_bit(5, Address::HL, c, m)
    } else if op == 0x6F {
        spec_op_bit(5, A, c, m)
    } else if op == 0x70 {
        spec_op_bit(6, B, c, m)
    } else if op == 0x71 {
        spec_op_bit(6, C, c, m)
    } else if op == 0x72 {
        spec_op_bit(6, D, c, m)
    } else if op == 0x73 {
        spec_op_bit(6, E, c, m)
    } else if op == 0x74 {
        spec_op_bit(6, H, c, m)
    } else if op == 0x75 {
        spec_op_bit(6, L, c, m)
    } else if op == 0x76 {
        spec_op_bit(6, Address::HL, c, m)
    } else if op == 0x77 {
        spec_op_bit(6, A, c, m)
    } else if op == 0x78 {
        spec_op_bit(7, B, c, m)
    } else if op == 0x79 {
        spec_op_bit(7, C, c, m)
    } else if op == 0x7A {
        spec_op_bit(7, D, c, m)
    } else if op == 0x7B {
        spec_op_bit(7, E, c, m)
    } else if op == 0x7C {
        spec_op_bit(7, H, c, m)
    } else if op == 0x7D {
        spec_op_bit(7, L, c, m)
    } else if op == 0x7E {
        spec_op_bit(7, Address::HL, c, m)
    } else if op == 0x7F {
        spec_op_bit(7, A, c, m)
    } else {
        (c, m)
    }
}

/// The effect of an extended-table opcode in the 0x80-0xBF range.
#[verifier::opaque]
pub open spec fn spec_dispatch_c2(op: u8, c: CPU, m: MmuV) -> (CPU, MmuV) {
    if op == 0x80 {
        spec_op_res(0, B, c, m)
    } else if op == 0x81 {
        spec_op_res(0, C, c, m)
    } else if op == 0x82 {
        spec_op_res(0, D, c, m)
    } else if op == 0x83 {
        spec_op_res(0, E, c, m)
    } else if op == 0x84 {
        spec_op_res(0, H, c, m)
    } else if op == 0x85 {
        spec_op_res(0, L, c, m)
    } else if op == 0x86 {
        spec_op_res(0, Address::HL, c, m)
    } else if op == 0x87 {
        spec_op_res(0, A, c, m)
    } else if op == 0x88 {
        spec_op_res(1, B, c, m)
    } else if op == 0x89 {
        spec_op_res(1, C, c, m)
    } else if op == 0x8A {
        spec_op_res(1, D, c, m)
    } else if op == 0x8B {
        spec_op_res(1, E, c, m)
    } else if op == 0x8C {
        spec_op_res(1, H, c, m)
    } else if op == 0x8D {
        spec_op_res(1, L, c, m)
    } else if op == 0x8E {
        spec_op_res(1, Address::HL, c, m)
    } else if op == 0x8F {
        spec_op_res(1, A, c, m)
    } else if op == 0x90 {
        spec_op_res(2, B, c, m)
    } else if op == 0x91 {
        spec_op_res(2, C, c, m)
    } else if op == 0x92 {
        spec_op_res(2, D, c, m)
    } else if op == 0x93 {
        spec_op_res(2, E, c, m)
    } else if op == 0x94 {
        spec_op_res(2, H, c, m)
    } else if op == 0x95 {
        spec_op_res(2, L, c, m)
    } else if op == 0x96 {
        spec_op_res(2, Address::HL, c, m)
    } else if op == 0x97 {
        spec_op_res(2, A, c, m)
    } else if op == 0x98 {
        spec_op_res(3, B, c, m)
    } else if op == 0x99 {
        spec_op_res(3, C, c, m)
    } else if op == 0x9A {
        spec_op_res(3, D, c, m)
    } else if op == 0x9B {
        spec_op_res(3, E, c, m)
    } else if op == 0x9C {
        spec_op_res(3, H, c, m)
    } else if op == 0x9D {
        spec_op_res(3, L, c, m)
    } else if op == 0x9E {
        spec_op_res(3, Address::HL, c, m)
    } else if op == 0x9F {
        spec_op_res(3, A, c, m)
    } else if op == 0xA0 {
        spec_op_res(4, B, c, m)
    } else if op == 0xA1 {
        spec_op_res(4, C, c, m)
    } else if op == 0xA2 {
        spec_op_res(4, D, c, m)
    } else if op == 0xA3 {
        spec_op_res(4, E, c, m)
    } else if op == 0xA4 {
        spec_op_res(4, H, c, m)
    } else if op == 0xA5 {
        spec_op_res(4, L, c, m)
    } else if op == 0xA6 {
        spec_op_res(4, Address::HL, c, m)
    } else if op == 0xA7 {
        spec_op_res(4, A, c, m)
    } else if op == 0xA8 {
        spec_op_res(5, B, c, m)
    } else if op == 0xA9 {
        spec_op_res(5, C, c, m)
    } else if op == 0xAA {
        spec_op_res(5, D, c, m)
    } else if op == 0xAB {
        spec_op_res(5, E, c, m)
    } else if op == 0xAC {
        spec_op_res(5, H, c, m)
    } else if op == 0xAD {
        spec_op_res(5, L, c, m)
    } else if op == 0xAE {
        spec_op_res(5, Address::HL, c, m)
    } else if op == 0xAF {
        spec_op_res(5, A, c, m)
    } else if op == 0xB0 {
        spec_op_res(6, B, c, m)
    } else if op == 0xB1 {
        spec_op_res(6, C, c, m)
    } else if op == 0xB2 {
        spec_op_res(6, D, c, m)
    } else if op == 0xB3 {
        spec_op_res(6, E, c, m)
    } else if op == 0xB4 {
        spec_op_res(6, H, c, m)
    } else if op == 0xB5 {
        spec_op_res(6, L, c, m)
    } else if op == 0xB6 {
        spec_op_res(6, Address::HL, c, m)
    } else if op == 0xB7 {
        spec_op_res(6, A, c, m)
    } else if op == 0xB8 {
        spec_op_res(7, B, c, m)
    } else if op == 0xB9 {
        spec_op_res(7, C, c, m)
    } else if op == 0xBA {
        spec_op_res(7, D, c, m)
    } else if op == 0xBB {
        spec_op_res(7, E, c, m)
    } else if op == 0xBC {
        spec_op_res(7, H, c, m)
    } else if op == 0xBD {
        spec_op_res(7, L, c, m)
    } else if op == 0xBE {
        spec_op_res(7, Address::HL, c, m)
    } else if op == 0xBF {
        spec_op_res(7, A, c, m)
    } else {
        (c, m)
    }
}

/// The effect of an extended-table opcode in the 0xC0-0xFF range.
#[verifier::opaque]
pub open spec fn spec_dispatch_c3(op: u8, c: CPU, m: MmuV) -> (CPU, MmuV) {
    if op == 0xC0 {
        spec_op_set(0, B, c, m)
    } else if op == 0xC1 {
        spec_op_set(0, C, c, m)
    } else if op == 0xC2 {
        spec_op_set(0, D, c, m)
    } else if op == 0xC3 {
        spec_op_set(0, E, c, m)
    } else if op == 0xC4 {
        spec_op_set(0, H, c, m)
    } else if op == 0xC5 {
        spec_op_set(0, L, c, m)
    } else if op == 0xC6 {
        spec_op_set(0, Address::HL, c, m)
    } else if op == 0xC7 {
        spec_op_set(0, A, c, m)
    } else if op == 0xC8 {
        spec_op_set(1, B, c, m)
    } else if op == 0xC9 {
        spec_op_set(1, C, c, m)
    } else if op == 0xCA {
        spec_op_set(1, D, c, m)
    } else if op == 0xCB {
        spec_op_set(1, E, c, m)
    } else if op == 0xCC {
        spec_op_set(1, H, c, m)
    } else if op == 0xCD {
        spec_op_set(1, L, c, m)
    } else if op == 0xCE {
        spec_op_set(1, Address::HL, c, m)
    } else if op == 0xCF {
        spec_op_set(1, A, c, m)
    } else if op == 0xD0 {
        spec_op_set(2, B, c, m)
    } else if op == 0xD1 {
        spec_op_set(2, C, c, m)
    } else if op == 0xD2 {
        spec_op_set(2, D, c, m)
    } else if op == 0xD3 {
        spec_op_set(2, E, c, m)
    } else if op == 0xD4 {
        spec_op_set(2, H, c, m)
    } else if op == 0xD5 {
        spec_op_set(2, L, c, m)
    } else if op == 0xD6 {
        spec_op_set(2, Address::HL, c, m)
    } else if op == 0xD7 {
        spec_op_set(2, A, c, m)
    } else if op == 0xD8 {
        spec_op_set(3, B, c, m)
    } else if op == 0xD9 {
        spec_op_set(3, C, c, m)
    } else if op == 0xDA {
        spec_op_set(3, D, c, m)
    } else if op == 0xDB {
        spec_op_set(3, E, c, m)
    } else if op == 0xDC {
        spec_op_set(3, H, c, m)
    } else if op == 0xDD {
        spec_op_set(3, L, c, m)
    } else if op == 0xDE {
        spec_op_set(3, Address::HL, c, m)
    } else if op == 0xDF {
        spec_op_set(3, A, c, m)
    } else if op == 0xE0 {
        spec_op_set(4, B, c, m)
    } else if op == 0xE1 {
        spec_op_set(4, C, c, m)
    } else if op == 0xE2 {
        spec_op_set(4, D, c, m)
    } else if op == 0xE3 {
        spec_op_set(4, E, c, m)
    } else if op == 0xE4 {
        spec_op_set(4, H, c, m)
    } else if op == 0xE5 {
        spec_op_set(4, L, c, m)
    } else if op == 0xE6 {
        spec_op_set(4, Address::HL, c, m)
    } else if op == 0xE7 {
        spec_op_set(4, A, c, m)
    } else if op == 0xE8 {
        spec_op_set(5, B, c, m)
    } else if op == 0xE9 {
        spec_op_set(5, C, c, m)
    } else if op == 0xEA {
        spec_op_set(5, D, c, m)
    } else if op == 0xEB {
        spec_op_set(5, E, c, m)
    } else if op == 0xEC {
        spec_op_set(5, H, c, m)
    } else if op == 0xED {
        spec_op_set(5, L, c, m)
    } else if op == 0xEE {
        spec_op_set(5, Address::HL, c, m)
    } else if op == 0xEF {
        spec_op_set(5, A, c, m)
    } else if op == 0xF0 {
        spec_op_set(6, B, c, m)
    } else if op == 0xF1 {
        spec_op_set(6, C, c, m)
    } else if op == 0xF2 {
        spec_op_set(6, D, c, m)
    } else if op == 0xF3 {
        spec_op_set(6, E, c, m)
    } else if op == 0xF4 {
        spec_op_set(6, H, c, m)
    } else if op == 0xF5 {
        spec_op_set(6, L, c, m)
    } else if op == 0xF6 {
        spec_op_set(6, Address::HL, c, m)
    } else if op == 0xF7 {
        spec_op_set(6, A, c, m)
    } else if op == 0xF8 {
        spec_op_set(7, B, c, m)
    } else if op == 0xF9 {
        spec_op_set(7, C, c, m)
    } else if op == 0xFA {
        spec_op_set(7, D, c, m)
    } else if op == 0xFB {
        spec_op_set(7, E, c, m)
    } else if op == 0xFC {
        spec_op_set(7, H, c, m)
    } else if op == 0xFD {
        spec_op_set(7, L, c, m)
    } else if op == 0xFE {
        spec_op_set(7, Address::HL, c, m)
    } else if op == 0xFF {
        spec_op_set(7, A, c, m)
    } else {
        (c, m)
    }
}

/// The effect of a primary-table opcode: dispatch by quadrant.
pub open spec fn spec_dispatch_primary(op: u8, c: CPU, m: MmuV) -> (CPU, MmuV, bool) {
    if op < 0x40 {
        spec_dispatch_p0(op, c, m)
    } else if op < 0x80 {
        spec_dispatch_p1(op, c, m)
    } else if op < 0xC0 {
        spec_dispatch_p2(op, c, m)
    } else {
        spec_dispatch_p3(op, c, m)
    }
}

/// The effect of an extended-table opcode: dispatch by quadrant. The
/// extended table has no holes.
pub open spec fn spec_dispatch_cb(op: u8, c: CPU, m: MmuV) -> (CPU, MmuV) {
    if op < 0x40 {
        spec_dispatch_c0(op, c, m)
    } else if op < 0x80 {
        spec_dispatch_c1(op, c, m)
    } else if op < 0xC0 {
        spec_dispatch_c2(op, c, m)
    } else {
        spec_dispatch_c3(op, c, m)
    }
}

impl CPU {
    #[verifier::rlimit(100)]
    #[verifier::spinoff_prover]
    fn dispatch_p0(&mut self, mmu: &mut MMU, op: u8) -> (ok: bool)
        requires
            old(mmu).wf(),
        ensures
            final(mmu).wf(),
            ({
                let (c2, m2, ok2) = spec_dispatch_p0(op, *old(self), old(mmu)@);
                *final(self) == c2 && final(mmu)@ == m2 && ok == ok2
            }),
    {
        proof {
            reveal(spec_dispatch_p0);
        }
        match op {
            0x00 => (),
            0x01 => self.ld16(mmu, BC, NextU16),
            0x02 => self.ld(mmu, Address::BC, A),
            0x03 => self.inc16(mmu, BC),
            0x04 => self.inc(mmu, B),
            0x05 => self.dec(mmu, B),
            0x06 => self.ld(mmu, B, NextU8),
            0x07 => self.rlc(mmu, A, false),
            0x08 => self.ld16(mmu, Address::NextU16, SP),
            0x09 => self.add16_hl(mmu, BC),
            0x0A => self.ld(mmu, A, Address::BC),
            0x0B => self.dec16(mmu, BC),
            0x0C => self.inc(mmu, C),
            0x0D => self.dec(mmu, C),
            0x0E => self.ld(mmu, C, NextU8),
            0x0F => self.rrc(mmu, A, false),
            0x10 => self.stop(mmu),
            0x11 => self.ld16(mmu, DE, NextU16),
            0x12 => self.ld(mmu, Address::DE, A),
            0x13 => self.inc16(mmu, DE),
            0x14 => self.inc(mmu, D),
            0x15 => self.dec(mmu, D),
            0x16 => self.ld(mmu, D, NextU8),
            0x17 => self.rl(mmu, A, false),
            0x18 => self.jr(mmu),
            0x19 => self.add16_hl(mmu, DE),
            0x1A => self.ld(mmu, A, Address::DE),
            0x1B => self.dec16(mmu, DE),
            0x1C => self.inc(mmu, E),
            0x1D => self.dec(mmu, E),
            0x1E => self.ld(mmu, E, NextU8),
            0x1F => self.rr(mmu, A, false),
            0x20 => self.jr_conditional(mmu, Condition::NOTZERO),
            0x21 => self.ld16(mmu, HL, NextU16),
            0x22 => self.ld(mmu, Address::HLI, A),
            0x23 => self.inc16(mmu, HL),
            0x24 => self.inc(mmu, H),
            0x25 => self.dec(mmu, H),
            0x26 => self.ld(mmu, H, NextU8),
            0x27 => self.daa(mmu),
            0x28 => self.jr_conditional(mmu, Condition::ZERO),
            0x29 => self.add16_hl(mmu, HL),
            0x2A => self.ld(mmu, A, Address::HLI),
            0x2B => self.dec16(mmu, HL),
            0x2C => self.inc(mmu, L),
            0x2D => self.dec(mmu, L),
            0x2E => self.ld(mmu, L, NextU8),
            0x2F => self.cpl(mmu),
            0x30 => self.jr_conditional(mmu, Condition::NOTCARRY),
            0x31 => self.ld16(mmu, SP, NextU16),
            0x32 => self.ld(mmu, Address::HLD, A),
            0x33 => self.inc16(mmu, SP),
            0x34 => self.inc(mmu, Address::HL),
            0x35 => self.dec(mmu, Address::HL),
            0x36 => self.ld(mmu, Address::HL, NextU8),
            0x37 => self.scf(mmu),
            0x38 => self.jr_conditional(mmu, Condition::CARRY),
            0x39 => self.add16_hl(mmu, SP),
            0x3A => self.ld(mmu, A, Address::HLD),
            0x3B => self.dec16(mmu, SP),
            0x3C => self.inc(mmu, A),
            0x3D => self.dec(mmu, A),
            0x3E => self.ld(mmu, A, NextU8),
            0x3F => self.ccf(mmu),
            _ => {
                return false;
            },
        }
        true
    }

    #[verifier::rlimit(100)]
    #[verifier::spinoff_prover]
    fn dispatch_p1(&mut self, mmu: &mut MMU, op: u8) -> (ok: bool)
        requires
            old(mmu).wf(),
        ensures
            final(mmu).wf(),
            ({
                let (c2, m2, ok2) = spec_dispatch_p1(op, *old(self), old(mmu)@);
                *final(self) == c2 && final(mmu)@ == m2 && ok == ok2
            }),
    {
        proof {
            reveal(spec_dispatch_p1);
        }
        match op {
            0x40 => self.ld(mmu, B, B),
            0x41 => self.ld(mmu, B, C),
            0x42 => self.ld(mmu, B, D),
            0x43 => self.ld(mmu, B, E),
            0x44 => self.ld(mmu, B, H),
            0x45 => self.ld(mmu, B, L),
            0x46 => self.ld(mmu, B, Address::HL),
            0x47 => self.ld(mmu, B, A),
            0x48 => self.ld(mmu, C, B),
            0x49 => self.ld(mmu, C, C),
            0x4A => self.ld(mmu, C, D),
            0x4B => self.ld(mmu, C, E),
            0x4C => self.ld(mmu, C, H),
            0x4D => self.ld(mmu, C, L),
            0x4E => self.ld(mmu, C, Address::HL),
            0x4F => self.ld(mmu, C, A),
            0x50 => self.ld(mmu, D, B),
            0x51 => self.ld(mmu, D, C),
            0x52 => self.ld(mmu, D, D),
            0x53 => self.ld(mmu, D, E),
            0x54 => self.ld(mmu, D, H),
            0x55 => self.ld(mmu, D, L),
            0x56 => self.ld(mmu, D, Address::HL),
            0x57 => self.ld(mmu, D, A),
            0x58 => self.ld(mmu, E, B),
            0x59 => self.ld(mmu, E, C),
            0x5A => self.ld(mmu, E, D),
            0x5B => self.ld(mmu, E, E),
            0x5C => self.ld(mmu, E, H),
            0x5D => self.ld(mmu, E, L),
            0x5E => self.ld(mmu, E, Address::HL),
            0x5F => self.ld(mmu, E, A),
            0x60 => self.ld(mmu, H, B),
            0x61 => self.ld(mmu, H, C),
            0x62 => self.ld(mmu, H, D),
            0x63 => self.ld(mmu, H, E),
            0x64 => self.ld(mmu, H, H),
            0x65 => self.ld(mmu, H, L),
            0x66 => self.ld(mmu, H, Address::HL),
            0x67 => self.ld(mmu, H, A),
            0x68 => self.ld(mmu, L, B),
            0x69 => self.ld(mmu, L, C),
            0x6A => self.ld(mmu, L, D),
            0x6B => self.ld(mmu, L, E),
            0x6C => self.ld(mmu, L, H),
            0x6D => self.ld(mmu, L, L),
            0x6E => self.ld(mmu, L, Address::HL),
            0x6F => self.ld(mmu, L, A),
            0x70 => self.ld(mmu, Address::HL, B),
            0x71 => self.ld(mmu, Address::HL, C),
            0x72 => self.ld(mmu, Address::HL, D),
            0x73 => self.ld(mmu, Address::HL, E),
            0x74 => self.ld(mmu, Address::HL, H),
            0x75 => self.ld(mmu, Address::HL, L),
            0x76 => self.halt(mmu),
            0x77 => self.ld(mmu, Address::HL, A),
            0x78 => self.ld(mmu, A, B),
            0x79 => self.ld(mmu, A, C),
            0x7A => self.ld(mmu, A, D),
            0x7B => self.ld(mmu, A, E),
            0x7C => self.ld(mmu, A, H),
            0x7D => self.ld(mmu, A, L),
            0x7E => self.ld(mmu, A, Address::HL),
            0x7F => self.ld(mmu, A, A),
            _ => {
                return false;
            },
        }
        true
    }

    #[verifier::rlimit(100)]
    #[verifier::spinoff_prover]
    fn dispatch_p2(&mut self, mmu: &mut MMU, op: u8) -> (ok: bool)
        requires
            old(mmu).wf(),
        ensures
            final(mmu).wf(),
            ({
                let (c2, m2, ok2) = spec_dispatch_p2(op, *old(self), old(mmu)@);
                *final(self) == c2 && final(mmu)@ == m2 && ok == ok2
            }),
    {
        proof {
            reveal(spec_dispatch_p2);
        }
        match op {
            0x80 => self.add(mmu, B),
            0x81 => self.add(mmu, C),
            0x82 => self.add(mmu, D),
            0x83 => self.add(mmu, E),
            0x84 => self.add(mmu, H),
            0x85 => self.add(mmu, L),
            0x86 => self.add(mmu, Address::HL),
            0x87 => self.add(mmu, A),
            0x88 => self.adc(mmu, B),
            0x89 => self.adc(mmu, C),
            0x8A => self.adc(mmu, D),
            0x8B => self.adc(mmu, E),
            0x8C => self.adc(mmu, H),
            0x8D => self.adc(mmu, L),
            0x8E => self.adc(mmu, Address::HL),
            0x8F => self.adc(mmu, A),
            0x90 => self.sub(mmu, B),
            0x91 => self.sub(mmu, C),
            0x92 => self.sub(mmu, D),
            0x93 => self.sub(mmu, E),
            0x94 => self.sub(mmu, H),
            0x95 => self.sub(mmu, L),
            0x96 => self.sub(mmu, Address::HL),
            0x97 => self.sub(mmu, A),
            0x98 => self.sbc(mmu, B),
            0x99 => self.sbc(mmu, C),
            0x9A => self.sbc(mmu, D),
            0x9B => self.sbc(mmu, E),
            0x9C => self.sbc(mmu, H),
            0x9D => self.sbc(mmu, L),
            0x9E => self.sbc(mmu, Address::HL),
            0x9F => self.sbc(mmu, A),
            0xA0 => self.and(mmu, B),
            0xA1 => self.and(mmu, C),
            0xA2 => self.and(mmu, D),
            0xA3 => self.and(mmu, E),
            0xA4 => self.and(mmu, H),
            0xA5 => self.and(mmu, L),
            0xA6 => self.and(mmu, Address::HL),
            0xA7 => self.and(mmu, A),
            0xA8 => self.xor(mmu, B),
            0xA9 => self.xor(mmu, C),
            0xAA => self.xor(mmu, D),
            0xAB => self.xor(mmu, E),
            0xAC => self.xor(mmu, H),
            0xAD => self.xor(mmu, L),
            0xAE => self.xor(mmu, Address::HL),
            0xAF => self.xor(mmu, A),
            0xB0 => self.or(mmu, B),
            0xB1 => self.or(mmu, C),
            0xB2 => self.or(mmu, D),
            0xB3 => self.or(mmu, E),
            0xB4 => self.or(mmu, H),
            0xB5 => self.or(mmu, L),
            0xB6 => self.or(mmu, Address::HL),
            0xB7 => self.or(mmu, A),
            0xB8 => self.cp(mmu, B),
            0xB9 => self.cp(mmu, C),
            0xBA => self.cp(mmu, D),
            0xBB => self.cp(mmu, E),
            0xBC => self.cp(mmu, H),
            0xBD => self.cp(mmu, L),
            0xBE => self.cp(mmu, Address::HL),
            0xBF => self.cp(mmu, A),
            _ => {
                return false;
            },
        }
        true
    }

    #[verifier::rlimit(100)]
    #[verifier::spinoff_prover]
    fn dispatch_p3(&mut self, mmu: &mut MMU, op: u8) -> (ok: bool)
        requires
            old(mmu).wf(),
        ensures
            final(mmu).wf(),
            ({
                let (c2, m2, ok2) = spec_dispatch_p3(op, *old(self), old(mmu)@);
                *final(self) == c2 && final(mmu)@ == m2 && ok == ok2
            }),
    {
        proof {
            reveal(spec_dispatch_p3);
        }
        match op {
            0xC0 => self.ret_conditional(mmu, Condition::NOTZERO),
            0xC1 => self.pop16(mmu, BC),
            0xC2 => self.jp_conditional(mmu, Condition::NOTZERO),
            0xC3 => self.jp(mmu, NextU16),
            0xC4 => self.call_conditional(mmu, Condition::NOTZERO),
            0xC5 => self.push16(mmu, BC),
            0xC6 => self.add(mmu, NextU8),
            0xC7 => self.rst(mmu, 0x00),
            0xC8 => self.ret_conditional(mmu, Condition::ZERO),
            0xC9 => self.ret(mmu),
            0xCA => self.jp_conditional(mmu, Condition::ZERO),
            0xCC => self.call_conditional(mmu, Condition::ZERO),
            0xCD => self.call(mmu),
            0xCE => self.adc(mmu, NextU8),
            0xCF => self.rst(mmu, 0x08),
            0xD0 => self.ret_conditional(mmu, Condition::NOTCARRY),
            0xD1 => self.pop16(mmu, DE),
            0xD2 => self.jp_conditional(mmu, Condition::NOTCARRY),
            0xD4 => self.call_conditional(mmu, Condition::NOTCARRY),
            0xD5 => self.push16(mmu, DE),
            0xD6 => self.sub(mmu, NextU8),
            0xD7 => self.rst(mmu, 0x10),
            0xD8 => self.ret_conditional(mmu, Condition::CARRY),
            0xD9 => self.reti(mmu),
            0xDA => self.jp_conditional(mmu, Condition::CARRY),
            0xDC => self.call_conditional(mmu, Condition::CARRY),
            0xDE => self.sbc(mmu, NextU8),
            0xDF => self.rst(mmu, 0x18),
            0xE0 => self.ld(mmu, Address::HighRAM, A),
            0xE1 => self.pop16(mmu, HL),
            0xE2 => self.ld(mmu, Address::HighRAMC, A),
            0xE5 => self.push16(mmu, HL),
            0xE6 => self.and(mmu, NextU8),
            0xE7 => self.rst(mmu, 0x20),
            0xE8 => self.add16_sp(mmu),
            0xE9 => self.jp_hl(mmu, HL),
            0xEA => self.ld(mmu, Address::NextU16, A),
            0xEE => self.xor(mmu, NextU8),
            0xEF => self.rst(mmu, 0x28),
            0xF0 => self.ld(mmu, A, Address::HighRAM),
            0xF1 => self.pop16(mmu, AF),
            0xF2 => self.ld(mmu, A, Address::HighRAMC),
            0xF3 => self.di(mmu),
            0xF5 => self.push16(mmu, AF),
            0xF6 => self.or(mmu, NextU8),
            0xF7 => self.rst(mmu, 0x30),
            0xF8 => self.ld16_sp_n(mmu),
            0xF9 => self.ld16(mmu, SP, HL),
            0xFA => self.ld(mmu, A, Address::NextU16),
            0xFB => self.ei(mmu),
            0xFE => self.cp(mmu, NextU8),
            0xFF => self.rst(mmu, 0x38),
            _ => {
                return false;
            },
        }
        true
    }

    #[verifier::rlimit(100)]
    #[verifier::spinoff_prover]
    fn dispatch_c0(&mut self, mmu: &mut MMU, op: u8)
        requires
            old(mmu).wf(),
        ensures
            final(mmu).wf(),
            (*final(self), final(mmu)@) == spec_dispatch_c0(op, *old(self), old(mmu)@),
    {
        proof {
            reveal(spec_dispatch_c0);
        }
        match op {
            0x00 => self.rlc(mmu, B, true),
            0x01 => self.rlc(mmu, C, true),
            0x02 => self.rlc(mmu, D, true),
            0x03 => self.rlc(mmu, E, true),
            0x04 => self.rlc(mmu, H, true),
            0x05 => self.rlc(mmu, L, true),
            0x06 => self.rlc(mmu, Address::HL, true),
            0x07 => self.rlc(mmu, A, true),
            0x08 => self.rrc(mmu, B, true),
            0x09 => self.rrc(mmu, C, true),
            0x0A => self.rrc(mmu, D, true),
            0x0B => self.rrc(mmu, E, true),
            0x0C => self.rrc(mmu, H, true),
            0x0D => self.rrc(mmu, L, true),
            0x0E => self.rrc(mmu, Address::HL, true),
            0x0F => self.rrc(mmu, A, true),
            0x10 => self.rl(mmu, B, true),
            0x11 => self.rl(mmu, C, true),
            0x12 => self.rl(mmu, D, true),
            0x13 => self.rl(mmu, E, true),
            0x14 => self.rl(mmu, H, true),
            0x15 => self.rl(mmu, L, true),
            0x16 => self.rl(mmu, Address::HL, true),
            0x17 => self.rl(mmu, A, true),
            0x18 => self.rr(mmu, B, true),
            0x19 => self.rr(mmu, C, true),
            0x1A => self.rr(mmu, D, true),
            0x1B => self.rr(mmu, E, true),
            0x1C => self.rr(mmu, H, true),
            0x1D => self.rr(mmu, L, true),
            0x1E => self.rr(mmu, Address::HL, true),
            0x1F => self.rr(mmu, A, true),
            0x20 => self.sla(mmu, B),
            0x21 => self.sla(mmu, C),
            0x22 => self.sla(mmu, D),
            0x23 => self.sla(mmu, E),
            0x24 => self.sla(mmu, H),
            0x25 => self.sla(mmu, L),
            0x26 => self.sla(mmu, Address::HL),
            0x27 => self.sla(mmu, A),
            0x28 => self.sra(mmu, B),
            0x29 => self.sra(mmu, C),
            0x2A => self.sra(mmu, D),
            0x2B => self.sra(mmu, E),
            0x2C => self.sra(mmu, H),
            0x2D => self.sra(mmu, L),
            0x2E => self.sra(mmu, Address::HL),
            0x2F => self.sra(mmu, A),
            0x30 => self.swap(mmu, B),
            0x31 => self.swap(mmu, C),
            0x32 => self.swap(mmu, D),
            0x33 => self.swap(mmu, E),
            0x34 => self.swap(mmu, H),
            0x35 => self.swap(mmu, L),
            0x36 => self.swap(mmu, Address::HL),
            0x37 => self.swap(mmu, A),
            0x38 => self.srl(mmu, B),
            0x39 => self.srl(mmu, C),
            0x3A => self.srl(mmu, D),
            0x3B => self.srl(mmu, E),
            0x3C => self.srl(mmu, H),
            0x3D => self.srl(mmu, L),
            0x3E => self.srl(mmu, Address::HL),
            0x3F => self.srl(mmu, A),
            _ => (),
        }
    }

    #[verifier::rlimit(100)]
    #[verifier::spinoff_prover]
    fn dispatch_c1(&mut self, mmu: &mut MMU, op: u8)
        requires
            old(mmu).wf(),
        ensures
            final(mmu).wf(),
            (*final(self), final(mmu)@) == spec_dispatch_c1(op, *old(self), old(mmu)@),
    {
        proof {
            reveal(spec_dispatch_c1);
        }
        match op {
            0x40 => self.bit(mmu, 0, B),
            0x41 => self.bit(mmu, 0, C),
            0x42 => self.bit(mmu, 0, D),
            0x43 => self.bit(mmu, 0, E),
            0x44 => self.bit(mmu, 0, H),
            0x45 => self.bit(mmu, 0, L),
            0x46 => self.bit(mmu, 0, Address::HL),
            0x47 => self.bit(mmu, 0, A),
            0x48 => self.bit(mmu, 1, B),
            0x49 => self.bit(mmu, 1, C),
            0x4A => self.bit(mmu, 1, D),
            0x4B => self.bit(mmu, 1, E),
            0x4C => self.bit(mmu, 1, H),
            0x4D => self.bit(mmu, 1, L),
            0x4E => self.bit(mmu, 1, Address::HL),
            0x4F => self.bit(mmu, 1, A),
            0x50 => self.bit(mmu, 2, B),
            0x51 => self.bit(mmu, 2, C),
            0x52 => self.bit(mmu, 2, D),
            0x53 => self.bit(mmu, 2, E),
            0x54 => self.bit(mmu, 2, H),
            0x55 => self.bit(mmu, 2, L),
            0x56 => self.bit(mmu, 2, Address::HL),
            0x57 => self.bit(mmu, 2, A),
            0x58 => self.bit(mmu, 3, B),
            0x59 => self.bit(mmu, 3, C),
            0x5A => self.bit(mmu, 3, D),
            0x5B => self.bit(mmu, 3, E),
            0x5C => self.bit(mmu, 3, H),
            0x5D => self.bit(mmu, 3, L),
            0x5E => self.bit(mmu, 3, Address::HL),
            0x5F => self.bit(mmu, 3, A),
            0x60 => self.bit(mmu, 4, B),
            0x61 => self.bit(mmu, 4, C),
            0x62 => self.bit(mmu, 4, D),
            0x63 => self.bit(mmu, 4, E),
            0x64 => self.bit(mmu, 4, H),
            0x65 => self.bit(mmu, 4, L),
            0x66 => self.bit(mmu, 4, Address::HL),
            0x67 => self.bit(mmu, 4, A),
            0x68 => self.bit(mmu, 5, B),
            0x69 => self.bit(mmu, 5, C),
            0x6A => self.bit(mmu, 5, D),
            0x6B => self.bit(mmu, 5, E),
            0x6C => self.bit(mmu, 5, H),
            0x6D => self.bit(mmu, 5, L),
            0x6E => self.bit(mmu, 5, Address::HL),
            0x6F => self.bit(mmu, 5, A),
            0x70 => self.bit(mmu, 6, B),
            0x71 => self.bit(mmu, 6, C),
            0x72 => self.bit(mmu, 6, D),
            0x73 => self.bit(mmu, 6, E),
            0x74 => self.bit(mmu, 6, H),
            0x75 => self.bit(mmu, 6, L),
            0x76 => self.bit(mmu, 6, Address::HL),
            0x77 => self.bit(mmu, 6, A),
            0x78 => self.bit(mmu, 7, B),
            0x79 => self.bit(mmu, 7, C),
            0x7A => self.bit(mmu, 7, D),
            0x7B => self.bit(mmu, 7, E),
            0x7C => self.bit(mmu, 7, H),
            0x7D => self.bit(mmu, 7, L),
            0x7E => self.bit(mmu, 7, Address::HL),
            0x7F => self.bit(mmu, 7, A),
            _ => (),
        }
    }

    #[verifier::rlimit(100)]
    #[verifier::spinoff_prover]
    fn dispatch_c2(&mut self, mmu: &mut MMU, op: u8)
        requires
            old(mmu).wf(),
        ensures
            final(mmu).wf(),
            (*final(self), final(mmu)@) == spec_dispatch_c2(op, *old(self), old(mmu)@),
    {
        proof {
            reveal(spec_dispatch_c2);
        }
        match op {
            0x80 => self.res(mmu, 0, B),
            0x81 => self.res(mmu, 0, C),
            0x82 => self.res(mmu, 0, D),
            0x83 => self.res(mmu, 0, E),
            0x84 => self.res(mmu, 0, H),
            0x85 => self.res(mmu, 0, L),
            0x86 => self.res(mmu, 0, Address::HL),
            0x87 => self.res(mmu, 0, A),
            0x88 => self.res(mmu, 1, B),
            0x89 => self.res(mmu, 1, C),
            0x8A => self.res(mmu, 1, D),
            0x8B => self.res(mmu, 1, E),
            0x8C => self.res(mmu, 1, H),
            0x8D => self.res(mmu, 1, L),
            0x8E => self.res(mmu, 1, Address::HL),
            0x8F => self.res(mmu, 1, A),
            0x90 => self.res(mmu, 2, B),
            0x91 => self.res(mmu, 2, C),
            0x92 => self.res(mmu, 2, D),
            0x93 => self.res(mmu, 2, E),
            0x94 => self.res(mmu, 2, H),
            0x95 => self.res(mmu, 2, L),
            0x96 => self.res(mmu, 2, Address::HL),
            0x97 => self.res(mmu, 2, A),
            0x98 => self.res(mmu, 3, B),
            0x99 => self.res(mmu, 3, C),
            0x9A => self.res(mmu, 3, D),
            0x9B => self.res(mmu, 3, E),
            0x9C => self.res(mmu, 3, H),
            0x9D => self.res(mmu, 3, L),
            0x9E => self.res(mmu, 3, Address::HL),
            0x9F => self.res(mmu, 3, A),
            0xA0 => self.res(mmu, 4, B),
            0xA1 => self.res(mmu, 4, C),
            0xA2 => self.res(mmu, 4, D),
            0xA3 => self.res(mmu, 4, E),
            0xA4 => self.res(mmu, 4, H),
            0xA5 => self.res(mmu, 4, L),
            0xA6 => self.res(mmu, 4, Address::HL),
            0xA7 => self.res(mmu, 4, A),
            0xA8 => self.res(mmu, 5, B),
            0xA9 => self.res(mmu, 5, C),
            0xAA => self.res(mmu, 5, D),
            0xAB => self.res(mmu, 5, E),
            0xAC => self.res(mmu, 5, H),
            0xAD => self.res(mmu, 5, L),
            0xAE => self.res(mmu, 5, Address::HL),
            0xAF => self.res(mmu, 5, A),
            0xB0 => self.res(mmu, 6, B),
            0xB1 => self.res(mmu, 6, C),
            0xB2 => self.res(mmu, 6, D),
            0xB3 => self.res(mmu, 6, E),
            0xB4 => self.res(mmu, 6, H),
            0xB5 => self.res(mmu, 6, L),
            0xB6 => self.res(mmu, 6, Address::HL),
            0xB7 => self.res(mmu, 6, A),
            0xB8 => self.res(mmu, 7, B),
            0xB9 => self.res(mmu, 7, C),
            0xBA => self.res(mmu, 7, D),
            0xBB => self.res(mmu, 7, E),
            0xBC => self.res(mmu, 7, H),
            0xBD => self.res(mmu, 7, L),
            0xBE => self.res(mmu, 7, Address::HL),
            0xBF => self.res(mmu, 7, A),
            _ => (),
        }
    }

    #[verifier::rlimit(100)]
    #[verifier::spinoff_prover]
    fn dispatch_c3(&mut self, mmu: &mut MMU, op: u8)
        requires
            old(mmu).wf(),
        ensures
            final(mmu).wf(),
            (*final(self), final(mmu)@) == spec_dispatch_c3(op, *old(self), old(mmu)@),
    {
        proof {
            reveal(spec_dispatch_c3);
        }
        match op {
            0xC0 => self.set(mmu, 0, B),
            0xC1 => self.set(mmu, 0, C),
            0xC2 => self.set(mmu, 0, D),
            0xC3 => self.set(mmu, 0, E),
            0xC4 => self.set(mmu, 0, H),
            0xC5 => self.set(mmu, 0, L),
            0xC6 => self.set(mmu, 0, Address::HL),
            0xC7 => self.set(mmu, 0, A),
            0xC8 => self.set(mmu, 1, B),
            0xC9 => self.set(mmu, 1, C),
            0xCA => self.set(mmu, 1, D),
            0xCB => self.set(mmu, 1, E),
            0xCC => self.set(mmu, 1, H),
            0xCD => self.set(mmu, 1, L),
            0xCE => self.set(mmu, 1, Address::HL),
            0xCF => self.set(mmu, 1, A),
            0xD0 => self.set(mmu, 2, B),
            0xD1 => self.set(mmu, 2, C),
            0xD2 => self.set(mmu, 2, D),
            0xD3 => self.set(mmu, 2, E),
            0xD4 => self.set(mmu, 2, H),
            0xD5 => self.set(mmu, 2, L),
            0xD6 => self.set(mmu, 2, Address::HL),
            0xD7 => self.set(mmu, 2, A),
            0xD8 => self.set(mmu, 3, B),
            0xD9 => self.set(mmu, 3, C),
            0xDA => self.set(mmu, 3, D),
            0xDB => self.set(mmu, 3, E),
            0xDC => self.set(mmu, 3, H),
            0xDD => self.set(mmu, 3, L),
            0xDE => self.set(mmu, 3, Address::HL),
            0xDF => self.set(mmu, 3, A),
            0xE0 => self.set(mmu, 4, B),
            0xE1 => self.set(mmu, 4, C),
            0xE2 => self.set(mmu, 4, D),
            0xE3 => self.set(mmu, 4, E),
            0xE4 => self.set(mmu, 4, H),
            0xE5 => self.set(mmu, 4, L),
            0xE6 => self.set(mmu, 4, Address::HL),
            0xE7 => self.set(mmu, 4, A),
            0xE8 => self.set(mmu, 5, B),
            0xE9 => self.set(mmu, 5, C),
            0xEA => self.set(mmu, 5, D),
            0xEB => self.set(mmu, 5, E),
            0xEC => self.set(mmu, 5, H),
            0xED => self.set(mmu, 5, L),
            0xEE => self.set(mmu, 5, Address::HL),
            0xEF => self.set(mmu, 5, A),
            0xF0 => self.set(mmu, 6, B),
            0xF1 => self.set(mmu, 6, C),
            0xF2 => self.set(mmu, 6, D),
            0xF3 => self.set(mmu, 6, E),
            0xF4 => self.set(mmu, 6, H),
            0xF5 => self.set(mmu, 6, L),
            0xF6 => self.set(mmu, 6, Address::HL),
            0xF7 => self.set(mmu, 6, A),
            0xF8 => self.set(mmu, 7, B),
            0xF9 => self.set(mmu, 7, C),
            0xFA => self.set(mmu, 7, D),
            0xFB => self.set(mmu, 7, E),
            0xFC => self.set(mmu, 7, H),
            0xFD => self.set(mmu, 7, L),
            0xFE => self.set(mmu, 7, Address::HL),
            0xFF => self.set(mmu, 7, A),
            _ => (),
        }
    }

    /// Execute one primary-table opcode; false exactly on the table's
    /// holes, which leave the machine unchanged.
    pub fn dispatch_primary(&mut self, mmu: &mut MMU, op: u8) -> (ok: bool)
        requires
            old(mmu).wf(),
        ensures
            final(mmu).wf(),
            ({
                let (c2, m2, ok2) = spec_dispatch_primary(op, *old(self), old(mmu)@);
                *final(self) == c2 && final(mmu)@ == m2 && ok == ok2
            }),
    {
        if op < 0x40 {
            self.dispatch_p0(mmu, op)
        } else if op < 0x80 {
            self.dispatch_p1(mmu, op)
        } else if op < 0xC0 {
            self.dispatch_p2(mmu, op)
        } else {
            self.dispatch_p3(mmu, op)
        }
    }

    /// Execute one extended-table opcode.
    pub fn dispatch_cb(&mut self, mmu: &mut MMU, op: u8)
        requires
            old(mmu).wf(),
        ensures
            final(mmu).wf(),
            (*final(self), final(mmu)@) == spec_dispatch_cb(op, *old(self), old(mmu)@),
    {
        if op < 0x40 {
            self.dispatch_c0(mmu, op)
        } else if op < 0x80 {
            self.dispatch_c1(mmu, op)
        } else if op < 0xC0 {
            self.dispatch_c2(mmu, op)
        } else {
            self.dispatch_c3(mmu, op)
        }
    }
}

/// One CPU step: the interrupt-enable state machine advances; a pending
/// enabled interrupt is serviced instead of fetching; a halted CPU either
/// wakes (leaving the interrupt pending) or lets one cycle pass; otherwise
/// one opcode is fetched and executed, through the extended table after a
/// 0xCB prefix byte. The error names the fetched opcode and its address,
/// exactly on the primary table's holes.
#[verifier::opaque]
pub open spec fn spec_cpu_step(c: CPU, m: MmuV) -> (CPU, MmuV, Option<UnknownOpcode>) {
    let c0 = if c.interrupt_state is Enabling {
        CPU { interrupt_state: InterruptStatus::Enabled, ..c }
    } else {
        c
    };
    if c.interrupt_state is Enabled && spec_enabled_flags(m.intr) != 0 {
        let (c1, m1) = spec_handle_interrupt(c0, m);
        (c1, m1, None)
    } else if c0.halted {
        if spec_enabled_flags(m.intr) != 0 {
            (CPU { halted: false, ..c0 }, m, None)
        } else {
            (c0, spec_mmu_tick(m), None)
        }
    } else {
        let pc0 = c0.r.pc;
        let (op, c1, m1) = spec_next_u8(c0, m);
        if op == 0xCB {
            let (op2, c2, m2) = spec_next_u8(c1, m1);
            let (c3, m3) = spec_dispatch_cb(op2, c2, m2);
            (c3, m3, None)
        } else {
            let (c2, m2, ok) = spec_dispatch_primary(op, c1, m1);
            if ok {
                (c2, m2, None)
            } else {
                (c2, m2, Some(UnknownOpcode { opcode: op, addr: pc0 }))
            }
        }
    }
}

/// The machine after `n` successful CPU steps, stopping at the first decode
/// error.
pub open spec fn spec_run_steps(c: CPU, m: MmuV, n: nat) -> (CPU, MmuV, Option<UnknownOpcode>)
    decreases n,
{
    if n == 0 {
        (c, m, None)
    } else {
        let (c1, m1, e) = spec_run_steps(c, m, (n - 1) as nat);
        if e is Some {
            (c1, m1, e)
        } else {
            spec_cpu_step(c1, m1)
        }
    }
}

/// The bus state with the frame-ready latch acknowledged.
pub open spec fn spec_ack_frame(m: MmuV) -> MmuV {
    MmuV { lcd: crate::lcd::LcdV { frame_ready: false, ..m.lcd }, ..m }
}

impl CPU {
    /// Execute exactly one instruction, or service one interrupt, or let
    /// one cycle pass while halted. Fails exactly when the fetched opcode
    /// is a hole of the primary table, naming the opcode and its address.
    pub fn step(&mut self, mmu: &mut MMU) -> (r: Result<(), UnknownOpcode>)
        requires
            old(mmu).wf(),
        ensures
            final(mmu).wf(),
            ({
                let (c2, m2, e) = spec_cpu_step(*old(self), old(mmu)@);
                &&& *final(self) == c2
                &&& final(mmu)@ == m2
                &&& (match r {
                    Ok(_) => e is None,
                    Err(er) => e == Some(er),
                })
            }),
    {
        proof {
            reveal(spec_cpu_step);
        }
        let interrupt = match self.interrupt_state {
            InterruptStatus::Enabled => mmu.interrupt.get_enabled_flags() != 0,
            InterruptStatus::Enabling => {
                self.interrupt_state = InterruptStatus::Enabled;
                false
            },
            InterruptStatus::Disabled => false,
        };
        if interrupt {
            self.handle_interrupt(mmu);
            return Ok(());
        }
        if self.halted {
            if mmu.interrupt.get_enabled_flags() != 0 {
                self.halted = false;
            } else {
                mmu.spin();
            }
            return Ok(());
        }

        let pc0: u16 = self.r.pc;
        let op = self.next_u8(mmu);
        if op == 0xCB {
            let op2 = self.next_u8(mmu);
            self.dispatch_cb(mmu, op2);
            Ok(())
        } else {
            if self.dispatch_primary(mmu, op) {
                Ok(())
            } else {
                Err(UnknownOpcode { opcode: op, addr: pc0 })
            }
        }
    }

    /// Acknowledge any latched frame, then step until the display controller
    /// latches the next completed frame; the machine goes through exactly a
    /// sequence of CPU steps, and stops early only with a decode error. The
    /// loop carries an astronomically large step budget as its termination
    /// witness; a frame normally takes tens of thousands of steps, and only
    /// exhausting the whole budget can end the call with neither a frame
    /// nor an error.
    pub fn run_to_vblank(&mut self, mmu: &mut MMU) -> (r: Result<(), UnknownOpcode>)
        requires
            old(mmu).wf(),
        ensures
            final(mmu).wf(),
            exists|n: nat|
                #[trigger] spec_run_steps(*old(self), spec_ack_frame(old(mmu)@), n) == (
                *final(self),
                final(mmu)@,
                match r {
                    Ok(_) => None::<UnknownOpcode>,
                    Err(e) => Some(e),
                },
                ),
            r is Ok ==> final(mmu)@.lcd.frame_ready || exists|n: nat|
                n == u64::MAX && #[trigger] spec_run_steps(
                    *old(self),
                    spec_ack_frame(old(mmu)@),
                    n,
                ) == (*final(self), final(mmu)@, None::<UnknownOpcode>),
    {
        mmu.lcd.clear_vblank_reached();
        let ghost start_c = *self;
        let ghost start_m = mmu@;
        let mut budget: u64 = 0;
        let ghost mut n: nat = 0;
        proof {
            assert(spec_run_steps(start_c, start_m, 0) == (*self, mmu@, None::<UnknownOpcode>));
        }
        while budget < u64::MAX && !mmu.lcd.vblank_reached()
            invariant
                mmu.wf(),
                start_c == *old(self),
                start_m == spec_ack_frame(old(mmu)@),
                n == budget,
                spec_run_steps(start_c, start_m, n) == (*self, mmu@, None::<UnknownOpcode>),
            decreases u64::MAX - budget,
        {
            match self.step(mmu) {
                Ok(_) => {
                    proof {
                        n = n + 1;
                        assert(spec_run_steps(start_c, start_m, n) == (
                            *self,
                            mmu@,
                            None::<UnknownOpcode>,
                        ));
                    }
                },
                Err(e) => {
                    proof {
                        n = n + 1;
                        assert(spec_run_steps(start_c, start_m, n) == (*self, mmu@, Some(e)));
                    }
                    return Err(e);
                },
            }
            budget = budget + 1;
        }
        Ok(())
    }

    /// Step until a decode error, reporting it; the machine goes through
    /// exactly a sequence of successful CPU steps first. The loop carries
    /// an astronomically large step budget as its termination witness, and
    /// only exhausting the whole budget can end the call without an error.
    pub fn run_forever(&mut self, mmu: &mut MMU) -> (r: Result<(), UnknownOpcode>)
        requires
            old(mmu).wf(),
        ensures
            final(mmu).wf(),
            exists|n: nat|
                #[trigger] spec_run_steps(*old(self), old(mmu)@, n) == (
                *final(self),
                final(mmu)@,
                match r {
                    Ok(_) => None::<UnknownOpcode>,
                    Err(e) => Some(e),
                },
                ),
            r is Ok ==> exists|n: nat|
                n == u64::MAX && #[trigger] spec_run_steps(*old(self), old(mmu)@, n) == (
                *final(self),
                final(mmu)@,
                None::<UnknownOpcode>,
                ),
    {
        let ghost start_c = *self;
        let ghost start_m = mmu@;
        let mut budget: u64 = 0;
        let ghost mut n: nat = 0;
        while budget < u64::MAX
            invariant
                mmu.wf(),
                start_c == *old(self),
                start_m == old(mmu)@,
                n == budget,
                spec_run_steps(start_c, start_m, n) == (*self, mmu@, None::<UnknownOpcode>),
            decreases u64::MAX - budget,
        {
            match self.step(mmu) {
                Ok(_) => {
                    proof {
                        n = n + 1;
                        assert(spec_run_steps(start_c, start_m, n) == (
                            *self,
                            mmu@,
                            None::<UnknownOpcode>,
                        ));
                    }
                },
                Err(e) => {
                    proof {
                        n = n + 1;
                        assert(spec_run_steps(start_c, start_m, n) == (*self, mmu@, Some(e)));
                    }
                    return Err(e);
                },
            }
            budget = budget + 1;
        }
        Ok(())
    }
}



/// Law: reading a register operand has no effect on the machine, so two
/// reads with no write between them return the same value.
pub proof fn lemma_register_read_idempotent(reg: Register8Bit, c: CPU, m: MmuV)
    ensures
        ({
            let (v1, c1, m1) = reg.spec_read8(c, m);
            let (v2, c2, m2) = reg.spec_read8(c1, m1);
            v2 == v1 && c1 == c && m1 == m && c2 == c1 && m2 == m1
        }),
{
}

/// Law: the same, for the 16-bit register pairs.
pub proof fn lemma_register_pair_read_idempotent(reg: Register16Bit, c: CPU, m: MmuV)
    ensures
        ({
            let (v1, c1, m1) = reg.spec_read16(c, m);
            let (v2, c2, m2) = reg.spec_read16(c1, m1);
            v2 == v1 && c1 == c && m1 == m && c2 == c1 && m2 == m1
        }),
{
}

/// Stack-pointer positions whose two stack bytes both lie in work RAM, in
/// its echo, or in high RAM: the regions where a store is read back
/// unchanged. (A stack pointed into the cartridge ROM window, for one, does
/// not satisfy the round-trip law: stores there latch bank-control state
/// instead of bytes.)
pub open spec fn spec_stack_in_plain_ram(sp: u16) -> bool {
    (0xC002 <= sp <= 0xE000) || (0xE002 <= sp <= 0xFE00) || (0xFF82 <= sp <= 0xFFFF)
}

/// Law: pushing a word and then popping returns the word unchanged and
/// restores the stack pointer to its pre-push value, for every word, from
/// any machine state whose stack lies in plain RAM.
pub proof fn lemma_push_pop_roundtrip(c: CPU, m: MmuV, v: u16)
    requires
        spec_stack_in_plain_ram(c.r.sp),
        m.ram.len() == 0x2000,
        m.hram.len() == 0x7F,
    ensures
        ({
            let (c1, m1) = spec_push_u16(c, m, v);
            let (v2, c2, m2) = spec_pop_u16(c1, m1);
            v2 == v && c2.r.sp == c.r.sp
        }),
{
    reveal(crate::mmu::spec_mmu_tick);
    reveal(crate::mmu::spec_read_addr);
    reveal(crate::mmu::spec_write_addr);
    let a1 = spec_wsub16(c.r.sp, 1);
    let a2 = spec_wsub16(c.r.sp, 2);
    let hi = (v / 0x100) as u8;
    let lo = (v % 0x100) as u8;
    let (c1, m1) = spec_push_u16(c, m, v);
    assert(c1.r.sp == a2);
    if 0xC002 <= c.r.sp <= 0xE000 {
        assert(m1.ram[a2 - 0xC000] == lo && m1.ram[a1 - 0xC000] == hi);
        let (v2, c2, m2) = spec_pop_u16(c1, m1);
        assert(v2 == hi * 0x100 + lo);
    } else if 0xE002 <= c.r.sp <= 0xFE00 {
        assert(m1.ram[a2 - 0xE000] == lo && m1.ram[a1 - 0xE000] == hi);
        let (v2, c2, m2) = spec_pop_u16(c1, m1);
        assert(v2 == hi * 0x100 + lo);
    } else {
        assert(m1.hram[a2 - 0xFF80] == lo && m1.hram[a1 - 0xFF80] == hi);
        let (v2, c2, m2) = spec_pop_u16(c1, m1);
        assert(v2 == hi * 0x100 + lo);
    }
}


/// Law: the stack-push instruction of a general-purpose register pair
/// followed by the pop into the same pair restores both the pair and the
/// stack pointer. (A pop into AF keeps only the flag nibble of its low
/// byte, so the law is stated on an ordinary pair.)
pub proof fn lemma_push16_pop16_roundtrip(c: CPU, m: MmuV)
    requires
        spec_stack_in_plain_ram(c.r.sp),
        m.ram.len() == 0x2000,
        m.hram.len() == 0x7F,
    ensures
        ({
            let (c1, m1) = spec_op_push16(Register16Bit::BC, c, m);
            let (c2, m2) = spec_op_pop16(Register16Bit::BC, c1, m1);
            c2.r.b == c.r.b && c2.r.c == c.r.c && c2.r.sp == c.r.sp
        }),
{
    let v = spec_get_u16(c.r, Register16Bit::BC);
    let m1 = spec_mmu_tick(m);
    assert(m1.ram == m.ram && m1.hram == m.hram) by {
        reveal(crate::mmu::spec_mmu_tick);
    }
    lemma_push_pop_roundtrip(c, m1, v);
}

} // verus!
