//! The session object: one CPU and one memory bus, driven together.

use vstd::prelude::*;
use crate::cartridge::Cartridge;
use crate::cpu::{CPU, InterruptStatus, UnknownOpcode, spec_ack_frame, spec_run_steps};
use crate::joypad::Controls;
use crate::mmu::{MMU, spec_mmu_new};
use crate::registers::spec_registers_new;

verus! {

/// One emulation session: the CPU and the bus it drives.
pub struct GameBoy {
    pub cpu: CPU,
    pub mmu: MMU,
}

impl GameBoy {
    /// Start a session on a loaded cartridge, with the documented post-boot
    /// register values.
    pub fn new(cartridge: Cartridge) -> (g: GameBoy)
        ensures
            g.mmu.wf(),
            g.cpu == (CPU {
                r: spec_registers_new(),
                interrupt_state: InterruptStatus::Enabled,
                halted: false,
            }),
            g.mmu@ == spec_mmu_new(cartridge@),
    {
        let cpu = CPU::new();
        let mmu = MMU::new(cartridge);
        GameBoy { cpu, mmu }
    }

    /// A copy of the most recently completed frame, row-major RGBA.
    pub fn draw_frame(&self) -> (frame: Vec<u8>)
        ensures
            frame@ == self.mmu.lcd.presented@,
    {
        self.mmu.lcd.get_frame()
    }

    /// Run until the next completed frame is latched; see
    /// [`CPU::run_to_vblank`].
    pub fn run_to_vblank(&mut self) -> (r: Result<(), UnknownOpcode>)
        requires
            old(self).mmu.wf(),
        ensures
            final(self).mmu.wf(),
            exists|n: nat|
                #[trigger] spec_run_steps(old(self).cpu, spec_ack_frame(old(self).mmu@), n) == (
                final(self).cpu,
                final(self).mmu@,
                match r {
                    Ok(_) => None::<UnknownOpcode>,
                    Err(e) => Some(e),
                },
                ),
    {
        self.cpu.run_to_vblank(&mut self.mmu)
    }

    /// Run until a decode error; see [`CPU::run_forever`].
    pub fn run_forever(&mut self) -> (r: Result<(), UnknownOpcode>)
        requires
            old(self).mmu.wf(),
        ensures
            final(self).mmu.wf(),
            exists|n: nat|
                #[trigger] spec_run_steps(old(self).cpu, old(self).mmu@, n) == (
                final(self).cpu,
                final(self).mmu@,
                match r {
                    Ok(_) => None::<UnknownOpcode>,
                    Err(e) => Some(e),
                },
                ),
    {
        self.cpu.run_forever(&mut self.mmu)
    }

    /// Apply one host control snapshot to the joypad.
    pub fn set_controls(&mut self, controls: Controls)
        ensures
            final(self).mmu@ == (crate::mmu::MmuV {
                joypad: crate::joypad::spec_joypad_apply(old(self).mmu@.joypad, controls),
                intr: if crate::joypad::spec_new_press(old(self).mmu@.joypad, controls) {
                    crate::interrupt::spec_set_interrupt(
                        old(self).mmu@.intr,
                        crate::interrupt::Interrupt::Joypad,
                    )
                } else {
                    old(self).mmu@.intr
                },
                ..old(self).mmu@
            }),
            final(self).cpu == old(self).cpu,
            old(self).mmu.wf() ==> final(self).mmu.wf(),
    {
        self.mmu.set_controls(controls);
    }

    /// The serial bytes the program has written so far, in order, clearing
    /// the log.
    pub fn take_serial_output(&mut self) -> (out: Vec<u8>)
        ensures
            out@ == old(self).mmu@.serial_out,
            final(self).mmu@ == (crate::mmu::MmuV { serial_out: Seq::<u8>::empty(), ..old(self).mmu@ }),
            final(self).cpu == old(self).cpu,
            old(self).mmu.wf() ==> final(self).mmu.wf(),
    {
        let mut out: Vec<u8> = Vec::new();
        core::mem::swap(&mut out, &mut self.mmu.serial_out);
        proof {
            assert(self.mmu@.serial_out =~= Seq::<u8>::empty());
        }
        out
    }
}

} // verus!
