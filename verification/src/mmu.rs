//! The memory bus: routes every 16-bit address to its backing component,
//! and advances the shared cycle counter, the timer, and the display
//! controller by one machine cycle on every access.

use vstd::prelude::*;
use crate::cartridge::{CartV, Cartridge, spec_cart_read, spec_cart_write};
use crate::interrupt::InterruptHandler;
use crate::joypad::{Controls, Joypad, spec_joypad_apply, spec_joypad_byte, spec_joypad_select,
    spec_new_press};
use crate::interrupt::{Interrupt, spec_set_interrupt};
use crate::lcd::{LCD, LcdV, spec_lcd_read_register, spec_lcd_step, spec_lcd_write_register,
    spec_oam_read, spec_oam_write};
use crate::timer::{Timer, spec_timer_read, spec_timer_step, spec_timer_write};

verus! {

/// The memory bus and every component it owns.
pub struct MMU {
    pub cart: Cartridge,
    pub system_ram: Vec<u8>,
    pub high_ram: Vec<u8>,
    pub serial: u8,
    pub serial_out: Vec<u8>,
    pub interrupt: InterruptHandler,
    pub cycles: u32,
    pub prev_cycles: u32,
    pub timer: Timer,
    pub lcd: LCD,
    pub joypad: Joypad,
}

/// The mathematical view of the bus: every routable byte and every
/// peripheral's state (except the pixel buffers, which no read can observe).
pub struct MmuV {
    pub cart: CartV,
    pub ram: Seq<u8>,
    pub hram: Seq<u8>,
    pub serial: u8,
    pub serial_out: Seq<u8>,
    pub intr: InterruptHandler,
    pub cycles: u32,
    pub prev_cycles: u32,
    pub timer: Timer,
    pub lcd: LcdV,
    pub joypad: Joypad,
}

impl View for MMU {
    type V = MmuV;

    open spec fn view(&self) -> MmuV {
        MmuV {
            cart: self.cart@,
            ram: self.system_ram@,
            hram: self.high_ram@,
            serial: self.serial,
            serial_out: self.serial_out@,
            intr: self.interrupt,
            cycles: self.cycles,
            prev_cycles: self.prev_cycles,
            timer: self.timer,
            lcd: self.lcd@,
            joypad: self.joypad,
        }
    }
}

/// One machine cycle of shared time: four clock cycles on the counter, then
/// one step of the timer and one of the display controller, each of which
/// may raise interrupt lines.
#[verifier::opaque]
pub open spec fn spec_mmu_tick(m: MmuV) -> MmuV {
    let cycles = ((m.cycles + 4) % 0x1_0000_0000) as u32;
    let (t, ih1) = spec_timer_step(m.timer, m.intr);
    let (l, ih2) = spec_lcd_step(m.lcd, ih1);
    MmuV { cycles, timer: t, intr: ih2, lcd: l, ..m }
}

/// The byte at an address, over the routing table, without advancing time.
#[verifier::opaque]
pub open spec fn spec_read_addr(m: MmuV, addr: u16) -> u8 {
    if addr < 0x8000 {
        spec_cart_read(m.cart.mbc, addr)
    } else if addr < 0x9800 {
        m.lcd.tile_data[addr - 0x8000]
    } else if addr < 0xA000 {
        m.lcd.bg_maps[addr - 0x9800]
    } else if addr < 0xC000 {
        spec_cart_read(m.cart.mbc, addr)
    } else if addr < 0xE000 {
        m.ram[addr - 0xC000]
    } else if addr < 0xFE00 {
        m.ram[addr - 0xE000]
    } else if addr < 0xFEA0 {
        spec_oam_read(m.lcd.oam, (addr - 0xFE00) as u16)
    } else if addr < 0xFF00 {
        0xFF
    } else if addr == 0xFF00 {
        spec_joypad_byte(m.joypad)
    } else if addr < 0xFF04 {
        0xFF
    } else if addr < 0xFF08 {
        spec_timer_read(m.timer, addr)
    } else if addr < 0xFF0F {
        0xFF
    } else if addr == 0xFF0F {
        m.intr.flag
    } else if addr < 0xFF40 {
        0xFF
    } else if addr < 0xFF4C {
        spec_lcd_read_register(m.lcd, addr)
    } else if addr < 0xFF80 {
        0xFF
    } else if addr < 0xFFFF {
        m.hram[addr - 0xFF80]
    } else {
        m.intr.enable
    }
}

/// One byte of a direct-memory-access block copy: one cycle for the source
/// read, one for the destination write, and the byte lands in the object
/// attribute table.
pub open spec fn spec_dma_byte(m: MmuV, src: u16, offset: u16) -> MmuV {
    let m1 = spec_mmu_tick(m);
    let data = spec_read_addr(m1, (src + offset) as u16);
    let m2 = spec_mmu_tick(m1);
    MmuV { lcd: LcdV { oam: spec_oam_write(m2.lcd.oam, offset, data), ..m2.lcd }, ..m2 }
}

/// The first `n` bytes of a direct-memory-access block copy.
pub open spec fn spec_dma_copy(m: MmuV, src: u16, n: nat) -> MmuV
    decreases n,
{
    if n == 0 {
        m
    } else {
        spec_dma_byte(spec_dma_copy(m, src, (n - 1) as nat), src, (n - 1) as u16)
    }
}

/// The bus after a write at an address, over the routing table, without the
/// leading time step. A write to the transfer register starts the 160-byte
/// block copy into the object attribute table from the page the value
/// names; a write to the serial-control register appends the latched serial
/// byte to the serial output log.
#[verifier::opaque]
pub open spec fn spec_write_addr(m: MmuV, addr: u16, value: u8) -> MmuV {
    if addr < 0x8000 {
        MmuV { cart: CartV { mbc: spec_cart_write(m.cart.mbc, addr, value), ..m.cart }, ..m }
    } else if addr < 0x9800 {
        MmuV { lcd: LcdV { tile_data: m.lcd.tile_data.update(addr - 0x8000, value), ..m.lcd }, ..m }
    } else if addr < 0xA000 {
        MmuV { lcd: LcdV { bg_maps: m.lcd.bg_maps.update(addr - 0x9800, value), ..m.lcd }, ..m }
    } else if addr < 0xC000 {
        MmuV { cart: CartV { mbc: spec_cart_write(m.cart.mbc, addr, value), ..m.cart }, ..m }
    } else if addr < 0xE000 {
        MmuV { ram: m.ram.update(addr - 0xC000, value), ..m }
    } else if addr < 0xFE00 {
        MmuV { ram: m.ram.update(addr - 0xE000, value), ..m }
    } else if addr < 0xFEA0 {
        MmuV { lcd: LcdV { oam: spec_oam_write(m.lcd.oam, (addr - 0xFE00) as u16, value), ..m.lcd },
            ..m }
    } else if addr < 0xFF00 {
        m
    } else if addr == 0xFF00 {
        MmuV { joypad: Joypad { selection: spec_joypad_select(value), ..m.joypad }, ..m }
    } else if addr == 0xFF01 {
        MmuV { serial: value, ..m }
    } else if addr == 0xFF02 {
        MmuV { serial_out: m.serial_out.push(m.serial), ..m }
    } else if addr == 0xFF03 {
        m
    } else if addr < 0xFF08 {
        MmuV { timer: spec_timer_write(m.timer, addr, value), ..m }
    } else if addr < 0xFF0F {
        m
    } else if addr == 0xFF0F {
        MmuV { intr: InterruptHandler { flag: value, ..m.intr }, ..m }
    } else if addr < 0xFF40 {
        m
    } else if addr == 0xFF46 {
        spec_dma_copy(m, (value * 0x100) as u16, 160)
    } else if addr < 0xFF4C {
        MmuV { lcd: spec_lcd_write_register(m.lcd, addr, value), ..m }
    } else if addr < 0xFF80 {
        m
    } else if addr < 0xFFFF {
        MmuV { hram: m.hram.update(addr - 0xFF80, value), ..m }
    } else {
        MmuV { intr: InterruptHandler { enable: value, ..m.intr }, ..m }
    }
}

/// A bus read: one machine cycle of time, then the byte at the address in
/// the advanced state.
pub open spec fn spec_bus_read(m: MmuV, addr: u16) -> (u8, MmuV) {
    let m1 = spec_mmu_tick(m);
    (spec_read_addr(m1, addr), m1)
}

/// A bus write: one machine cycle of time, then the store at the address.
pub open spec fn spec_bus_write(m: MmuV, addr: u16, value: u8) -> MmuV {
    spec_write_addr(spec_mmu_tick(m), addr, value)
}

/// The bus state right after loading a cartridge: zeroed memories, power-on
/// peripherals, no time elapsed.
pub open spec fn spec_mmu_new(cart: CartV) -> MmuV {
    MmuV {
        cart,
        ram: Seq::<u8>::new(0x2000, |i: int| 0u8),
        hram: Seq::<u8>::new(0x7F, |i: int| 0u8),
        serial: 0,
        serial_out: Seq::<u8>::empty(),
        intr: InterruptHandler { flag: 0, enable: 0 },
        cycles: 0,
        prev_cycles: 0,
        timer: crate::timer::spec_timer_new(),
        lcd: crate::lcd::spec_lcd_new(),
        joypad: Joypad {
            buttons: 0,
            directions: 0,
            selection: crate::joypad::JoypadSelection::Neither,
        },
    }
}

impl MMU {
    /// The structural invariant: each backing array has its hardware size
    /// and the owned peripherals are well formed.
    pub open spec fn wf(&self) -> bool {
        &&& self.system_ram@.len() == 0x2000
        &&& self.high_ram@.len() == 0x7F
        &&& self.lcd.wf()
        &&& self.timer.wf()
    }

    pub fn new(cartridge: Cartridge) -> (r: MMU)
        ensures
            r.wf(),
            r@ == spec_mmu_new(cartridge@),
    {
        let r = MMU {
            cart: cartridge,
            system_ram: vec![0u8; 0x2000],
            high_ram: vec![0u8; 0x7F],
            serial: 0,
            serial_out: Vec::new(),
            interrupt: InterruptHandler::new(),
            cycles: 0,
            prev_cycles: 0,
            timer: Timer::new(),
            lcd: LCD::new(),
            joypad: Joypad::new(),
        };
        proof {
            assert(r@.ram =~= Seq::<u8>::new(0x2000, |i: int| 0u8));
            assert(r@.hram =~= Seq::<u8>::new(0x7F, |i: int| 0u8));
            assert(r@.serial_out =~= Seq::<u8>::empty());
        }
        r
    }

    /// The clock cycles elapsed since power-on, wrapping.
    pub fn get_cycles(&self) -> (c: u32)
        ensures
            c == self@.cycles,
    {
        self.cycles
    }

    /// The clock cycles elapsed since this was last asked, as a byte.
    pub fn get_cycle_diff(&mut self) -> (d: u8)
        ensures
            *final(self) == (MMU { prev_cycles: old(self).cycles, ..*old(self) }),
            d == ((old(self).cycles - old(self).prev_cycles) % 0x1_0000_0000) % 0x100,
    {
        let cycle_diff = self.cycles.wrapping_sub(self.prev_cycles);
        self.prev_cycles = self.cycles;
        (cycle_diff % 0x100) as u8
    }

    /// Advance shared time by the given number of machine cycles' worth of
    /// clock cycles.
    pub fn add_machine_cycles(&mut self, machine_cycles: u8)
        ensures
            *final(self) == (MMU {
                cycles: ((old(self).cycles + machine_cycles * 4) % 0x1_0000_0000) as u32,
                ..*old(self)
            }),
    {
        self.cycles = self.cycles.wrapping_add(machine_cycles as u32 * 4);
    }

    /// One machine cycle of shared time: the cycle counter, the timer, and
    /// the display controller each advance once.
    pub fn step(&mut self)
        requires
            old(self).wf(),
        ensures
            final(self).wf(),
            final(self)@ == spec_mmu_tick(old(self)@),
    {
        proof {
            reveal(spec_mmu_tick);
        }
        self.add_machine_cycles(1);
        self.timer.step(&mut self.interrupt);
        self.lcd.step(&mut self.interrupt);
    }

    /// A pure time step with no data transfer, for instruction-internal
    /// delays.
    pub fn spin(&mut self)
        requires
            old(self).wf(),
        ensures
            final(self).wf(),
            final(self)@ == spec_mmu_tick(old(self)@),
    {
        self.step();
    }

    /// The byte at an address, without advancing time.
    pub fn read_addr_map(&self, addr: u16) -> (v: u8)
        requires
            self.wf(),
        ensures
            v == spec_read_addr(self@, addr),
    {
        proof {
            reveal(spec_read_addr);
        }
        if addr < 0x8000 {
            self.cart.read(addr)
        } else if addr < 0x9800 {
            self.lcd.vram_tile_data[(addr - 0x8000) as usize]
        } else if addr < 0xA000 {
            self.lcd.vram_bg_maps[(addr - 0x9800) as usize]
        } else if addr < 0xC000 {
            self.cart.read(addr)
        } else if addr < 0xE000 {
            self.system_ram[(addr - 0xC000) as usize]
        } else if addr < 0xFE00 {
            self.system_ram[(addr - 0xE000) as usize]
        } else if addr < 0xFEA0 {
            self.lcd.read_oam(addr - 0xFE00)
        } else if addr < 0xFF00 {
            0xFF
        } else if addr == 0xFF00 {
            self.joypad.as_u8()
        } else if addr < 0xFF04 {
            0xFF
        } else if addr < 0xFF08 {
            self.timer.read_register(addr)
        } else if addr < 0xFF0F {
            0xFF
        } else if addr == 0xFF0F {
            self.interrupt.get_flag()
        } else if addr < 0xFF40 {
            0xFF
        } else if addr < 0xFF4C {
            self.lcd.read_register(addr)
        } else if addr < 0xFF80 {
            0xFF
        } else if addr < 0xFFFF {
            self.high_ram[(addr - 0xFF80) as usize]
        } else {
            self.interrupt.get_enable()
        }
    }

    /// Store a byte at an address, without the leading time step.
    pub fn write_addr_map(&mut self, addr: u16, value: u8)
        requires
            old(self).wf(),
        ensures
            final(self).wf(),
            final(self)@ == spec_write_addr(old(self)@, addr, value),
    {
        proof {
            reveal(spec_write_addr);
        }
        if addr < 0x8000 {
            self.cart.write(addr, value);
        } else if addr < 0x9800 {
            self.lcd.vram_tile_data.set((addr - 0x8000) as usize, value);
        } else if addr < 0xA000 {
            self.lcd.vram_bg_maps.set((addr - 0x9800) as usize, value);
        } else if addr < 0xC000 {
            self.cart.write(addr, value);
        } else if addr < 0xE000 {
            self.system_ram.set((addr - 0xC000) as usize, value);
        } else if addr < 0xFE00 {
            self.system_ram.set((addr - 0xE000) as usize, value);
        } else if addr < 0xFEA0 {
            self.lcd.write_oam(addr - 0xFE00, value);
        } else if addr < 0xFF00 {
        } else if addr == 0xFF00 {
            self.joypad.write_select_bits(value);
        } else if addr == 0xFF01 {
            self.serial = value;
        } else if addr == 0xFF02 {
            self.serial_out.push(self.serial);
        } else if addr == 0xFF03 {
        } else if addr < 0xFF08 {
            self.timer.write_register(addr, value);
        } else if addr < 0xFF0F {
        } else if addr == 0xFF0F {
            self.interrupt.set_flag(value);
        } else if addr < 0xFF40 {
        } else if addr == 0xFF46 {
            self.dma_transfer(value);
        } else if addr < 0xFF4C {
            self.lcd.write_register(addr, value);
        } else if addr < 0xFF80 {
        } else if addr < 0xFFFF {
            self.high_ram.set((addr - 0xFF80) as usize, value);
        } else {
            self.interrupt.set_enable(value);
        }
    }

    /// A bus read: advance time one machine cycle, then fetch the byte.
    pub fn read_u8(&mut self, addr: u16) -> (v: u8)
        requires
            old(self).wf(),
        ensures
            final(self).wf(),
            (v, final(self)@) == spec_bus_read(old(self)@, addr),
    {
        self.step();
        self.read_addr_map(addr)
    }

    /// A bus write: advance time one machine cycle, then store the byte.
    pub fn write_u8(&mut self, addr: u16, value: u8)
        requires
            old(self).wf(),
        ensures
            final(self).wf(),
            final(self)@ == spec_bus_write(old(self)@, addr, value),
    {
        self.step();
        self.write_addr_map(addr, value);
    }

    /// The 160-byte block copy into the object attribute table, from the
    /// 256-byte page the value names. Each byte costs one cycle to read and
    /// one to write.
    pub fn dma_transfer(&mut self, value: u8)
        requires
            old(self).wf(),
        ensures
            final(self).wf(),
            final(self)@ == spec_dma_copy(old(self)@, (value * 0x100) as u16, 160),
    {
        let addr: u16 = value as u16 * 0x100;
        let mut offset: u16 = 0;
        while offset < 0xA0
            invariant
                0 <= offset <= 0xA0,
                addr == value * 0x100,
                self.wf(),
                self@ == spec_dma_copy(old(self)@, addr, offset as nat),
            decreases 0xA0 - offset,
        {
            self.step();
            let data = self.read_addr_map(addr + offset);
            self.step();
            self.lcd.write_oam(offset, data);
            offset = offset + 1;
        }
    }

    /// Apply a host control snapshot to the joypad, raising the Joypad
    /// interrupt on a fresh press within the selected group.
    pub fn set_controls(&mut self, controls: Controls)
        ensures
            *final(self) == (MMU {
                joypad: spec_joypad_apply(old(self).joypad, controls),
                interrupt: if spec_new_press(old(self).joypad, controls) {
                    spec_set_interrupt(old(self).interrupt, Interrupt::Joypad)
                } else {
                    old(self).interrupt
                },
                ..*old(self)
            }),
    {
        self.joypad.set_from_controls(controls, &mut self.interrupt);
    }
}

} // verus!
