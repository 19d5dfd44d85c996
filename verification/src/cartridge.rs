//! The cartridge: addressable ROM and RAM behind a bank controller, either
//! the no-banking passthrough or the bank-switched controller.

use vstd::prelude::*;
use vstd::slice::slice_subrange;
use crate::header::{CartridgeError, CartridgeType, Header, HeaderV, spec_header_matches,
    spec_header_outcome};

verus! {

/// Reads of undersized or disabled regions return this sentinel byte.
pub const OPEN_BUS: u8 = 0xFF;

/// The no-banking controller: direct ROM passthrough and a fixed RAM array.
#[derive(Debug)]
pub struct ROM {
    pub rom: Vec<u8>,
    pub ram: Vec<u8>,
}

/// The bank-switched controller: a 7-bit ROM bank selector, a 2-bit RAM bank
/// selector, a RAM-enable latch, and the mode flag that routes the shared
/// 2-bit selector field.
#[derive(Debug)]
pub struct MBC1 {
    pub rom: Vec<u8>,
    pub ram: Vec<u8>,
    pub rom_bank_selection: u8,
    pub ram_bank_selection: u8,
    pub ram_enabled: bool,
    pub ram_select_mode: bool,
}

/// The bank controller selected at load time.
#[derive(Debug)]
pub enum Mbc {
    Rom(ROM),
    Mbc1(MBC1),
}

/// The mathematical view of a bank controller.
pub enum MbcV {
    Rom { rom: Seq<u8>, ram: Seq<u8> },
    Mbc1 {
        rom: Seq<u8>,
        ram: Seq<u8>,
        rom_bank_selection: u8,
        ram_bank_selection: u8,
        ram_enabled: bool,
        ram_select_mode: bool,
    },
}

impl View for Mbc {
    type V = MbcV;

    open spec fn view(&self) -> MbcV {
        match self {
            Mbc::Rom(r) => MbcV::Rom { rom: r.rom@, ram: r.ram@ },
            Mbc::Mbc1(m) => MbcV::Mbc1 {
                rom: m.rom@,
                ram: m.ram@,
                rom_bank_selection: m.rom_bank_selection,
                ram_bank_selection: m.ram_bank_selection,
                ram_enabled: m.ram_enabled,
                ram_select_mode: m.ram_select_mode,
            },
        }
    }
}

/// A byte of a backing store, or the sentinel when the address is outside
/// it.
pub open spec fn spec_store_byte(store: Seq<u8>, addr: int) -> u8 {
    if 0 <= addr < store.len() {
        store[addr]
    } else {
        OPEN_BUS
    }
}

/// The byte a cartridge read returns for an address in the ROM or external
/// RAM windows.
pub open spec fn spec_cart_read(c: MbcV, addr: u16) -> u8 {
    match c {
        MbcV::Rom { rom, ram } => {
            if addr < 0x8000 {
                spec_store_byte(rom, addr as int)
            } else if 0xA000 <= addr < 0xC000 {
                spec_store_byte(ram, addr - 0xA000)
            } else {
                OPEN_BUS
            }
        },
        MbcV::Mbc1 { rom, ram, rom_bank_selection, ram_bank_selection, ram_enabled, .. } => {
            if addr < 0x4000 {
                spec_store_byte(rom, addr as int)
            } else if addr < 0x8000 {
                spec_store_byte(rom, 0x4000 * rom_bank_selection + (addr - 0x4000))
            } else if 0xA000 <= addr < 0xC000 {
                if ram_enabled {
                    spec_store_byte(ram, 0x2000 * ram_bank_selection + (addr - 0xA000))
                } else {
                    OPEN_BUS
                }
            } else {
                OPEN_BUS
            }
        },
    }
}

/// The controller state after a cartridge write: control-register latching
/// in the ROM window, a banked store in the RAM window. A bank-select write
/// whose low five bits are zero is coerced to bank one.
pub open spec fn spec_cart_write(c: MbcV, addr: u16, value: u8) -> MbcV {
    match c {
        MbcV::Rom { rom, ram } => {
            if 0xA000 <= addr < 0xC000 && addr - 0xA000 < ram.len() {
                MbcV::Rom { rom, ram: ram.update(addr - 0xA000, value) }
            } else {
                c
            }
        },
        MbcV::Mbc1 { rom, ram, rom_bank_selection, ram_bank_selection, ram_enabled,
            ram_select_mode } => {
            if addr < 0x2000 {
                MbcV::Mbc1 { ram_enabled: value & 0x0F == 0x0A, rom, ram, rom_bank_selection,
                    ram_bank_selection, ram_select_mode }
            } else if addr < 0x4000 {
                let low = if value & 0x1F == 0 {
                    0x01u8
                } else {
                    (value & 0x1F) as u8
                };
                MbcV::Mbc1 { rom_bank_selection: ((rom_bank_selection & 0x60) | low) as u8, rom,
                    ram, ram_bank_selection, ram_enabled, ram_select_mode }
            } else if addr < 0x6000 {
                if ram_select_mode {
                    MbcV::Mbc1 { ram_bank_selection: (value & 0x03) as u8, rom, ram,
                        rom_bank_selection, ram_enabled, ram_select_mode }
                } else {
                    MbcV::Mbc1 { rom_bank_selection: ((rom_bank_selection & 0x1F) | ((value & 0x03)
                        << 5)) as u8, rom, ram, ram_bank_selection, ram_enabled, ram_select_mode }
                }
            } else if addr < 0x8000 {
                MbcV::Mbc1 { ram_select_mode: value & 0x01 == 0x01, rom, ram, rom_bank_selection,
                    ram_bank_selection, ram_enabled }
            } else if 0xA000 <= addr < 0xC000 {
                if ram_enabled && 0x2000 * ram_bank_selection + (addr - 0xA000) < ram.len() {
                    MbcV::Mbc1 { ram: ram.update(0x2000 * ram_bank_selection + (addr - 0xA000),
                        value), rom, rom_bank_selection, ram_bank_selection, ram_enabled,
                        ram_select_mode }
                } else {
                    c
                }
            } else {
                c
            }
        },
    }
}

impl View for ROM {
    type V = MbcV;

    open spec fn view(&self) -> MbcV {
        MbcV::Rom { rom: self.rom@, ram: self.ram@ }
    }
}

impl View for MBC1 {
    type V = MbcV;

    open spec fn view(&self) -> MbcV {
        MbcV::Mbc1 {
            rom: self.rom@,
            ram: self.ram@,
            rom_bank_selection: self.rom_bank_selection,
            ram_bank_selection: self.ram_bank_selection,
            ram_enabled: self.ram_enabled,
            ram_select_mode: self.ram_select_mode,
        }
    }
}

impl ROM {
    pub fn new(header: &Header, rom: Vec<u8>) -> (r: ROM)
        requires
            header@.ram_size <= 0x20000,
        ensures
            r.rom@ == rom@,
            r.ram@ == Seq::<u8>::new(header@.ram_size as nat, |i: int| 0u8),
    {
        let mut ram: Vec<u8> = Vec::new();
        let n = header.ram_size as usize;
        let mut i: usize = 0;
        while i < n
            invariant
                0 <= i <= n,
                ram@ == Seq::<u8>::new(i as nat, |j: int| 0u8),
            decreases n - i,
        {
            ram.push(0);
            proof {
                assert(ram@ =~= Seq::<u8>::new(i as nat + 1, |j: int| 0u8));
            }
            i = i + 1;
        }
        ROM { rom, ram }
    }

    pub fn read(&self, addr: u16) -> (v: u8)
        ensures
            v == spec_cart_read(self@, addr),
    {
        if addr < 0x8000 {
            if (addr as usize) < self.rom.len() {
                self.rom[addr as usize]
            } else {
                OPEN_BUS
            }
        } else if 0xA000 <= addr && addr < 0xC000 {
            let offset = (addr - 0xA000) as usize;
            if offset < self.ram.len() {
                self.ram[offset]
            } else {
                OPEN_BUS
            }
        } else {
            OPEN_BUS
        }
    }

    pub fn write(&mut self, addr: u16, value: u8)
        ensures
            final(self)@ == spec_cart_write(old(self)@, addr, value),
    {
        if 0xA000 <= addr && addr < 0xC000 {
            let offset = (addr - 0xA000) as usize;
            if offset < self.ram.len() {
                self.ram.set(offset, value);
            }
        }
    }

    pub fn rom_len(&self) -> (n: usize)
        ensures
            n == self.rom@.len(),
    {
        self.rom.len()
    }
}

impl MBC1 {
    pub fn new(header: &Header, rom: Vec<u8>) -> (r: MBC1)
        requires
            header@.ram_size <= 0x20000,
        ensures
            r.rom@ == rom@,
            r.ram@ == Seq::<u8>::new(header@.ram_size as nat, |i: int| 0u8),
            r.rom_bank_selection == 0x01,
            r.ram_bank_selection == 0x00,
            !r.ram_enabled,
            !r.ram_select_mode,
    {
        let mut ram: Vec<u8> = Vec::new();
        let n = header.ram_size as usize;
        let mut i: usize = 0;
        while i < n
            invariant
                0 <= i <= n,
                ram@ == Seq::<u8>::new(i as nat, |j: int| 0u8),
            decreases n - i,
        {
            ram.push(0);
            proof {
                assert(ram@ =~= Seq::<u8>::new(i as nat + 1, |j: int| 0u8));
            }
            i = i + 1;
        }
        MBC1 {
            rom,
            ram,
            rom_bank_selection: 0x01,
            ram_bank_selection: 0x00,
            ram_enabled: false,
            ram_select_mode: false,
        }
    }

    pub fn read(&self, addr: u16) -> (v: u8)
        requires
            addr < 0x8000 || (0xA000 <= addr < 0xC000),
        ensures
            v == spec_cart_read(self@, addr),
    {
        if addr < 0x4000 {
            if (addr as usize) < self.rom.len() {
                self.rom[addr as usize]
            } else {
                OPEN_BUS
            }
        } else if addr < 0x8000 {
            self.read_selected_rom_bank(addr)
        } else {
            self.read_selected_ram_bank(addr)
        }
    }

    pub fn write(&mut self, addr: u16, value: u8)
        requires
            addr < 0x8000 || (0xA000 <= addr < 0xC000),
        ensures
            final(self)@ == spec_cart_write(old(self)@, addr, value),
    {
        if addr < 0x2000 {
            self.enable_ram(value);
        } else if addr < 0x4000 {
            self.select_rom_bank_lower_bits(value);
        } else if addr < 0x6000 {
            if self.ram_select_mode {
                self.select_ram_bank(value);
            } else {
                self.select_rom_bank_upper_bits(value);
            }
        } else if addr < 0x8000 {
            self.ram_select_mode = value & 0x1 == 0x01;
        } else {
            self.write_selected_ram_bank(addr, value);
        }
    }

    pub fn rom_len(&self) -> (n: usize)
        ensures
            n == self.rom@.len(),
    {
        self.rom.len()
    }

    /// A read of the switchable ROM window: the selected bank's 16 KiB,
    /// the sentinel when the banked address is beyond the ROM.
    pub fn read_selected_rom_bank(&self, addr: u16) -> (v: u8)
        requires
            0x4000 <= addr < 0x8000,
        ensures
            v == spec_store_byte(
                self.rom@,
                0x4000 * self.rom_bank_selection + (addr - 0x4000),
            ),
    {
        let bank_addr: u32 = 0x4000u32 * (self.rom_bank_selection as u32) + (addr as u32 - 0x4000);
        if (bank_addr as usize) < self.rom.len() {
            self.rom[bank_addr as usize]
        } else {
            OPEN_BUS
        }
    }

    /// A read of the external RAM window: the selected bank's 8 KiB when RAM
    /// is enabled, the sentinel otherwise or beyond the RAM.
    pub fn read_selected_ram_bank(&self, addr: u16) -> (v: u8)
        requires
            0xA000 <= addr < 0xC000,
        ensures
            v == if self.ram_enabled {
                spec_store_byte(self.ram@, 0x2000 * self.ram_bank_selection + (addr - 0xA000))
            } else {
                OPEN_BUS
            },
    {
        if !self.ram_enabled {
            return OPEN_BUS;
        }
        let bank_addr: u32 = 0x2000u32 * (self.ram_bank_selection as u32) + (addr as u32 - 0xA000);
        if (bank_addr as usize) < self.ram.len() {
            self.ram[bank_addr as usize]
        } else {
            OPEN_BUS
        }
    }

    /// A write to the external RAM window: stored in the selected bank when
    /// RAM is enabled and the banked address is within it, discarded
    /// otherwise.
    pub fn write_selected_ram_bank(&mut self, addr: u16, value: u8)
        requires
            0xA000 <= addr < 0xC000,
        ensures
            final(self).rom@ == old(self).rom@,
            final(self).rom_bank_selection == old(self).rom_bank_selection,
            final(self).ram_bank_selection == old(self).ram_bank_selection,
            final(self).ram_enabled == old(self).ram_enabled,
            final(self).ram_select_mode == old(self).ram_select_mode,
            final(self).ram@ == if old(self).ram_enabled && 0x2000 * old(self).ram_bank_selection
                + (addr - 0xA000) < old(self).ram@.len() {
                old(self).ram@.update(0x2000 * old(self).ram_bank_selection + (addr - 0xA000), value)
            } else {
                old(self).ram@
            },
    {
        if !self.ram_enabled {
            return ;
        }
        let bank_addr: u32 = 0x2000u32 * (self.ram_bank_selection as u32) + (addr as u32 - 0xA000);
        if (bank_addr as usize) < self.ram.len() {
            self.ram.set(bank_addr as usize, value);
        }
    }

    /// The RAM-enable latch: set exactly by a write whose low nibble is 0x0A.
    pub fn enable_ram(&mut self, value: u8)
        ensures
            final(self).ram_enabled == (value & 0x0F == 0x0A),
            *final(self) == (MBC1 { ram_enabled: value & 0x0F == 0x0A, ..*old(self) }),
    {
        self.ram_enabled = value & 0x0F == 0x0A;
    }

    /// The 2-bit RAM bank selector.
    pub fn select_ram_bank(&mut self, value: u8)
        ensures
            *final(self) == (MBC1 { ram_bank_selection: (value & 0x03) as u8, ..*old(self) }),
    {
        self.ram_bank_selection = value & 0b11;
    }

    /// The low five bits of the ROM bank selector; a zero field is coerced
    /// to one, so bank zero is never selectable here.
    pub fn select_rom_bank_lower_bits(&mut self, value: u8)
        ensures
            *final(self) == (MBC1 {
                rom_bank_selection: ((old(self).rom_bank_selection & 0x60) | (if value & 0x1F == 0 {
                    0x01u8
                } else {
                    (value & 0x1F) as u8
                })) as u8,
                ..*old(self)
            }),
    {
        let low = if value & 0x1F == 0 {
            0x01
        } else {
            value & 0x1F
        };
        self.rom_bank_selection = (self.rom_bank_selection & 0x60) | low;
    }

    /// The upper two bits of the ROM bank selector.
    pub fn select_rom_bank_upper_bits(&mut self, value: u8)
        ensures
            *final(self) == (MBC1 {
                rom_bank_selection: ((old(self).rom_bank_selection & 0x1F) | ((value & 0x03) << 5))
                    as u8,
                ..*old(self)
            }),
    {
        self.rom_bank_selection = (self.rom_bank_selection & 0x1F) | ((value & 0x03) << 5);
    }
}

/// A freshly zeroed RAM array of a declared size.
pub open spec fn spec_zero_ram(n: nat) -> Seq<u8> {
    Seq::<u8>::new(n, |i: int| 0u8)
}

/// Whether a cartridge type selects one of the two implemented bank
/// controllers.
pub open spec fn spec_mbc_supported(t: CartridgeType) -> bool {
    match t {
        CartridgeType::ROM | CartridgeType::ROM_RAM | CartridgeType::ROM_RAM_BATTERY => true,
        CartridgeType::MBC1 | CartridgeType::MBC1_RAM | CartridgeType::MBC1_RAM_BATTERY => true,
        _ => false,
    }
}

/// The bank-controller state right after loading: the raw ROM bytes, a
/// zeroed RAM of the declared size, and for the bank-switched controller
/// bank one selected with RAM disabled.
pub open spec fn spec_initial_mbc(t: CartridgeType, rom: Seq<u8>, ram_size: nat) -> MbcV {
    match t {
        CartridgeType::ROM | CartridgeType::ROM_RAM | CartridgeType::ROM_RAM_BATTERY => MbcV::Rom {
            rom,
            ram: spec_zero_ram(ram_size),
        },
        _ => MbcV::Mbc1 {
            rom,
            ram: spec_zero_ram(ram_size),
            rom_bank_selection: 0x01,
            ram_bank_selection: 0x00,
            ram_enabled: false,
            ram_select_mode: false,
        },
    }
}

/// The first reason a ROM image is rejected at load time, or `None` when a
/// cartridge can be built from it.
pub open spec fn spec_cartridge_outcome(rom: Seq<u8>) -> Option<CartridgeError> {
    if rom.len() < 0x150 {
        Some(CartridgeError::MissingHeader)
    } else {
        let hb = rom.subrange(0x100, 0x150);
        match spec_header_outcome(hb) {
            Some(e) => Some(e),
            None => {
                match spec_cartridge_type_of(hb) {
                    Some(t) => if spec_mbc_supported(t) {
                        None
                    } else {
                        Some(CartridgeError::UnsupportedCartridgeType(t))
                    },
                    None => Some(CartridgeError::UnknownCartridgeType(hb[0x47])),
                }
            },
        }
    }
}

/// The cartridge type named by header bytes.
pub open spec fn spec_cartridge_type_of(hb: Seq<u8>) -> Option<CartridgeType> {
    crate::header::spec_cartridge_type_from_code(hb[0x47])
}

/// A loaded cartridge: the decoded header and the selected bank controller.
#[derive(Debug)]
pub struct Cartridge {
    pub header: Header,
    pub mbc: Mbc,
}

/// The mathematical view of a cartridge.
pub struct CartV {
    pub header: HeaderV,
    pub mbc: MbcV,
}

impl View for Cartridge {
    type V = CartV;

    open spec fn view(&self) -> CartV {
        CartV { header: self.header@, mbc: self.mbc@ }
    }
}

impl Cartridge {
    /// Build a cartridge from a whole ROM image: decode the header at
    /// 0x100-0x14F and select the bank controller its type names. Fails,
    /// before any emulation begins, on any unrecognized header byte and on
    /// cartridge types whose controller is not implemented.
    pub fn new(rom: Vec<u8>) -> (r: Result<Cartridge, CartridgeError>)
        ensures
            match r {
                Ok(c) => {
                    &&& spec_cartridge_outcome(rom@) is None
                    &&& spec_header_matches(rom@.subrange(0x100, 0x150), c.header@)
                    &&& c.mbc@ == spec_initial_mbc(
                        c.header@.cartridge_type,
                        rom@,
                        c.header@.ram_size as nat,
                    )
                },
                Err(e) => spec_cartridge_outcome(rom@) == Some(e),
            },
    {
        if rom.len() < 0x150 {
            return Err(CartridgeError::MissingHeader);
        }
        let header_bytes = slice_subrange(rom.as_slice(), 0x100, 0x150);
        let header = match Header::new(header_bytes) {
            Ok(h) => h,
            Err(e) => {
                return Err(e);
            },
        };

        let mbc = match header.cartridge_type {
            CartridgeType::ROM | CartridgeType::ROM_RAM | CartridgeType::ROM_RAM_BATTERY => {
                let r = ROM::new(&header, rom);
                Mbc::Rom(r)
            },
            CartridgeType::MBC1 | CartridgeType::MBC1_RAM | CartridgeType::MBC1_RAM_BATTERY => {
                let m = MBC1::new(&header, rom);
                Mbc::Mbc1(m)
            },
            t => {
                return Err(CartridgeError::UnsupportedCartridgeType(t));
            },
        };

        Ok(Cartridge { header, mbc })
    }

    /// A byte of the cartridge ROM or external RAM windows.
    pub fn read(&self, addr: u16) -> (v: u8)
        requires
            addr < 0x8000 || (0xA000 <= addr < 0xC000),
        ensures
            v == spec_cart_read(self.mbc@, addr),
    {
        match &self.mbc {
            Mbc::Rom(r) => r.read(addr),
            Mbc::Mbc1(m) => m.read(addr),
        }
    }

    /// A write to the cartridge address windows: bank-control latching or a
    /// RAM store.
    pub fn write(&mut self, addr: u16, value: u8)
        requires
            addr < 0x8000 || (0xA000 <= addr < 0xC000),
        ensures
            final(self).mbc@ == spec_cart_write(old(self).mbc@, addr, value),
            final(self).header == old(self).header,
    {
        match &mut self.mbc {
            Mbc::Rom(r) => r.write(addr, value),
            Mbc::Mbc1(m) => m.write(addr, value),
        }
    }

    /// The length of the backing ROM image.
    pub fn rom_len(&self) -> (n: usize)
        ensures
            n == match self.mbc@ {
                MbcV::Rom { rom, .. } => rom.len(),
                MbcV::Mbc1 { rom, .. } => rom.len(),
            },
    {
        match &self.mbc {
            Mbc::Rom(r) => r.rom_len(),
            Mbc::Mbc1(m) => m.rom_len(),
        }
    }
}

} // verus!
