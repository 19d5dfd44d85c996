//! The display controller: a scanline-driven state machine over a cycle
//! countdown, memory-mapped control and status registers, video RAM, the
//! object attribute table, and a pixel framebuffer.
//!
//! The scanline timing, the mode transitions, and every interrupt they raise
//! are exactly specified. The pixel bytes the renderer writes into the
//! framebuffer are deliberately left out of the mathematical view: the
//! contracts pin that rendering touches only the current scanline's row, not
//! which shade each pixel gets.

use vstd::prelude::*;
use crate::interrupt::{Interrupt, InterruptHandler, spec_set_interrupt};

verus! {

pub const SCREEN_WIDTH: u16 = 160;

pub const SCREEN_HEIGHT: u16 = 144;

/// Bytes in the framebuffer: width times height, four channels per pixel.
pub const FRAME_BYTES: usize = 92160;

/// Cycles to process one scanline.
pub const SCANLINE_CYCLE_TOTAL: i16 = 456;

/// Above this cycles-remaining mark a visible line is in object search.
pub const MODE2_CYCLE_RANGE: i16 = 376;

/// Above this cycles-remaining mark (and at or below the object-search
/// mark) a visible line is in pixel transfer; below it, in horizontal blank.
pub const MODE3_CYCLE_RANGE: i16 = 204;

/// The last scanline index: lines 144 and above are the vertical blank.
pub const LAST_SCANLINE: u8 = 153;

/// Which of the two tile-data banks tile indices address.
#[derive(Clone, Copy, Debug, PartialEq, Eq, Structural)]
pub enum TileDataAddressRange {
    TileDataAddr8800_97FF,
    TileDataAddr8000_8FFF,
}

/// Which of the two background map banks is in use.
#[derive(Clone, Copy, Debug, PartialEq, Eq, Structural)]
pub enum TileMapAddressRange {
    TileMapAddr9800_9BFF,
    TileMapAddr9C00_9FFF,
}

/// The two object heights.
#[derive(Clone, Copy, Debug, PartialEq, Eq, Structural)]
pub enum SpriteSizes {
    Size8x8,
    Size8x16,
}

/// The scanline mode, encoded in the low two bits of the status register.
#[derive(Clone, Copy, Debug, PartialEq, Eq, Structural)]
pub enum Mode {
    HBlank,
    VBlank,
    OAMSearch,
    Transfer,
}

/// The mode encoded by a 2-bit status field value.
pub open spec fn spec_mode_from_bits(v: u8) -> Mode {
    if v % 4 == 0 {
        Mode::HBlank
    } else if v % 4 == 1 {
        Mode::VBlank
    } else if v % 4 == 2 {
        Mode::OAMSearch
    } else {
        Mode::Transfer
    }
}

/// The four monochrome shades.
#[derive(Clone, Copy, Debug, PartialEq, Eq, Structural)]
pub enum Shade {
    White,
    LightGray,
    DarkGray,
    Black,
}

/// The shade selected by a 2-bit palette entry.
pub open spec fn spec_shade_from_bits(v: u8) -> Shade {
    if v % 4 == 0 {
        Shade::White
    } else if v % 4 == 1 {
        Shade::LightGray
    } else if v % 4 == 2 {
        Shade::DarkGray
    } else {
        Shade::Black
    }
}

impl Shade {
    pub fn from_bits(v: u8) -> (r: Shade)
        ensures
            r == spec_shade_from_bits(v),
    {
        match v % 4 {
            0 => Shade::White,
            1 => Shade::LightGray,
            2 => Shade::DarkGray,
            _ => Shade::Black,
        }
    }

    /// The four RGBA channel bytes of a shade.
    pub fn into_pixel(&self) -> (p: [u8; 4])
        ensures
            p@ == match *self {
                Shade::White => seq![0xFFu8, 0xFF, 0xFF, 0xFF],
                Shade::LightGray => seq![0xCCu8, 0xCC, 0xCC, 0xFF],
                Shade::DarkGray => seq![0x77u8, 0x77, 0x77, 0xFF],
                Shade::Black => seq![0x00u8, 0x00, 0x00, 0xFF],
            },
    {
        match *self {
            Shade::White => [0xFF, 0xFF, 0xFF, 0xFF],
            Shade::LightGray => [0xCC, 0xCC, 0xCC, 0xFF],
            Shade::DarkGray => [0x77, 0x77, 0x77, 0xFF],
            Shade::Black => [0x00, 0x00, 0x00, 0xFF],
        }
    }
}

/// One entry of the object attribute table.
#[derive(Clone, Copy, Debug, PartialEq, Eq, Structural)]
pub struct OAM {
    pub y_position: u8,
    pub x_position: u8,
    pub tile_number: u8,
    pub attributes: u8,
}

impl OAM {
    pub fn new() -> (r: OAM)
        ensures
            r == (OAM { y_position: 0, x_position: 0, tile_number: 0, attributes: 0 }),
    {
        OAM { y_position: 0, x_position: 0, tile_number: 0, attributes: 0 }
    }
}

/// The display controller state.
pub struct LCD {
    pub vram_tile_data: Vec<u8>,
    pub vram_bg_maps: Vec<u8>,
    pub vram_oam: Vec<OAM>,
    pub control: u8,
    pub status: u8,
    pub scroll_y: u8,
    pub scroll_x: u8,
    pub scanline_cycle_count: i16,
    pub lcd_y: u8,
    pub lcd_y_compare: u8,
    pub bg_palette: u8,
    pub sprite_palette_0: u8,
    pub sprite_palette_1: u8,
    pub window_y: u8,
    pub window_x: u8,
    pub frame: Vec<u8>,
    pub presented: Vec<u8>,
    pub frame_ready: bool,
}

/// The mathematical view of the display controller. The two pixel buffers
/// are left out on purpose: no bus read can observe them, and their contents
/// are outside the timing model this library pins down.
pub struct LcdV {
    pub tile_data: Seq<u8>,
    pub bg_maps: Seq<u8>,
    pub oam: Seq<OAM>,
    pub control: u8,
    pub status: u8,
    pub scroll_y: u8,
    pub scroll_x: u8,
    pub scanline_cycle_count: i16,
    pub lcd_y: u8,
    pub lcd_y_compare: u8,
    pub bg_palette: u8,
    pub sprite_palette_0: u8,
    pub sprite_palette_1: u8,
    pub window_y: u8,
    pub window_x: u8,
    pub frame_ready: bool,
}

impl View for LCD {
    type V = LcdV;

    open spec fn view(&self) -> LcdV {
        LcdV {
            tile_data: self.vram_tile_data@,
            bg_maps: self.vram_bg_maps@,
            oam: self.vram_oam@,
            control: self.control,
            status: self.status,
            scroll_y: self.scroll_y,
            scroll_x: self.scroll_x,
            scanline_cycle_count: self.scanline_cycle_count,
            lcd_y: self.lcd_y,
            lcd_y_compare: self.lcd_y_compare,
            bg_palette: self.bg_palette,
            sprite_palette_0: self.sprite_palette_0,
            sprite_palette_1: self.sprite_palette_1,
            window_y: self.window_y,
            window_x: self.window_x,
            frame_ready: self.frame_ready,
        }
    }
}

/// Whether the display is enabled (control bit 7).
pub open spec fn spec_ctrl_enable(c: u8) -> bool {
    (c / 0x80) % 2 == 1
}

/// The mode held in the low two bits of the status byte.
pub open spec fn spec_status_mode(s: u8) -> u8 {
    (s % 4) as u8
}

/// The status byte with its mode field replaced.
pub open spec fn spec_status_with_mode(s: u8, m: u8) -> u8 {
    ((s / 4) * 4 + (m % 4)) as u8
}

/// The status byte with the coincidence flag (bit 2) replaced.
pub open spec fn spec_status_with_coincidence(s: u8, on: bool) -> u8 {
    (((s / 8) * 8) + (if on { 4u8 } else { 0u8 }) + (s % 4)) as u8
}

/// The coincidence flag (status bit 2).
pub open spec fn spec_status_coincidence(s: u8) -> bool {
    (s / 4) % 2 == 1
}

/// The per-cause interrupt-enable bits of the status byte: scanline
/// coincidence (bit 6), object search (bit 5), vertical blank (bit 4),
/// horizontal blank (bit 3).
pub open spec fn spec_status_ly_interrupt(s: u8) -> bool {
    (s / 0x40) % 2 == 1
}

pub open spec fn spec_status_oam_interrupt(s: u8) -> bool {
    (s / 0x20) % 2 == 1
}

pub open spec fn spec_status_vblank_interrupt(s: u8) -> bool {
    (s / 0x10) % 2 == 1
}

pub open spec fn spec_status_hblank_interrupt(s: u8) -> bool {
    (s / 0x08) % 2 == 1
}

/// The mode a visible scanline is in, from the cycles remaining in the
/// line: object search first, then pixel transfer, then horizontal blank.
pub open spec fn spec_line_mode(l: LcdV) -> u8 {
    if l.lcd_y >= 144 {
        1
    } else if l.scanline_cycle_count >= MODE2_CYCLE_RANGE {
        2
    } else if l.scanline_cycle_count >= MODE3_CYCLE_RANGE {
        3
    } else {
        0
    }
}

/// The status/interrupt half of one display step. When the display is
/// disabled it forces vertical-blank mode and resets the line position.
/// Otherwise it derives the mode from the line and cycle position, raises
/// the LCD-status interrupt on a mode transition whose status enable bit is
/// set, latches the frame-ready flag on entry to vertical blank, and
/// maintains the scanline-coincidence flag, raising its interrupt once per
/// matching scanline (on the step where the flag first becomes set, not on
/// every step of the line).
#[verifier::opaque]
pub open spec fn spec_lcd_set_status(l: LcdV, ih: InterruptHandler) -> (LcdV, InterruptHandler) {
    if !spec_ctrl_enable(l.control) {
        (
            LcdV {
                scanline_cycle_count: SCANLINE_CYCLE_TOTAL,
                lcd_y: 0,
                status: spec_status_with_mode(l.status, 1),
                ..l
            },
            ih,
        )
    } else {
        let prev_mode = spec_status_mode(l.status);
        let new_mode = spec_line_mode(l);
        let status1 = spec_status_with_mode(l.status, new_mode);
        let changed = new_mode != prev_mode;
        let ih1 = if changed && new_mode == 0 && spec_status_hblank_interrupt(status1) {
            spec_set_interrupt(ih, Interrupt::LCDC)
        } else if changed && new_mode == 1 && spec_status_vblank_interrupt(status1) {
            spec_set_interrupt(ih, Interrupt::LCDC)
        } else if changed && new_mode == 2 && spec_status_oam_interrupt(status1) {
            spec_set_interrupt(ih, Interrupt::LCDC)
        } else {
            ih
        };
        let ready1 = l.frame_ready || (changed && new_mode == 1);
        if l.lcd_y == l.lcd_y_compare {
            if !spec_status_coincidence(status1) {
                let status2 = spec_status_with_coincidence(status1, true);
                let ih2 = if spec_status_ly_interrupt(status2) {
                    spec_set_interrupt(ih1, Interrupt::LCDC)
                } else {
                    ih1
                };
                (LcdV { status: status2, frame_ready: ready1, ..l }, ih2)
            } else {
                (LcdV { status: status1, frame_ready: ready1, ..l }, ih1)
            }
        } else {
            (
                LcdV { status: spec_status_with_coincidence(status1, false), frame_ready: ready1, ..l },
                ih1,
            )
        }
    }
}

/// One machine cycle of the display controller: the status half above, then
/// (when enabled) four cycles off the line countdown; at the end of a line
/// the countdown resets and the line index advances, wrapping after the last
/// vertical-blank line, and entry to line 144 raises the VBlank interrupt.
/// Visible lines render into the framebuffer, which the view does not track.
#[verifier::opaque]
pub open spec fn spec_lcd_step(l: LcdV, ih: InterruptHandler) -> (LcdV, InterruptHandler) {
    let (l1, ih1) = spec_lcd_set_status(l, ih);
    if !spec_ctrl_enable(l1.control) {
        (l1, ih1)
    } else {
        let count = (l1.scanline_cycle_count - 4) as i16;
        if count > 0 {
            (LcdV { scanline_cycle_count: count, ..l1 }, ih1)
        } else {
            let ih2 = if l1.lcd_y == 144 {
                spec_set_interrupt(ih1, Interrupt::VBlank)
            } else {
                ih1
            };
            let y1 = ((l1.lcd_y + 1) % 0x100) as u8;
            let y2 = if y1 > LAST_SCANLINE {
                0u8
            } else {
                y1
            };
            (LcdV { scanline_cycle_count: SCANLINE_CYCLE_TOTAL, lcd_y: y2, ..l1 }, ih2)
        }
    }
}

/// The byte a memory-mapped display register read returns; the DMA trigger
/// register is write-only and reads as the open-bus byte.
pub open spec fn spec_lcd_read_register(l: LcdV, addr: u16) -> u8 {
    if addr == 0xFF40 {
        l.control
    } else if addr == 0xFF41 {
        l.status
    } else if addr == 0xFF42 {
        l.scroll_y
    } else if addr == 0xFF43 {
        l.scroll_x
    } else if addr == 0xFF44 {
        l.lcd_y
    } else if addr == 0xFF45 {
        l.lcd_y_compare
    } else if addr == 0xFF46 {
        0xFF
    } else if addr == 0xFF47 {
        l.bg_palette
    } else if addr == 0xFF48 {
        l.sprite_palette_0
    } else if addr == 0xFF49 {
        l.sprite_palette_1
    } else if addr == 0xFF4A {
        l.window_y
    } else {
        l.window_x
    }
}

/// The controller after a memory-mapped display register write; a write to
/// the line-index register resets the counter instead of storing the value.
pub open spec fn spec_lcd_write_register(l: LcdV, addr: u16, value: u8) -> LcdV {
    if addr == 0xFF40 {
        LcdV { control: value, ..l }
    } else if addr == 0xFF41 {
        LcdV { status: value, ..l }
    } else if addr == 0xFF42 {
        LcdV { scroll_y: value, ..l }
    } else if addr == 0xFF43 {
        LcdV { scroll_x: value, ..l }
    } else if addr == 0xFF44 {
        LcdV { lcd_y: 0, ..l }
    } else if addr == 0xFF45 {
        LcdV { lcd_y_compare: value, ..l }
    } else if addr == 0xFF47 {
        LcdV { bg_palette: value, ..l }
    } else if addr == 0xFF48 {
        LcdV { sprite_palette_0: value, ..l }
    } else if addr == 0xFF49 {
        LcdV { sprite_palette_1: value, ..l }
    } else if addr == 0xFF4A {
        LcdV { window_y: value, ..l }
    } else {
        LcdV { window_x: value, ..l }
    }
}

/// The byte at an offset into the object attribute table: four bytes per
/// entry, in field order.
pub open spec fn spec_oam_read(oam: Seq<OAM>, addr: u16) -> u8 {
    let entry = oam[addr as int / 4];
    if addr % 4 == 0 {
        entry.y_position
    } else if addr % 4 == 1 {
        entry.x_position
    } else if addr % 4 == 2 {
        entry.tile_number
    } else {
        entry.attributes
    }
}

/// The object attribute table after a byte write at an offset.
pub open spec fn spec_oam_write(oam: Seq<OAM>, addr: u16, value: u8) -> Seq<OAM> {
    let i = addr as int / 4;
    let entry = oam[i];
    let entry2 = if addr % 4 == 0 {
        OAM { y_position: value, ..entry }
    } else if addr % 4 == 1 {
        OAM { x_position: value, ..entry }
    } else if addr % 4 == 2 {
        OAM { tile_number: value, ..entry }
    } else {
        OAM { attributes: value, ..entry }
    };
    oam.update(i, entry2)
}

/// The power-on view of the display controller: zeroed stores and
/// registers, a full line countdown.
pub open spec fn spec_lcd_new() -> LcdV {
    LcdV {
        tile_data: Seq::<u8>::new(0x1800, |i: int| 0u8),
        bg_maps: Seq::<u8>::new(0x0800, |i: int| 0u8),
        oam: Seq::<OAM>::new(
            40,
            |i: int| OAM { y_position: 0, x_position: 0, tile_number: 0, attributes: 0 },
        ),
        control: 0,
        status: 0,
        scroll_y: 0,
        scroll_x: 0,
        scanline_cycle_count: SCANLINE_CYCLE_TOTAL,
        lcd_y: 0,
        lcd_y_compare: 0,
        bg_palette: 0,
        sprite_palette_0: 0,
        sprite_palette_1: 0,
        window_y: 0,
        window_x: 0,
        frame_ready: false,
    }
}

impl LCD {
    /// The structural invariant: the backing stores have their hardware
    /// sizes, the line countdown stays within one line in steps of four,
    /// and the line index stays on the wheel of 154 lines.
    pub open spec fn wf(&self) -> bool {
        &&& self.vram_tile_data@.len() == 0x1800
        &&& self.vram_bg_maps@.len() == 0x0800
        &&& self.vram_oam@.len() == 40
        &&& self.frame@.len() == FRAME_BYTES
        &&& self.presented@.len() == FRAME_BYTES
        &&& 0 < self.scanline_cycle_count <= SCANLINE_CYCLE_TOTAL
        &&& self.scanline_cycle_count % 4 == 0
        &&& self.lcd_y <= LAST_SCANLINE
    }

    pub fn new() -> (r: LCD)
        ensures
            r.wf(),
            r@ == spec_lcd_new(),
    {
        let r = LCD {
            vram_tile_data: vec![0u8; 0x1800],
            vram_bg_maps: vec![0u8; 0x0800],
            vram_oam: vec![OAM { y_position: 0, x_position: 0, tile_number: 0, attributes: 0 }; 40],
            control: 0,
            status: 0,
            scroll_y: 0,
            scroll_x: 0,
            scanline_cycle_count: SCANLINE_CYCLE_TOTAL,
            lcd_y: 0,
            lcd_y_compare: 0,
            bg_palette: 0,
            sprite_palette_0: 0,
            sprite_palette_1: 0,
            window_y: 0,
            window_x: 0,
            frame: vec![0u8; FRAME_BYTES],
            presented: vec![0u8; FRAME_BYTES],
            frame_ready: false,
        };
        proof {
            assert(r@.tile_data =~= Seq::<u8>::new(0x1800, |i: int| 0u8));
            assert(r@.bg_maps =~= Seq::<u8>::new(0x0800, |i: int| 0u8));
            assert(r@.oam =~= Seq::<OAM>::new(
                40,
                |i: int| OAM { y_position: 0, x_position: 0, tile_number: 0, attributes: 0 },
            ));
        }
        r
    }

    /// Read one memory-mapped display register.
    pub fn read_register(&self, addr: u16) -> (v: u8)
        requires
            0xFF40 <= addr <= 0xFF4B,
        ensures
            v == spec_lcd_read_register(self@, addr),
    {
        if addr == 0xFF40 {
            self.control
        } else if addr == 0xFF41 {
            self.status
        } else if addr == 0xFF42 {
            self.scroll_y
        } else if addr == 0xFF43 {
            self.scroll_x
        } else if addr == 0xFF44 {
            self.lcd_y
        } else if addr == 0xFF45 {
            self.lcd_y_compare
        } else if addr == 0xFF46 {
            0xFF
        } else if addr == 0xFF47 {
            self.bg_palette
        } else if addr == 0xFF48 {
            self.sprite_palette_0
        } else if addr == 0xFF49 {
            self.sprite_palette_1
        } else if addr == 0xFF4A {
            self.window_y
        } else {
            self.window_x
        }
    }

    /// Write one memory-mapped display register (the DMA trigger register
    /// is handled by the bus, not here).
    pub fn write_register(&mut self, addr: u16, value: u8)
        requires
            0xFF40 <= addr <= 0xFF4B,
            addr != 0xFF46,
            old(self).wf(),
        ensures
            final(self).wf(),
            final(self)@ == spec_lcd_write_register(old(self)@, addr, value),
            final(self).frame@ == old(self).frame@,
            final(self).presented@ == old(self).presented@,
    {
        if addr == 0xFF40 {
            self.control = value;
        } else if addr == 0xFF41 {
            self.status = value;
        } else if addr == 0xFF42 {
            self.scroll_y = value;
        } else if addr == 0xFF43 {
            self.scroll_x = value;
        } else if addr == 0xFF44 {
            self.lcd_y = 0;
        } else if addr == 0xFF45 {
            self.lcd_y_compare = value;
        } else if addr == 0xFF47 {
            self.bg_palette = value;
        } else if addr == 0xFF48 {
            self.sprite_palette_0 = value;
        } else if addr == 0xFF49 {
            self.sprite_palette_1 = value;
        } else if addr == 0xFF4A {
            self.window_y = value;
        } else {
            self.window_x = value;
        }
    }

    /// Read one byte of the object attribute table.
    pub fn read_oam(&self, addr: u16) -> (v: u8)
        requires
            addr < 0xA0,
            self.wf(),
        ensures
            v == spec_oam_read(self@.oam, addr),
    {
        let entry = self.vram_oam[(addr / 4) as usize];
        let field = addr % 4;
        if field == 0 {
            entry.y_position
        } else if field == 1 {
            entry.x_position
        } else if field == 2 {
            entry.tile_number
        } else {
            entry.attributes
        }
    }

    /// Write one byte of the object attribute table.
    pub fn write_oam(&mut self, addr: u16, value: u8)
        requires
            addr < 0xA0,
            old(self).wf(),
        ensures
            final(self).wf(),
            final(self)@ == (LcdV { oam: spec_oam_write(old(self)@.oam, addr, value), ..old(self)@ }),
            final(self).frame@ == old(self).frame@,
            final(self).presented@ == old(self).presented@,
    {
        let i = (addr / 4) as usize;
        let mut entry = self.vram_oam[i];
        let field = addr % 4;
        if field == 0 {
            entry.y_position = value;
        } else if field == 1 {
            entry.x_position = value;
        } else if field == 2 {
            entry.tile_number = value;
        } else {
            entry.attributes = value;
        }
        self.vram_oam.set(i, entry);
    }

    /// Advance the display by one machine cycle.
    pub fn step(&mut self, ih: &mut InterruptHandler)
        requires
            old(self).wf(),
        ensures
            final(self).wf(),
            (final(self)@, *final(ih)) == spec_lcd_step(old(self)@, *old(ih)),
    {
        proof {
            reveal(spec_lcd_step);
        }
        self.set_status(ih);

        if (self.control / 0x80) % 2 != 1 {
            return ;
        }
        self.scanline_cycle_count = self.scanline_cycle_count - 4;
        if self.scanline_cycle_count > 0 {
            return ;
        }
        self.scanline_cycle_count = SCANLINE_CYCLE_TOTAL;
        if self.lcd_y < 144 {
            self.draw_scanline();
        } else if self.lcd_y == 144 {
            ih.set_interrupt(Interrupt::VBlank);
        }
        self.lcd_y = self.lcd_y + 1;
        if self.lcd_y > LAST_SCANLINE {
            self.lcd_y = 0;
        }
    }

    /// The status/interrupt half of a step; see [`spec_lcd_set_status`].
    pub fn set_status(&mut self, ih: &mut InterruptHandler)
        requires
            old(self).wf(),
        ensures
            final(self).wf(),
            (final(self)@, *final(ih)) == spec_lcd_set_status(old(self)@, *old(ih)),
    {
        proof {
            reveal(spec_lcd_set_status);
        }
        if (self.control / 0x80) % 2 != 1 {
            self.scanline_cycle_count = SCANLINE_CYCLE_TOTAL;
            self.lcd_y = 0;
            self.status = (self.status / 4) * 4 + 1;
            return ;
        }

        let prev_mode = self.status % 4;
        let new_mode: u8 = if self.lcd_y >= 144 {
            1
        } else if self.scanline_cycle_count >= MODE2_CYCLE_RANGE {
            2
        } else if self.scanline_cycle_count >= MODE3_CYCLE_RANGE {
            3
        } else {
            0
        };
        self.status = (self.status / 4) * 4 + new_mode;
        if new_mode != prev_mode {
            if new_mode == 0 {
                self.hblank(ih);
            } else if new_mode == 1 {
                self.vblank(ih);
            } else if new_mode == 2 {
                if (self.status / 0x20) % 2 == 1 {
                    self.lcdc_interrupt(ih);
                }
            }
        }

        if self.lcd_y == self.lcd_y_compare {
            if (self.status / 4) % 2 == 0 {
                self.status = (self.status / 8) * 8 + 4 + (self.status % 4);
                if (self.status / 0x40) % 2 == 1 {
                    self.lcdc_interrupt(ih);
                }
            }
        } else {
            self.status = (self.status / 8) * 8 + (self.status % 4);
        }
    }

    /// Entry to horizontal blank: raise the LCD-status interrupt when its
    /// enable bit is set.
    pub fn hblank(&self, ih: &mut InterruptHandler)
        ensures
            *final(ih) == if spec_status_hblank_interrupt(self.status) {
                spec_set_interrupt(*old(ih), Interrupt::LCDC)
            } else {
                *old(ih)
            },
    {
        if (self.status / 0x08) % 2 == 1 {
            self.lcdc_interrupt(ih);
        }
    }

    /// Entry to vertical blank: raise the LCD-status interrupt when its
    /// enable bit is set, hand the finished frame to the presentation
    /// buffer, zero the working frame, and latch the frame-ready flag.
    pub fn vblank(&mut self, ih: &mut InterruptHandler)
        requires
            old(self).wf(),
        ensures
            final(self).wf(),
            final(self)@ == (LcdV { frame_ready: true, ..old(self)@ }),
            *final(ih) == if spec_status_vblank_interrupt(old(self).status) {
                spec_set_interrupt(*old(ih), Interrupt::LCDC)
            } else {
                *old(ih)
            },
            final(self).presented@ == old(self).frame@,
            final(self).frame@ == Seq::<u8>::new(FRAME_BYTES as nat, |i: int| 0u8),
    {
        if (self.status / 0x10) % 2 == 1 {
            self.lcdc_interrupt(ih);
        }
        self.presented = self.frame.clone();
        self.frame = vec![0u8; FRAME_BYTES];
        self.frame_ready = true;
        proof {
            assert(self.frame@ =~= Seq::<u8>::new(FRAME_BYTES as nat, |i: int| 0u8));
        }
    }

    /// Raise the LCD-status interrupt line.
    pub fn lcdc_interrupt(&self, ih: &mut InterruptHandler)
        ensures
            *final(ih) == spec_set_interrupt(*old(ih), Interrupt::LCDC),
    {
        ih.set_interrupt(Interrupt::LCDC);
    }

    /// Render one visible scanline into the framebuffer: the background
    /// layer when enabled, then the object layer when enabled. Only the
    /// current line's row of the framebuffer changes.
    pub fn draw_scanline(&mut self)
        requires
            old(self).wf(),
            old(self).lcd_y < 144,
        ensures
            final(self).wf(),
            final(self)@ == old(self)@,
            final(self).presented@ == old(self).presented@,
            forall|k: int|
                0 <= k < FRAME_BYTES && !(old(self).lcd_y * 640 <= k < old(self).lcd_y * 640 + 640)
                    ==> final(self).frame@[k] == old(self).frame@[k],
    {
        if self.control % 2 == 1 {
            self.draw_bg();
        }
        if (self.control / 2) % 2 == 1 {
            self.draw_sprites();
        }
    }

    /// The scanline mode currently held in the status register.
    pub fn mode(&self) -> (m: Mode)
        ensures
            m == spec_mode_from_bits(self@.status),
    {
        match self.status % 4 {
            0 => Mode::HBlank,
            1 => Mode::VBlank,
            2 => Mode::OAMSearch,
            _ => Mode::Transfer,
        }
    }

    /// Whether a completed frame has been latched since the flag was last
    /// acknowledged.
    pub fn vblank_reached(&self) -> (r: bool)
        ensures
            r == self@.frame_ready,
    {
        self.frame_ready
    }

    /// Acknowledge the latched frame, so the next vertical blank can be
    /// awaited.
    pub fn clear_vblank_reached(&mut self)
        ensures
            final(self)@ == (LcdV { frame_ready: false, ..old(self)@ }),
            final(self).frame@ == old(self).frame@,
            final(self).presented@ == old(self).presented@,
            old(self).wf() ==> final(self).wf(),
    {
        self.frame_ready = false;
    }

    /// A copy of the most recently completed frame, row-major RGBA.
    pub fn get_frame(&self) -> (r: Vec<u8>)
        ensures
            r@ == self.presented@,
    {
        self.presented.clone()
    }

    /// The shade of one tile pixel: bit `pixel_bit` of the two planar bytes
    /// forms a 2-bit colour index, which selects a 2-bit entry of the
    /// palette byte.
    pub fn get_shade(&self, b0: u8, b1: u8, pixel_bit: u8, palette: u8) -> (s: Shade)
        requires
            pixel_bit < 8,
        ensures
            s == spec_get_shade(b0, b1, pixel_bit, palette),
    {
        let hi = bit_of(b1, pixel_bit);
        let lo = bit_of(b0, pixel_bit);
        let colour_id = hi * 2 + lo;
        Shade::from_bits((palette >> (2 * colour_id)) % 4)
    }

    /// Render the background (and window) layer of the current scanline.
    /// Tiles come from the bank and map the control register selects, with
    /// scroll applied; the window overlay replaces the background once the
    /// line has reached the window-Y threshold, for the columns at and past
    /// its X origin (windows whose X origin lies left of the visible edge
    /// fall back to the scrolled background rather than faulting). Only the
    /// current line's row of the framebuffer changes.
    pub fn draw_bg(&mut self)
        requires
            old(self).wf(),
            old(self).lcd_y < 144,
        ensures
            final(self).wf(),
            final(self)@ == old(self)@,
            final(self).presented@ == old(self).presented@,
            forall|k: int|
                0 <= k < FRAME_BYTES && !(old(self).lcd_y * 640 <= k < old(self).lcd_y * 640 + 640)
                    ==> final(self).frame@[k] == old(self).frame@[k],
    {
        let ghost row_base: int = old(self).lcd_y * 640;
        let in_window = ((self.control / 0x20) % 2 == 1) && self.lcd_y >= self.window_y;

        let tile_data_range = if (self.control / 0x10) % 2 == 1 {
            TileDataAddressRange::TileDataAddr8800_97FF
        } else {
            TileDataAddressRange::TileDataAddr8000_8FFF
        };
        let tile_data_offset: u16 = match tile_data_range {
            TileDataAddressRange::TileDataAddr8000_8FFF => 0x0000,
            TileDataAddressRange::TileDataAddr8800_97FF => 0x0800,
        };
        let map_bit: u8 = if in_window {
            (self.control / 0x40) % 2
        } else {
            (self.control / 0x08) % 2
        };
        let map = if map_bit == 1 {
            TileMapAddressRange::TileMapAddr9C00_9FFF
        } else {
            TileMapAddressRange::TileMapAddr9800_9BFF
        };
        let tile_map_offset: u16 = match map {
            TileMapAddressRange::TileMapAddr9800_9BFF => 0x0000,
            TileMapAddressRange::TileMapAddr9C00_9FFF => 0x0400,
        };

        let map_y: u8 = if in_window {
            self.lcd_y - self.window_y
        } else {
            self.scroll_y.wrapping_add(self.lcd_y)
        };
        let tile_y: u16 = (map_y / 8) as u16;

        let mut pixel_x: u16 = 0;
        while pixel_x < 160
            invariant
                0 <= pixel_x <= 160,
                self.wf(),
                self@ == old(self)@,
                self.presented@ == old(self).presented@,
                row_base == old(self).lcd_y * 640,
                self.lcd_y < 144,
                tile_y <= 31,
                tile_data_offset == 0x0000 || tile_data_offset == 0x0800,
                tile_map_offset == 0x0000 || tile_map_offset == 0x0400,
                forall|k: int|
                    0 <= k < FRAME_BYTES && !(row_base <= k < row_base + 640) ==> self.frame@[k]
                        == old(self).frame@[k],
            decreases 160 - pixel_x,
        {
            let px8: u8 = pixel_x as u8;
            let map_x: u8 = if in_window && self.window_x >= 7 && px8 >= self.window_x - 7 {
                px8 - (self.window_x - 7)
            } else {
                px8.wrapping_add(self.scroll_x)
            };
            let tile_x: u16 = (map_x / 8) as u16;

            let tile_map_addr: u16 = tile_map_offset + tile_y * 32 + tile_x;
            let map_byte = self.vram_bg_maps[tile_map_addr as usize];
            let tile_id: u16 = if tile_data_offset == 0 {
                map_byte as u16
            } else {
                if map_byte < 128 {
                    map_byte as u16 + 128
                } else {
                    map_byte as u16 - 128
                }
            };

            let tile_data_addr: u16 = tile_data_offset + tile_id * 16;
            let tile_row_offset: u16 = (map_y % 8) as u16 * 2;
            let pixel_start = (tile_data_addr + tile_row_offset) as usize;
            let b0 = self.vram_tile_data[pixel_start];
            let b1 = self.vram_tile_data[pixel_start + 1];

            let pixel_bit: u8 = 7 - (map_x % 8);
            let shade = self.get_shade(b0, b1, pixel_bit, self.bg_palette);
            let pixel = shade.into_pixel();

            let frame_pixel_start = self.lcd_y as usize * 640 + pixel_x as usize * 4;
            self.frame.set(frame_pixel_start, pixel[0]);
            self.frame.set(frame_pixel_start + 1, pixel[1]);
            self.frame.set(frame_pixel_start + 2, pixel[2]);
            self.frame.set(frame_pixel_start + 3, pixel[3]);

            pixel_x = pixel_x + 1;
        }
    }

    /// Render the object layer of the current scanline: walk the attribute
    /// table in order, skip objects that do not intersect the line, honour
    /// the flip attributes and per-object palette, treat the white shade as
    /// transparent, and drop the columns that fall outside the visible
    /// width (rather than faulting on objects near the edges). Only the
    /// current line's row of the framebuffer changes.
    pub fn draw_sprites(&mut self)
        requires
            old(self).wf(),
            old(self).lcd_y < 144,
        ensures
            final(self).wf(),
            final(self)@ == old(self)@,
            final(self).presented@ == old(self).presented@,
            forall|k: int|
                0 <= k < FRAME_BYTES && !(old(self).lcd_y * 640 <= k < old(self).lcd_y * 640 + 640)
                    ==> final(self).frame@[k] == old(self).frame@[k],
    {
        let ghost row_base: int = old(self).lcd_y * 640;
        let sprite_size = if (self.control / 4) % 2 == 1 {
            SpriteSizes::Size8x16
        } else {
            SpriteSizes::Size8x8
        };
        let y_size: u8 = match sprite_size {
            SpriteSizes::Size8x8 => 8,
            SpriteSizes::Size8x16 => 16,
        };

        let mut idx: usize = 0;
        while idx < 40
            invariant
                0 <= idx <= 40,
                self.wf(),
                self@ == old(self)@,
                self.presented@ == old(self).presented@,
                row_base == old(self).lcd_y * 640,
                self.lcd_y < 144,
                y_size == 8 || y_size == 16,
                forall|k: int|
                    0 <= k < FRAME_BYTES && !(row_base <= k < row_base + 640) ==> self.frame@[k]
                        == old(self).frame@[k],
            decreases 40 - idx,
        {
            let sprite = self.vram_oam[idx];
            let y_pos: i16 = sprite.y_position as i16 - 16;
            let ly: i16 = self.lcd_y as i16;

            if y_pos <= ly && ly < y_pos + y_size as i16 {
                let diff: u8 = (ly - y_pos) as u8;
                let y_flip = (sprite.attributes / 0x40) % 2 == 1;
                let sprite_line: u8 = if y_flip {
                    diff
                } else {
                    y_size - diff
                };

                let sprite_data_start = sprite.tile_number as usize * 16 + sprite_line as usize * 2;
                let b0 = self.vram_tile_data[sprite_data_start];
                let b1 = self.vram_tile_data[sprite_data_start + 1];

                let x_flip = (sprite.attributes / 0x20) % 2 == 1;
                let palette = if (sprite.attributes / 0x10) % 2 == 1 {
                    self.sprite_palette_1
                } else {
                    self.sprite_palette_0
                };

                let mut sprite_column: u8 = 0;
                while sprite_column < 8
                    invariant
                        0 <= sprite_column <= 8,
                        self.wf(),
                        self@ == old(self)@,
                        self.presented@ == old(self).presented@,
                        row_base == old(self).lcd_y * 640,
                        self.lcd_y < 144,
                        forall|k: int|
                            0 <= k < FRAME_BYTES && !(row_base <= k < row_base + 640)
                                ==> self.frame@[k] == old(self).frame@[k],
                    decreases 8 - sprite_column,
                {
                    let pixel_bit: u8 = if x_flip {
                        sprite_column
                    } else {
                        7 - sprite_column
                    };
                    let shade = self.get_shade(b0, b1, pixel_bit, palette);
                    let transparent = match shade {
                        Shade::White => true,
                        _ => false,
                    };
                    if !transparent {
                        let xp: i16 = sprite.x_position as i16 - 8 + sprite_column as i16;
                        if 0 <= xp && xp < 160 {
                            let frame_pixel_start = self.lcd_y as usize * 640 + xp as usize * 4;
                            let pixel = shade.into_pixel();
                            self.frame.set(frame_pixel_start, pixel[0]);
                            self.frame.set(frame_pixel_start + 1, pixel[1]);
                            self.frame.set(frame_pixel_start + 2, pixel[2]);
                            self.frame.set(frame_pixel_start + 3, pixel[3]);
                        }
                    }
                    sprite_column = sprite_column + 1;
                }
            }
            idx = idx + 1;
        }
    }
}

/// The shade one tile pixel resolves to through a palette byte.
pub open spec fn spec_get_shade(b0: u8, b1: u8, pixel_bit: u8, palette: u8) -> Shade {
    let hi = (b1 >> pixel_bit) & 1;
    let lo = (b0 >> pixel_bit) & 1;
    spec_shade_from_bits((palette >> ((2 * (hi * 2 + lo)) as u8)) as u8)
}

/// One bit of a byte, as zero or one.
pub fn bit_of(v: u8, n: u8) -> (b: u8)
    requires
        n < 8,
    ensures
        b == (v >> n) & 1,
        b <= 1,
{
    let b = (v >> n) & 1;
    assert((v >> n) & 1 <= 1) by (bit_vector);
    b
}

} // verus!
