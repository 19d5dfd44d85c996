//! The cartridge header: the raw bytes of the 0x100-0x14F region decoded
//! into typed fields, with every unrecognized byte surfaced as a load error.

use vstd::prelude::*;
use vstd::slice::{slice_index_get, slice_subrange, slice_to_vec};
use vstd::utf8::{decode_utf8, valid_utf8};
use crate::utils::{spec_null_prefix, str_from_u8_null_utf8};

verus! {

/// The cartridge-type tag at offset 0x147, one variant per documented code.
#[allow(non_camel_case_types)]
#[derive(Clone, Copy, Debug, PartialEq, Eq, Structural)]
pub enum CartridgeType {
    ROM,
    ROM_RAM,
    ROM_RAM_BATTERY,
    MBC1,
    MBC1_RAM,
    MBC1_RAM_BATTERY,
    MBC2,
    MBC2_BATTERY,
    MMM01,
    MMM01_RAM,
    MMM01_RAM_BATTERY,
    MBC3,
    MBC3_RAM,
    MBC3_RAM_BATTERY,
    MBC3_TIMER_BATTERY,
    MBC3_TIMER_RAM_BATTERY,
    MBC5,
    MBC5_RAM,
    MBC5_RAM_BATTERY,
    MBC5_RUMBLE,
    MBC5_RUMBLE_RAM,
    MBC5_RUMBLE_RAM_BATTERY,
    MBC6,
    MBC7_SENSOR_RUMBLE_RAM_BATTERY,
    POCKET_CAMERA,
    BANDAI_TAMA5,
    HuC3,
    HuC1_RAM_BATTERY
}

/// The cartridge type selected by a type code, when the code is documented.
pub open spec fn spec_cartridge_type_from_code(code: u8) -> Option<CartridgeType> {
    if code == 0x00 {
        Some(CartridgeType::ROM)
    } else if code == 0x08 {
        Some(CartridgeType::ROM_RAM)
    } else if code == 0x09 {
        Some(CartridgeType::ROM_RAM_BATTERY)
    } else if code == 0x01 {
        Some(CartridgeType::MBC1)
    } else if code == 0x02 {
        Some(CartridgeType::MBC1_RAM)
    } else if code == 0x03 {
        Some(CartridgeType::MBC1_RAM_BATTERY)
    } else if code == 0x05 {
        Some(CartridgeType::MBC2)
    } else if code == 0x06 {
        Some(CartridgeType::MBC2_BATTERY)
    } else if code == 0x0B {
        Some(CartridgeType::MMM01)
    } else if code == 0x0C {
        Some(CartridgeType::MMM01_RAM)
    } else if code == 0x0D {
        Some(CartridgeType::MMM01_RAM_BATTERY)
    } else if code == 0x11 {
        Some(CartridgeType::MBC3)
    } else if code == 0x12 {
        Some(CartridgeType::MBC3_RAM)
    } else if code == 0x13 {
        Some(CartridgeType::MBC3_RAM_BATTERY)
    } else if code == 0x0F {
        Some(CartridgeType::MBC3_TIMER_BATTERY)
    } else if code == 0x10 {
        Some(CartridgeType::MBC3_TIMER_RAM_BATTERY)
    } else if code == 0x19 {
        Some(CartridgeType::MBC5)
    } else if code == 0x1A {
        Some(CartridgeType::MBC5_RAM)
    } else if code == 0x1B {
        Some(CartridgeType::MBC5_RAM_BATTERY)
    } else if code == 0x1C {
        Some(CartridgeType::MBC5_RUMBLE)
    } else if code == 0x1D {
        Some(CartridgeType::MBC5_RUMBLE_RAM)
    } else if code == 0x1E {
        Some(CartridgeType::MBC5_RUMBLE_RAM_BATTERY)
    } else if code == 0x20 {
        Some(CartridgeType::MBC6)
    } else if code == 0x22 {
        Some(CartridgeType::MBC7_SENSOR_RUMBLE_RAM_BATTERY)
    } else if code == 0xFC {
        Some(CartridgeType::POCKET_CAMERA)
    } else if code == 0xFD {
        Some(CartridgeType::BANDAI_TAMA5)
    } else if code == 0xFE {
        Some(CartridgeType::HuC3)
    } else if code == 0xFF {
        Some(CartridgeType::HuC1_RAM_BATTERY)
    } else {
        None
    }
}

/// The type code of a cartridge type.
pub open spec fn spec_cartridge_type_code(t: CartridgeType) -> u8 {
    match t {
        CartridgeType::ROM => 0x00,
        CartridgeType::ROM_RAM => 0x08,
        CartridgeType::ROM_RAM_BATTERY => 0x09,
        CartridgeType::MBC1 => 0x01,
        CartridgeType::MBC1_RAM => 0x02,
        CartridgeType::MBC1_RAM_BATTERY => 0x03,
        CartridgeType::MBC2 => 0x05,
        CartridgeType::MBC2_BATTERY => 0x06,
        CartridgeType::MMM01 => 0x0B,
        CartridgeType::MMM01_RAM => 0x0C,
        CartridgeType::MMM01_RAM_BATTERY => 0x0D,
        CartridgeType::MBC3 => 0x11,
        CartridgeType::MBC3_RAM => 0x12,
        CartridgeType::MBC3_RAM_BATTERY => 0x13,
        CartridgeType::MBC3_TIMER_BATTERY => 0x0F,
        CartridgeType::MBC3_TIMER_RAM_BATTERY => 0x10,
        CartridgeType::MBC5 => 0x19,
        CartridgeType::MBC5_RAM => 0x1A,
        CartridgeType::MBC5_RAM_BATTERY => 0x1B,
        CartridgeType::MBC5_RUMBLE => 0x1C,
        CartridgeType::MBC5_RUMBLE_RAM => 0x1D,
        CartridgeType::MBC5_RUMBLE_RAM_BATTERY => 0x1E,
        CartridgeType::MBC6 => 0x20,
        CartridgeType::MBC7_SENSOR_RUMBLE_RAM_BATTERY => 0x22,
        CartridgeType::POCKET_CAMERA => 0xFC,
        CartridgeType::BANDAI_TAMA5 => 0xFD,
        CartridgeType::HuC3 => 0xFE,
        CartridgeType::HuC1_RAM_BATTERY => 0xFF,
    }
}

impl CartridgeType {
    pub fn from_code(code: u8) -> (r: Option<CartridgeType>)
        ensures
            r == spec_cartridge_type_from_code(code),
    {
        match code {
        0x00 => Some(CartridgeType::ROM),
        0x08 => Some(CartridgeType::ROM_RAM),
        0x09 => Some(CartridgeType::ROM_RAM_BATTERY),
        0x01 => Some(CartridgeType::MBC1),
        0x02 => Some(CartridgeType::MBC1_RAM),
        0x03 => Some(CartridgeType::MBC1_RAM_BATTERY),
        0x05 => Some(CartridgeType::MBC2),
        0x06 => Some(CartridgeType::MBC2_BATTERY),
        0x0B => Some(CartridgeType::MMM01),
        0x0C => Some(CartridgeType::MMM01_RAM),
        0x0D => Some(CartridgeType::MMM01_RAM_BATTERY),
        0x11 => Some(CartridgeType::MBC3),
        0x12 => Some(CartridgeType::MBC3_RAM),
        0x13 => Some(CartridgeType::MBC3_RAM_BATTERY),
        0x0F => Some(CartridgeType::MBC3_TIMER_BATTERY),
        0x10 => Some(CartridgeType::MBC3_TIMER_RAM_BATTERY),
        0x19 => Some(CartridgeType::MBC5),
        0x1A => Some(CartridgeType::MBC5_RAM),
        0x1B => Some(CartridgeType::MBC5_RAM_BATTERY),
        0x1C => Some(CartridgeType::MBC5_RUMBLE),
        0x1D => Some(CartridgeType::MBC5_RUMBLE_RAM),
        0x1E => Some(CartridgeType::MBC5_RUMBLE_RAM_BATTERY),
        0x20 => Some(CartridgeType::MBC6),
        0x22 => Some(CartridgeType::MBC7_SENSOR_RUMBLE_RAM_BATTERY),
        0xFC => Some(CartridgeType::POCKET_CAMERA),
        0xFD => Some(CartridgeType::BANDAI_TAMA5),
        0xFE => Some(CartridgeType::HuC3),
        0xFF => Some(CartridgeType::HuC1_RAM_BATTERY),
            _ => None,
        }
    }

    pub fn code(&self) -> (r: u8)
        ensures
            r == spec_cartridge_type_code(*self),
    {
        match *self {
        CartridgeType::ROM => 0x00,
        CartridgeType::ROM_RAM => 0x08,
        CartridgeType::ROM_RAM_BATTERY => 0x09,
        CartridgeType::MBC1 => 0x01,
        CartridgeType::MBC1_RAM => 0x02,
        CartridgeType::MBC1_RAM_BATTERY => 0x03,
        CartridgeType::MBC2 => 0x05,
        CartridgeType::MBC2_BATTERY => 0x06,
        CartridgeType::MMM01 => 0x0B,
        CartridgeType::MMM01_RAM => 0x0C,
        CartridgeType::MMM01_RAM_BATTERY => 0x0D,
        CartridgeType::MBC3 => 0x11,
        CartridgeType::MBC3_RAM => 0x12,
        CartridgeType::MBC3_RAM_BATTERY => 0x13,
        CartridgeType::MBC3_TIMER_BATTERY => 0x0F,
        CartridgeType::MBC3_TIMER_RAM_BATTERY => 0x10,
        CartridgeType::MBC5 => 0x19,
        CartridgeType::MBC5_RAM => 0x1A,
        CartridgeType::MBC5_RAM_BATTERY => 0x1B,
        CartridgeType::MBC5_RUMBLE => 0x1C,
        CartridgeType::MBC5_RUMBLE_RAM => 0x1D,
        CartridgeType::MBC5_RUMBLE_RAM_BATTERY => 0x1E,
        CartridgeType::MBC6 => 0x20,
        CartridgeType::MBC7_SENSOR_RUMBLE_RAM_BATTERY => 0x22,
        CartridgeType::POCKET_CAMERA => 0xFC,
        CartridgeType::BANDAI_TAMA5 => 0xFD,
        CartridgeType::HuC3 => 0xFE,
        CartridgeType::HuC1_RAM_BATTERY => 0xFF,
        }
    }
}

/// A reason the cartridge header (or the cartridge built on it) is rejected
/// at load time. Each variant carries the offending byte or bytes.
#[derive(Clone, Copy, Debug, PartialEq, Eq, Structural)]
pub enum CartridgeError {
    MissingHeader,
    InvalidTitle,
    InvalidManufacturerCode,
    UnknownSgbFlag(u8),
    UnknownNewLicenseeCode(u8, u8),
    UnknownOldLicenseeCode(u8),
    UnknownCartridgeType(u8),
    UnknownRamSize(u8),
    UnknownDestinationCode(u8),
    UnsupportedCartridgeType(CartridgeType),
}

/// The publisher name for a two-character new-style licensee code, given as
/// the code's two bytes.
pub open spec fn spec_new_licensee(b0: u8, b1: u8) -> Option<Seq<char>> {
    if b0 == 0x30 && b1 == 0x30 {
        Some("none"@)
    } else if b0 == 0x30 && b1 == 0x31 {
        Some("Nintendo R&D1"@)
    } else if b0 == 0x30 && b1 == 0x38 {
        Some("Capcom"@)
    } else if b0 == 0x31 && b1 == 0x33 {
        Some("Electronic Arts"@)
    } else if b0 == 0x31 && b1 == 0x38 {
        Some("Hudson Soft"@)
    } else if b0 == 0x31 && b1 == 0x39 {
        Some("b-ai"@)
    } else if b0 == 0x32 && b1 == 0x30 {
        Some("kss"@)
    } else if b0 == 0x32 && b1 == 0x32 {
        Some("pow"@)
    } else if b0 == 0x32 && b1 == 0x34 {
        Some("PCM Complete"@)
    } else if b0 == 0x32 && b1 == 0x35 {
        Some("san-x"@)
    } else if b0 == 0x32 && b1 == 0x38 {
        Some("Kemco Japan"@)
    } else if b0 == 0x32 && b1 == 0x39 {
        Some("seta"@)
    } else if b0 == 0x33 && b1 == 0x30 {
        Some("Viacom"@)
    } else if b0 == 0x33 && b1 == 0x31 {
        Some("Nintendo"@)
    } else if b0 == 0x33 && b1 == 0x32 {
        Some("Bandai"@)
    } else if b0 == 0x33 && b1 == 0x33 {
        Some("Ocean/Acclaim"@)
    } else if b0 == 0x33 && b1 == 0x34 {
        Some("Konami"@)
    } else if b0 == 0x33 && b1 == 0x35 {
        Some("Hector"@)
    } else if b0 == 0x33 && b1 == 0x37 {
        Some("Taito"@)
    } else if b0 == 0x33 && b1 == 0x38 {
        Some("Hudson"@)
    } else if b0 == 0x33 && b1 == 0x39 {
        Some("Banpresto"@)
    } else if b0 == 0x34 && b1 == 0x31 {
        Some("Ubi Soft"@)
    } else if b0 == 0x34 && b1 == 0x32 {
        Some("Atlus"@)
    } else if b0 == 0x34 && b1 == 0x34 {
        Some("Malibu"@)
    } else if b0 == 0x34 && b1 == 0x36 {
        Some("angel"@)
    } else if b0 == 0x34 && b1 == 0x37 {
        Some("Bullet-Proof"@)
    } else if b0 == 0x34 && b1 == 0x39 {
        Some("irem"@)
    } else if b0 == 0x35 && b1 == 0x30 {
        Some("Absolute"@)
    } else if b0 == 0x35 && b1 == 0x31 {
        Some("Acclaim"@)
    } else if b0 == 0x35 && b1 == 0x32 {
        Some("Activision"@)
    } else if b0 == 0x35 && b1 == 0x33 {
        Some("American sammy"@)
    } else if b0 == 0x35 && b1 == 0x34 {
        Some("Konami"@)
    } else if b0 == 0x35 && b1 == 0x35 {
        Some("Hi tech entertainment"@)
    } else if b0 == 0x35 && b1 == 0x36 {
        Some("LJN"@)
    } else if b0 == 0x35 && b1 == 0x37 {
        Some("Matchbox"@)
    } else if b0 == 0x35 && b1 == 0x38 {
        Some("Mattel"@)
    } else if b0 == 0x35 && b1 == 0x39 {
        Some("Milton Bradley"@)
    } else if b0 == 0x36 && b1 == 0x30 {
        Some("Titus"@)
    } else if b0 == 0x36 && b1 == 0x31 {
        Some("Virgin"@)
    } else if b0 == 0x36 && b1 == 0x34 {
        Some("LucasArts"@)
    } else if b0 == 0x36 && b1 == 0x37 {
        Some("Ocean"@)
    } else if b0 == 0x36 && b1 == 0x39 {
        Some("Electronic Arts"@)
    } else if b0 == 0x37 && b1 == 0x30 {
        Some("Infogrames"@)
    } else if b0 == 0x37 && b1 == 0x31 {
        Some("Interplay"@)
    } else if b0 == 0x37 && b1 == 0x32 {
        Some("Broderbund"@)
    } else if b0 == 0x37 && b1 == 0x33 {
        Some("sculptured"@)
    } else if b0 == 0x37 && b1 == 0x35 {
        Some("sci"@)
    } else if b0 == 0x37 && b1 == 0x38 {
        Some("THQ"@)
    } else if b0 == 0x37 && b1 == 0x39 {
        Some("Accolade"@)
    } else if b0 == 0x38 && b1 == 0x30 {
        Some("misawa"@)
    } else if b0 == 0x38 && b1 == 0x33 {
        Some("lozc"@)
    } else if b0 == 0x38 && b1 == 0x36 {
        Some("tokuma shoten i*"@)
    } else if b0 == 0x38 && b1 == 0x37 {
        Some("tsukuda ori*"@)
    } else if b0 == 0x39 && b1 == 0x31 {
        Some("Chunsoft"@)
    } else if b0 == 0x39 && b1 == 0x32 {
        Some("Video system"@)
    } else if b0 == 0x39 && b1 == 0x33 {
        Some("Ocean/Acclaim"@)
    } else if b0 == 0x39 && b1 == 0x35 {
        Some("Varie"@)
    } else if b0 == 0x39 && b1 == 0x36 {
        Some("Yonezawa/s'pal"@)
    } else if b0 == 0x39 && b1 == 0x37 {
        Some("Kaneko"@)
    } else if b0 == 0x39 && b1 == 0x39 {
        Some("Pack in soft"@)
    } else if b0 == 0x41 && b1 == 0x34 {
        Some("Konami (Yu-Gi-Oh!)"@)
    } else {
        None
    }
}

/// The publisher name for an old-style licensee code byte.
pub open spec fn spec_old_licensee(code: u8) -> Option<Seq<char>> {
    if code == 0x00 {
        Some("none"@)
    } else if code == 0x01 {
        Some("Nintendo"@)
    } else if code == 0x08 {
        Some("Capcom"@)
    } else if code == 0x09 {
        Some("hot-b"@)
    } else if code == 0x0A {
        Some("jaleco"@)
    } else if code == 0x0B {
        Some("coconuts"@)
    } else if code == 0x0C {
        Some("elite systems"@)
    } else if code == 0x13 {
        Some("Electronic Arts"@)
    } else if code == 0x18 {
        Some("Hudson Soft"@)
    } else if code == 0x19 {
        Some("itc entertainment"@)
    } else if code == 0x1A {
        Some("yanoman"@)
    } else if code == 0x1D {
        Some("clary"@)
    } else if code == 0x1F {
        Some("Virgin"@)
    } else if code == 0x24 {
        Some("PCM Complete"@)
    } else if code == 0x25 {
        Some("san-x"@)
    } else if code == 0x28 {
        Some("kotobuki systems"@)
    } else if code == 0x29 {
        Some("seta"@)
    } else if code == 0x30 {
        Some("Infogrames"@)
    } else if code == 0x31 {
        Some("Nintendo"@)
    } else if code == 0x32 {
        Some("Bandai"@)
    } else if code == 0x33 {
        Some("GBC cart parsed as GB?"@)
    } else if code == 0x34 {
        Some("Konami"@)
    } else if code == 0x35 {
        Some("Hector"@)
    } else if code == 0x38 {
        Some("Capcom"@)
    } else if code == 0x39 {
        Some("Banpresto"@)
    } else if code == 0x3C {
        Some("*entertainment i"@)
    } else if code == 0x3E {
        Some("gremlin"@)
    } else if code == 0x41 {
        Some("Ubi Soft"@)
    } else if code == 0x42 {
        Some("Atlus"@)
    } else if code == 0x44 {
        Some("Malibu"@)
    } else if code == 0x46 {
        Some("angel"@)
    } else if code == 0x47 {
        Some("spectrum holoby"@)
    } else if code == 0x49 {
        Some("irem"@)
    } else if code == 0x4A {
        Some("Virgin"@)
    } else if code == 0x4D {
        Some("Malibu"@)
    } else if code == 0x4F {
        Some("u.s. gold"@)
    } else if code == 0x50 {
        Some("Absolute"@)
    } else if code == 0x51 {
        Some("Acclaim"@)
    } else if code == 0x52 {
        Some("Activision"@)
    } else if code == 0x53 {
        Some("American sammy"@)
    } else if code == 0x54 {
        Some("gametek"@)
    } else if code == 0x55 {
        Some("park place"@)
    } else if code == 0x56 {
        Some("LJN"@)
    } else if code == 0x57 {
        Some("Matchbox"@)
    } else if code == 0x59 {
        Some("Milton Bradley"@)
    } else if code == 0x5A {
        Some("mindscape"@)
    } else if code == 0x5B {
        Some("romstar"@)
    } else if code == 0x5C {
        Some("naxat soft"@)
    } else if code == 0x5D {
        Some("tradewest"@)
    } else if code == 0x60 {
        Some("Titus"@)
    } else if code == 0x61 {
        Some("Virgin"@)
    } else if code == 0x67 {
        Some("Ocean"@)
    } else if code == 0x69 {
        Some("Electronic Arts"@)
    } else if code == 0x6E {
        Some("elite systems"@)
    } else if code == 0x6F {
        Some("electro brain"@)
    } else if code == 0x70 {
        Some("Infogrames"@)
    } else if code == 0x71 {
        Some("Interplay"@)
    } else if code == 0x72 {
        Some("Broderbund"@)
    } else if code == 0x73 {
        Some("sculptered soft"@)
    } else if code == 0x75 {
        Some("the sales curve"@)
    } else if code == 0x78 {
        Some("T*HQ"@)
    } else if code == 0x79 {
        Some("Accolade"@)
    } else if code == 0x7A {
        Some("triffix entertainment"@)
    } else if code == 0x7C {
        Some("Microprose"@)
    } else if code == 0x7F {
        Some("Kemco"@)
    } else if code == 0x80 {
        Some("misawa entertainment"@)
    } else if code == 0x83 {
        Some("lozc"@)
    } else if code == 0x86 {
        Some("tokuma shoten intermedia"@)
    } else if code == 0x8B {
        Some("bullet-proof software"@)
    } else if code == 0x8C {
        Some("vic tokai"@)
    } else if code == 0x8E {
        Some("ape"@)
    } else if code == 0x8F {
        Some("i'max"@)
    } else if code == 0x91 {
        Some("Chunsoft"@)
    } else if code == 0x92 {
        Some("Video system"@)
    } else if code == 0x93 {
        Some("tsuburava"@)
    } else if code == 0x95 {
        Some("Varie"@)
    } else if code == 0x96 {
        Some("Yonezawa/s'pal"@)
    } else if code == 0x97 {
        Some("Kaneko"@)
    } else if code == 0x99 {
        Some("arc"@)
    } else if code == 0x9A {
        Some("nihon bussan"@)
    } else if code == 0x9B {
        Some("tecmo"@)
    } else if code == 0x9C {
        Some("imagineer"@)
    } else if code == 0x9D {
        Some("Banpresto"@)
    } else if code == 0x9F {
        Some("nova"@)
    } else if code == 0xA1 {
        Some("hori electric"@)
    } else if code == 0xA2 {
        Some("Bandai"@)
    } else if code == 0xA4 {
        Some("Konami"@)
    } else if code == 0xA6 {
        Some("kawada"@)
    } else if code == 0xA7 {
        Some("takara"@)
    } else if code == 0xA9 {
        Some("technos japan"@)
    } else if code == 0xAA {
        Some("broderbund"@)
    } else if code == 0xAC {
        Some("toei animation"@)
    } else if code == 0xAD {
        Some("toho"@)
    } else if code == 0xAF {
        Some("namco"@)
    } else if code == 0xB0 {
        Some("acclaim"@)
    } else if code == 0xB1 {
        Some("ascii or nexoft"@)
    } else if code == 0xB2 {
        Some("bandai"@)
    } else if code == 0xB4 {
        Some("enix"@)
    } else if code == 0xB6 {
        Some("hal"@)
    } else if code == 0xB7 {
        Some("snk"@)
    } else if code == 0xB9 {
        Some("pony canyon"@)
    } else if code == 0xBA {
        Some("*culture brain o"@)
    } else if code == 0xBB {
        Some("sunsoft"@)
    } else if code == 0xBD {
        Some("sony imagesoft"@)
    } else if code == 0xBF {
        Some("sammy"@)
    } else if code == 0xC0 {
        Some("taito"@)
    } else if code == 0xC2 {
        Some("kemco"@)
    } else if code == 0xC3 {
        Some("squaresoft"@)
    } else if code == 0xC4 {
        Some("tokuma shoten intermedia"@)
    } else if code == 0xC5 {
        Some("data east"@)
    } else if code == 0xC6 {
        Some("tonkin house"@)
    } else if code == 0xC8 {
        Some("koei"@)
    } else if code == 0xC9 {
        Some("ufl"@)
    } else if code == 0xCA {
        Some("ultra"@)
    } else if code == 0xCB {
        Some("vap"@)
    } else if code == 0xCC {
        Some("use"@)
    } else if code == 0xCD {
        Some("meldac"@)
    } else if code == 0xCE {
        Some("*pony canyon or"@)
    } else if code == 0xCF {
        Some("angel"@)
    } else if code == 0xD0 {
        Some("taito"@)
    } else if code == 0xD1 {
        Some("sofel"@)
    } else if code == 0xD2 {
        Some("quest"@)
    } else if code == 0xD3 {
        Some("sigma enterprises"@)
    } else if code == 0xD4 {
        Some("ask kodansha"@)
    } else if code == 0xD6 {
        Some("naxat soft"@)
    } else if code == 0xD7 {
        Some("copya systems"@)
    } else if code == 0xD9 {
        Some("banpresto"@)
    } else if code == 0xDA {
        Some("tomy"@)
    } else if code == 0xDB {
        Some("ljn"@)
    } else if code == 0xDD {
        Some("ncs"@)
    } else if code == 0xDE {
        Some("human"@)
    } else if code == 0xDF {
        Some("altron"@)
    } else if code == 0xE0 {
        Some("jaleco"@)
    } else if code == 0xE1 {
        Some("towachiki"@)
    } else if code == 0xE2 {
        Some("uutaka"@)
    } else if code == 0xE3 {
        Some("varie"@)
    } else if code == 0xE5 {
        Some("epoch"@)
    } else if code == 0xE7 {
        Some("athena"@)
    } else if code == 0xE8 {
        Some("asmik"@)
    } else if code == 0xE9 {
        Some("natsume"@)
    } else if code == 0xEA {
        Some("king records"@)
    } else if code == 0xEB {
        Some("atlus"@)
    } else if code == 0xEC {
        Some("epic/sony records"@)
    } else if code == 0xEE {
        Some("igs"@)
    } else if code == 0xF0 {
        Some("a wave"@)
    } else if code == 0xF3 {
        Some("extreme entertainment"@)
    } else if code == 0xFF {
        Some("ljn"@)
    } else {
        None
    }
}

impl Header {
    /// Look up the publisher for a new-style licensee code; `None` when the
    /// code is not documented.
    pub fn lookup_new_licensee_code(b0: u8, b1: u8) -> (r: Option<&'static str>)
        ensures
            match r {
                Some(s) => spec_new_licensee(b0, b1) == Some(s@),
                None => spec_new_licensee(b0, b1) is None,
            },
    {
        match (b0, b1) {
        (0x30, 0x30) => Some("none"),
        (0x30, 0x31) => Some("Nintendo R&D1"),
        (0x30, 0x38) => Some("Capcom"),
        (0x31, 0x33) => Some("Electronic Arts"),
        (0x31, 0x38) => Some("Hudson Soft"),
        (0x31, 0x39) => Some("b-ai"),
        (0x32, 0x30) => Some("kss"),
        (0x32, 0x32) => Some("pow"),
        (0x32, 0x34) => Some("PCM Complete"),
        (0x32, 0x35) => Some("san-x"),
        (0x32, 0x38) => Some("Kemco Japan"),
        (0x32, 0x39) => Some("seta"),
        (0x33, 0x30) => Some("Viacom"),
        (0x33, 0x31) => Some("Nintendo"),
        (0x33, 0x32) => Some("Bandai"),
        (0x33, 0x33) => Some("Ocean/Acclaim"),
        (0x33, 0x34) => Some("Konami"),
        (0x33, 0x35) => Some("Hector"),
        (0x33, 0x37) => Some("Taito"),
        (0x33, 0x38) => Some("Hudson"),
        (0x33, 0x39) => Some("Banpresto"),
        (0x34, 0x31) => Some("Ubi Soft"),
        (0x34, 0x32) => Some("Atlus"),
        (0x34, 0x34) => Some("Malibu"),
        (0x34, 0x36) => Some("angel"),
        (0x34, 0x37) => Some("Bullet-Proof"),
        (0x34, 0x39) => Some("irem"),
        (0x35, 0x30) => Some("Absolute"),
        (0x35, 0x31) => Some("Acclaim"),
        (0x35, 0x32) => Some("Activision"),
        (0x35, 0x33) => Some("American sammy"),
        (0x35, 0x34) => Some("Konami"),
        (0x35, 0x35) => Some("Hi tech entertainment"),
        (0x35, 0x36) => Some("LJN"),
        (0x35, 0x37) => Some("Matchbox"),
        (0x35, 0x38) => Some("Mattel"),
        (0x35, 0x39) => Some("Milton Bradley"),
        (0x36, 0x30) => Some("Titus"),
        (0x36, 0x31) => Some("Virgin"),
        (0x36, 0x34) => Some("LucasArts"),
        (0x36, 0x37) => Some("Ocean"),
        (0x36, 0x39) => Some("Electronic Arts"),
        (0x37, 0x30) => Some("Infogrames"),
        (0x37, 0x31) => Some("Interplay"),
        (0x37, 0x32) => Some("Broderbund"),
        (0x37, 0x33) => Some("sculptured"),
        (0x37, 0x35) => Some("sci"),
        (0x37, 0x38) => Some("THQ"),
        (0x37, 0x39) => Some("Accolade"),
        (0x38, 0x30) => Some("misawa"),
        (0x38, 0x33) => Some("lozc"),
        (0x38, 0x36) => Some("tokuma shoten i*"),
        (0x38, 0x37) => Some("tsukuda ori*"),
        (0x39, 0x31) => Some("Chunsoft"),
        (0x39, 0x32) => Some("Video system"),
        (0x39, 0x33) => Some("Ocean/Acclaim"),
        (0x39, 0x35) => Some("Varie"),
        (0x39, 0x36) => Some("Yonezawa/s'pal"),
        (0x39, 0x37) => Some("Kaneko"),
        (0x39, 0x39) => Some("Pack in soft"),
        (0x41, 0x34) => Some("Konami (Yu-Gi-Oh!)"),
            _ => None,
        }
    }

    /// Look up the publisher for an old-style licensee code byte; `None`
    /// when the code is not documented.
    pub fn lookup_old_licensee_code(code: u8) -> (r: Option<&'static str>)
        ensures
            match r {
                Some(s) => spec_old_licensee(code) == Some(s@),
                None => spec_old_licensee(code) is None,
            },
    {
        match code {
        0x00 => Some("none"),
        0x01 => Some("Nintendo"),
        0x08 => Some("Capcom"),
        0x09 => Some("hot-b"),
        0x0A => Some("jaleco"),
        0x0B => Some("coconuts"),
        0x0C => Some("elite systems"),
        0x13 => Some("Electronic Arts"),
        0x18 => Some("Hudson Soft"),
        0x19 => Some("itc entertainment"),
        0x1A => Some("yanoman"),
        0x1D => Some("clary"),
        0x1F => Some("Virgin"),
        0x24 => Some("PCM Complete"),
        0x25 => Some("san-x"),
        0x28 => Some("kotobuki systems"),
        0x29 => Some("seta"),
        0x30 => Some("Infogrames"),
        0x31 => Some("Nintendo"),
        0x32 => Some("Bandai"),
        0x33 => Some("GBC cart parsed as GB?"),
        0x34 => Some("Konami"),
        0x35 => Some("Hector"),
        0x38 => Some("Capcom"),
        0x39 => Some("Banpresto"),
        0x3C => Some("*entertainment i"),
        0x3E => Some("gremlin"),
        0x41 => Some("Ubi Soft"),
        0x42 => Some("Atlus"),
        0x44 => Some("Malibu"),
        0x46 => Some("angel"),
        0x47 => Some("spectrum holoby"),
        0x49 => Some("irem"),
        0x4A => Some("Virgin"),
        0x4D => Some("Malibu"),
        0x4F => Some("u.s. gold"),
        0x50 => Some("Absolute"),
        0x51 => Some("Acclaim"),
        0x52 => Some("Activision"),
        0x53 => Some("American sammy"),
        0x54 => Some("gametek"),
        0x55 => Some("park place"),
        0x56 => Some("LJN"),
        0x57 => Some("Matchbox"),
        0x59 => Some("Milton Bradley"),
        0x5A => Some("mindscape"),
        0x5B => Some("romstar"),
        0x5C => Some("naxat soft"),
        0x5D => Some("tradewest"),
        0x60 => Some("Titus"),
        0x61 => Some("Virgin"),
        0x67 => Some("Ocean"),
        0x69 => Some("Electronic Arts"),
        0x6E => Some("elite systems"),
        0x6F => Some("electro brain"),
        0x70 => Some("Infogrames"),
        0x71 => Some("Interplay"),
        0x72 => Some("Broderbund"),
        0x73 => Some("sculptered soft"),
        0x75 => Some("the sales curve"),
        0x78 => Some("T*HQ"),
        0x79 => Some("Accolade"),
        0x7A => Some("triffix entertainment"),
        0x7C => Some("Microprose"),
        0x7F => Some("Kemco"),
        0x80 => Some("misawa entertainment"),
        0x83 => Some("lozc"),
        0x86 => Some("tokuma shoten intermedia"),
        0x8B => Some("bullet-proof software"),
        0x8C => Some("vic tokai"),
        0x8E => Some("ape"),
        0x8F => Some("i'max"),
        0x91 => Some("Chunsoft"),
        0x92 => Some("Video system"),
        0x93 => Some("tsuburava"),
        0x95 => Some("Varie"),
        0x96 => Some("Yonezawa/s'pal"),
        0x97 => Some("Kaneko"),
        0x99 => Some("arc"),
        0x9A => Some("nihon bussan"),
        0x9B => Some("tecmo"),
        0x9C => Some("imagineer"),
        0x9D => Some("Banpresto"),
        0x9F => Some("nova"),
        0xA1 => Some("hori electric"),
        0xA2 => Some("Bandai"),
        0xA4 => Some("Konami"),
        0xA6 => Some("kawada"),
        0xA7 => Some("takara"),
        0xA9 => Some("technos japan"),
        0xAA => Some("broderbund"),
        0xAC => Some("toei animation"),
        0xAD => Some("toho"),
        0xAF => Some("namco"),
        0xB0 => Some("acclaim"),
        0xB1 => Some("ascii or nexoft"),
        0xB2 => Some("bandai"),
        0xB4 => Some("enix"),
        0xB6 => Some("hal"),
        0xB7 => Some("snk"),
        0xB9 => Some("pony canyon"),
        0xBA => Some("*culture brain o"),
        0xBB => Some("sunsoft"),
        0xBD => Some("sony imagesoft"),
        0xBF => Some("sammy"),
        0xC0 => Some("taito"),
        0xC2 => Some("kemco"),
        0xC3 => Some("squaresoft"),
        0xC4 => Some("tokuma shoten intermedia"),
        0xC5 => Some("data east"),
        0xC6 => Some("tonkin house"),
        0xC8 => Some("koei"),
        0xC9 => Some("ufl"),
        0xCA => Some("ultra"),
        0xCB => Some("vap"),
        0xCC => Some("use"),
        0xCD => Some("meldac"),
        0xCE => Some("*pony canyon or"),
        0xCF => Some("angel"),
        0xD0 => Some("taito"),
        0xD1 => Some("sofel"),
        0xD2 => Some("quest"),
        0xD3 => Some("sigma enterprises"),
        0xD4 => Some("ask kodansha"),
        0xD6 => Some("naxat soft"),
        0xD7 => Some("copya systems"),
        0xD9 => Some("banpresto"),
        0xDA => Some("tomy"),
        0xDB => Some("ljn"),
        0xDD => Some("ncs"),
        0xDE => Some("human"),
        0xDF => Some("altron"),
        0xE0 => Some("jaleco"),
        0xE1 => Some("towachiki"),
        0xE2 => Some("uutaka"),
        0xE3 => Some("varie"),
        0xE5 => Some("epoch"),
        0xE7 => Some("athena"),
        0xE8 => Some("asmik"),
        0xE9 => Some("natsume"),
        0xEA => Some("king records"),
        0xEB => Some("atlus"),
        0xEC => Some("epic/sony records"),
        0xEE => Some("igs"),
        0xF0 => Some("a wave"),
        0xF3 => Some("extreme entertainment"),
        0xFF => Some("ljn"),
            _ => None,
        }
    }
}

/// The decoded cartridge header.
#[derive(Debug)]
pub struct Header {
    pub raw_entry_point: Vec<u8>,
    pub raw_nintendo_logo: Vec<u8>,
    pub raw_title: Vec<u8>,
    pub raw_manufacturer_code: Vec<u8>,
    pub raw_cgb_flag: u8,
    pub raw_new_licensee_code: Vec<u8>,
    pub raw_sgb_flag: u8,
    pub raw_cartridge_type: u8,
    pub raw_rom_size: u8,
    pub raw_ram_size: u8,
    pub raw_destination_code: u8,
    pub raw_old_licensee_code: u8,
    pub raw_mask_rom_version_number: u8,
    pub raw_header_checksum: u8,
    pub raw_global_checksum: Vec<u8>,
    pub title: String,
    pub manufacturer_code: String,
    pub cgb_flag: bool,
    pub licensee_code: String,
    pub sgb_flag: bool,
    pub cartridge_type: CartridgeType,
    pub rom_size: u32,
    pub ram_size: u32,
    pub japanese: bool,
    pub version_number: u8,
    pub header_checksum: u8,
    pub calculated_header_checksum: u8,
    pub global_checksum: u16,
}

/// The mathematical view of a decoded header.
pub struct HeaderV {
    pub raw_entry_point: Seq<u8>,
    pub raw_nintendo_logo: Seq<u8>,
    pub raw_title: Seq<u8>,
    pub raw_manufacturer_code: Seq<u8>,
    pub raw_cgb_flag: u8,
    pub raw_new_licensee_code: Seq<u8>,
    pub raw_sgb_flag: u8,
    pub raw_cartridge_type: u8,
    pub raw_rom_size: u8,
    pub raw_ram_size: u8,
    pub raw_destination_code: u8,
    pub raw_old_licensee_code: u8,
    pub raw_mask_rom_version_number: u8,
    pub raw_header_checksum: u8,
    pub raw_global_checksum: Seq<u8>,
    pub title: Seq<char>,
    pub manufacturer_code: Seq<char>,
    pub cgb_flag: bool,
    pub licensee_code: Seq<char>,
    pub sgb_flag: bool,
    pub cartridge_type: CartridgeType,
    pub rom_size: u32,
    pub ram_size: u32,
    pub japanese: bool,
    pub version_number: u8,
    pub header_checksum: u8,
    pub calculated_header_checksum: u8,
    pub global_checksum: u16,
}

impl View for Header {
    type V = HeaderV;

    open spec fn view(&self) -> HeaderV {
        HeaderV {
            raw_entry_point: self.raw_entry_point@,
            raw_nintendo_logo: self.raw_nintendo_logo@,
            raw_title: self.raw_title@,
            raw_manufacturer_code: self.raw_manufacturer_code@,
            raw_cgb_flag: self.raw_cgb_flag,
            raw_new_licensee_code: self.raw_new_licensee_code@,
            raw_sgb_flag: self.raw_sgb_flag,
            raw_cartridge_type: self.raw_cartridge_type,
            raw_rom_size: self.raw_rom_size,
            raw_ram_size: self.raw_ram_size,
            raw_destination_code: self.raw_destination_code,
            raw_old_licensee_code: self.raw_old_licensee_code,
            raw_mask_rom_version_number: self.raw_mask_rom_version_number,
            raw_header_checksum: self.raw_header_checksum,
            raw_global_checksum: self.raw_global_checksum@,
            title: self.title@,
            manufacturer_code: self.manufacturer_code@,
            cgb_flag: self.cgb_flag,
            licensee_code: self.licensee_code@,
            sgb_flag: self.sgb_flag,
            cartridge_type: self.cartridge_type,
            rom_size: self.rom_size,
            ram_size: self.ram_size,
            japanese: self.japanese,
            version_number: self.version_number,
            header_checksum: self.header_checksum,
            calculated_header_checksum: self.calculated_header_checksum,
            global_checksum: self.global_checksum,
        }
    }
}

/// The header checksum over a byte string: starting from zero, subtract each
/// byte and one more, wrapping.
pub open spec fn spec_header_checksum(s: Seq<u8>) -> u8
    decreases s.len(),
{
    if s.len() == 0 {
        0
    } else {
        (((spec_header_checksum(s.drop_last()) - s.last() - 1) % 0x100 + 0x100) % 0x100) as u8
    }
}

/// Whether the cartridge reports itself as a color-console cartridge.
pub open spec fn spec_cgb_flag(b: Seq<u8>) -> bool {
    b[0x43] == 0x80 || b[0x43] == 0xC0
}

/// The NUL-terminated title bytes: eleven bytes on color cartridges, the
/// full sixteen otherwise.
pub open spec fn spec_title_bytes(b: Seq<u8>) -> Seq<u8> {
    if spec_cgb_flag(b) {
        spec_null_prefix(b.subrange(0x34, 0x3f))
    } else {
        spec_null_prefix(b.subrange(0x34, 0x44))
    }
}

/// The NUL-terminated manufacturer-code bytes.
pub open spec fn spec_manufacturer_bytes(b: Seq<u8>) -> Seq<u8> {
    spec_null_prefix(b.subrange(0x3f, 0x43))
}

/// The declared RAM size in bytes for a RAM-size code, when the code is
/// documented.
pub open spec fn spec_ram_size(code: u8) -> Option<u32> {
    if code == 0x00 {
        Some(0)
    } else if code == 0x01 {
        Some(2048)
    } else if code == 0x02 {
        Some(8192)
    } else if code == 0x03 {
        Some(32768)
    } else if code == 0x04 {
        Some(131072)
    } else if code == 0x05 {
        Some(65536)
    } else {
        None
    }
}

/// The declared ROM size in bytes: 32 KiB shifted by the low nibble of the
/// size code, plus 1 MiB when the high nibble is five.
pub open spec fn spec_rom_size(code: u8) -> u32 {
    (((32u32 << (code & 0xf)) * 1024) + if code >> 4 == 0x5 {
        0x100000u32
    } else {
        0u32
    }) as u32
}

/// The publisher name of a header: the new-style code when the super-console
/// flag is set, the old-style byte otherwise.
pub open spec fn spec_licensee(b: Seq<u8>) -> Option<Seq<char>> {
    if b[0x46] == 0x03 {
        spec_new_licensee(b[0x44], b[0x45])
    } else {
        spec_old_licensee(b[0x4b])
    }
}

/// The first reason the header bytes are rejected, in decode order, or
/// `None` when they decode.
pub open spec fn spec_header_outcome(b: Seq<u8>) -> Option<CartridgeError> {
    if !valid_utf8(spec_title_bytes(b)) {
        Some(CartridgeError::InvalidTitle)
    } else if spec_cgb_flag(b) && !valid_utf8(spec_manufacturer_bytes(b)) {
        Some(CartridgeError::InvalidManufacturerCode)
    } else if b[0x46] != 0x00 && b[0x46] != 0x03 {
        Some(CartridgeError::UnknownSgbFlag(b[0x46]))
    } else if b[0x46] == 0x03 && spec_new_licensee(b[0x44], b[0x45]) is None {
        Some(CartridgeError::UnknownNewLicenseeCode(b[0x44], b[0x45]))
    } else if b[0x46] == 0x00 && spec_old_licensee(b[0x4b]) is None {
        Some(CartridgeError::UnknownOldLicenseeCode(b[0x4b]))
    } else if spec_cartridge_type_from_code(b[0x47]) is None {
        Some(CartridgeError::UnknownCartridgeType(b[0x47]))
    } else if spec_ram_size(b[0x49]) is None {
        Some(CartridgeError::UnknownRamSize(b[0x49]))
    } else if b[0x4a] != 0x00 && b[0x4a] != 0x01 {
        Some(CartridgeError::UnknownDestinationCode(b[0x4a]))
    } else {
        None
    }
}

/// What every field of a decoded header holds, as a function of the header
/// bytes.
pub open spec fn spec_header_matches(b: Seq<u8>, h: HeaderV) -> bool {
    &&& h.raw_entry_point == b.subrange(0x00, 0x04)
    &&& h.raw_nintendo_logo == b.subrange(0x04, 0x34)
    &&& h.raw_title == b.subrange(0x34, 0x44)
    &&& h.raw_manufacturer_code == b.subrange(0x3f, 0x43)
    &&& h.raw_cgb_flag == b[0x43]
    &&& h.raw_new_licensee_code == b.subrange(0x44, 0x46)
    &&& h.raw_sgb_flag == b[0x46]
    &&& h.raw_cartridge_type == b[0x47]
    &&& h.raw_rom_size == b[0x48]
    &&& h.raw_ram_size == b[0x49]
    &&& h.raw_destination_code == b[0x4a]
    &&& h.raw_old_licensee_code == b[0x4b]
    &&& h.raw_mask_rom_version_number == b[0x4c]
    &&& h.raw_header_checksum == b[0x4d]
    &&& h.raw_global_checksum == b.subrange(0x4e, 0x50)
    &&& h.title == decode_utf8(spec_title_bytes(b))
    &&& h.manufacturer_code == if spec_cgb_flag(b) {
        decode_utf8(spec_manufacturer_bytes(b))
    } else {
        Seq::<char>::empty()
    }
    &&& h.cgb_flag == spec_cgb_flag(b)
    &&& Some(h.licensee_code) == spec_licensee(b)
    &&& h.sgb_flag == (b[0x46] == 0x03)
    &&& Some(h.cartridge_type) == spec_cartridge_type_from_code(b[0x47])
    &&& h.rom_size == spec_rom_size(b[0x48])
    &&& Some(h.ram_size) == spec_ram_size(b[0x49])
    &&& h.japanese == (b[0x4a] == 0x00)
    &&& h.version_number == b[0x4c]
    &&& h.header_checksum == b[0x4d]
    &&& h.calculated_header_checksum == spec_header_checksum(b.subrange(0x34, 0x4d))
    &&& h.global_checksum == b[0x4e] + b[0x4f] * 0x100
}

impl Header {
    /// The checksum the console computes over the 0x134-0x14C header region.
    pub fn calculate_header_checksum(checksum_slice: &[u8]) -> (r: u8)
        ensures
            r == spec_header_checksum(checksum_slice@),
    {
        let mut checksum: u8 = 0;
        let n = checksum_slice.len();
        let mut i: usize = 0;
        while i < n
            invariant
                0 <= i <= n,
                n == checksum_slice@.len(),
                checksum == spec_header_checksum(checksum_slice@.take(i as int)),
            decreases n - i,
        {
            let byte = *slice_index_get(checksum_slice, i);
            checksum = checksum.wrapping_sub(byte).wrapping_sub(1);
            i = i + 1;
            proof {
                assert(checksum_slice@.take(i as int).drop_last() == checksum_slice@.take(
                    i as int - 1,
                ));
            }
        }
        proof {
            assert(checksum_slice@.take(n as int) == checksum_slice@);
        }
        checksum
    }

    /// Decode the 0x50 header bytes (the 0x100-0x14F cartridge region), or
    /// report the first unrecognized byte.
    pub fn new(header_bytes: &[u8]) -> (r: Result<Header, CartridgeError>)
        requires
            header_bytes@.len() == 0x50,
        ensures
            match r {
                Ok(h) => spec_header_outcome(header_bytes@) is None && spec_header_matches(
                    header_bytes@,
                    h@,
                ),
                Err(e) => spec_header_outcome(header_bytes@) == Some(e),
            },
    {
        let b = header_bytes;
        let raw_cgb_flag = *slice_index_get(b, 0x43);
        let cgb_flag = raw_cgb_flag == 0x80 || raw_cgb_flag == 0xC0;

        let title_field = if cgb_flag {
            slice_subrange(b, 0x34, 0x3f)
        } else {
            slice_subrange(b, 0x34, 0x44)
        };
        let title = match str_from_u8_null_utf8(title_field) {
            Some(s) => s.to_owned(),
            None => {
                return Err(CartridgeError::InvalidTitle);
            },
        };
        let manufacturer_code = if cgb_flag {
            match str_from_u8_null_utf8(slice_subrange(b, 0x3f, 0x43)) {
                Some(s) => s.to_owned(),
                None => {
                    return Err(CartridgeError::InvalidManufacturerCode);
                },
            }
        } else {
            String::new()
        };

        let raw_sgb_flag = *slice_index_get(b, 0x46);
        let sgb_flag = if raw_sgb_flag == 0x00 {
            false
        } else if raw_sgb_flag == 0x03 {
            true
        } else {
            return Err(CartridgeError::UnknownSgbFlag(raw_sgb_flag));
        };

        let licensee_code = if sgb_flag {
            let b0 = *slice_index_get(b, 0x44);
            let b1 = *slice_index_get(b, 0x45);
            match Header::lookup_new_licensee_code(b0, b1) {
                Some(s) => s.to_owned(),
                None => {
                    return Err(CartridgeError::UnknownNewLicenseeCode(b0, b1));
                },
            }
        } else {
            let code = *slice_index_get(b, 0x4b);
            match Header::lookup_old_licensee_code(code) {
                Some(s) => s.to_owned(),
                None => {
                    return Err(CartridgeError::UnknownOldLicenseeCode(code));
                },
            }
        };

        let raw_cartridge_type = *slice_index_get(b, 0x47);
        let cartridge_type = match CartridgeType::from_code(raw_cartridge_type) {
            Some(t) => t,
            None => {
                return Err(CartridgeError::UnknownCartridgeType(raw_cartridge_type));
            },
        };

        let raw_rom_size = *slice_index_get(b, 0x48);
        assert(raw_rom_size & 0xf < 16) by (bit_vector);
        assert((32u32 << (raw_rom_size & 0xf)) <= 0x100000) by (bit_vector);
        let rom_size: u32 = ((32u32 << (raw_rom_size & 0xf)) * 1024) + if raw_rom_size >> 4 == 0x5 {
            0x100000
        } else {
            0
        };

        let raw_ram_size = *slice_index_get(b, 0x49);
        let ram_size: u32 = if raw_ram_size == 0x00 {
            0
        } else if raw_ram_size == 0x01 {
            2048
        } else if raw_ram_size == 0x02 {
            8192
        } else if raw_ram_size == 0x03 {
            32768
        } else if raw_ram_size == 0x04 {
            131072
        } else if raw_ram_size == 0x05 {
            65536
        } else {
            return Err(CartridgeError::UnknownRamSize(raw_ram_size));
        };

        let raw_destination_code = *slice_index_get(b, 0x4a);
        let japanese = if raw_destination_code == 0x00 {
            true
        } else if raw_destination_code == 0x01 {
            false
        } else {
            return Err(CartridgeError::UnknownDestinationCode(raw_destination_code));
        };

        let raw_header_checksum = *slice_index_get(b, 0x4d);
        let global_checksum: u16 = *slice_index_get(b, 0x4e) as u16 + *slice_index_get(b, 0x4f)
            as u16 * 0x100;
        let calculated_header_checksum = Header::calculate_header_checksum(
            slice_subrange(b, 0x34, 0x4d),
        );

        Ok(
            Header {
                raw_entry_point: slice_to_vec(slice_subrange(b, 0x00, 0x04)),
                raw_nintendo_logo: slice_to_vec(slice_subrange(b, 0x04, 0x34)),
                raw_title: slice_to_vec(slice_subrange(b, 0x34, 0x44)),
                raw_manufacturer_code: slice_to_vec(slice_subrange(b, 0x3f, 0x43)),
                raw_cgb_flag,
                raw_new_licensee_code: slice_to_vec(slice_subrange(b, 0x44, 0x46)),
                raw_sgb_flag,
                raw_cartridge_type,
                raw_rom_size,
                raw_ram_size,
                raw_destination_code,
                raw_old_licensee_code: *slice_index_get(b, 0x4b),
                raw_mask_rom_version_number: *slice_index_get(b, 0x4c),
                raw_header_checksum,
                raw_global_checksum: slice_to_vec(slice_subrange(b, 0x4e, 0x50)),
                title,
                manufacturer_code,
                cgb_flag,
                licensee_code,
                sgb_flag,
                cartridge_type,
                rom_size,
                ram_size,
                japanese,
                version_number: *slice_index_get(b, 0x4c),
                header_checksum: raw_header_checksum,
                calculated_header_checksum,
                global_checksum,
            },
        )
    }
}

} // verus!
