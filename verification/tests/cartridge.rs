use gboxide::cartridge::Cartridge;
use gboxide::header::{CartridgeError, CartridgeType, Header};
use gboxide::utils::str_from_u8_null_utf8;

fn header_bytes() -> Vec<u8> {
    // the 0x50 bytes of the 0x100-0x14F region
    let mut h = vec![0u8; 0x50];
    h[0x34..0x39].copy_from_slice(b"HELLO");
    h[0x43] = 0x00; // not a color cartridge
    h[0x46] = 0x00; // no super-console functions
    h[0x47] = 0x00; // no banking controller
    h[0x48] = 0x01; // 64 KiB ROM
    h[0x49] = 0x02; // 8 KiB RAM
    h[0x4A] = 0x01; // overseas destination
    h[0x4B] = 0x01; // old licensee: Nintendo
    h[0x4E] = 0x34; // global checksum, little-endian
    h[0x4F] = 0x12;
    h
}

fn mbc1_rom(banks: usize) -> Vec<u8> {
    let mut rom = vec![0u8; 0x4000 * banks];
    rom[0x143] = 0x00;
    rom[0x146] = 0x00;
    rom[0x147] = 0x01; // bank-switched controller
    rom[0x148] = 0x00;
    rom[0x149] = 0x03; // 32 KiB RAM
    rom[0x14A] = 0x00;
    rom[0x14B] = 0x00;
    for b in 0..banks {
        rom[0x4000 * b + 0x100] = 0x40 + b as u8; // bank marker (entry area)
    }
    rom
}

#[test]
fn header_decodes_every_field() {
    let h = Header::new(&header_bytes()).unwrap();
    assert_eq!(h.title, "HELLO");
    assert!(!h.cgb_flag);
    assert!(!h.sgb_flag);
    assert_eq!(h.manufacturer_code, "");
    assert_eq!(h.licensee_code, "Nintendo");
    assert!(matches!(h.cartridge_type, CartridgeType::ROM));
    assert_eq!(h.rom_size, 64 * 1024);
    assert_eq!(h.ram_size, 8 * 1024);
    assert!(!h.japanese);
    assert_eq!(h.global_checksum, 0x1234);
    assert_eq!(h.raw_title[0], b'H');
}

#[test]
fn header_title_is_cut_short_on_color_cartridges() {
    let mut hb = header_bytes();
    hb[0x34..0x44].copy_from_slice(b"ABCDEFGHIJKLMNOP");
    hb[0x43] = 0x80;
    let h = Header::new(&hb).unwrap();
    assert_eq!(h.title, "ABCDEFGHIJK", "eleven bytes on color cartridges");
    assert_eq!(h.manufacturer_code, "LMNO");
    let mut hb2 = header_bytes();
    hb2[0x34..0x44].copy_from_slice(b"ABCDEFGHIJKLMNOP");
    let h2 = Header::new(&hb2).unwrap();
    assert_eq!(h2.title, "ABCDEFGHIJKLMNOP");
}

#[test]
fn header_rejections_name_the_offending_byte() {
    let mut hb = header_bytes();
    hb[0x46] = 0x05;
    assert_eq!(Header::new(&hb).unwrap_err(), CartridgeError::UnknownSgbFlag(0x05));

    let mut hb = header_bytes();
    hb[0x4B] = 0x02;
    assert_eq!(
        Header::new(&hb).unwrap_err(),
        CartridgeError::UnknownOldLicenseeCode(0x02)
    );

    let mut hb = header_bytes();
    hb[0x46] = 0x03;
    hb[0x44] = b'9';
    hb[0x45] = b'8';
    assert_eq!(
        Header::new(&hb).unwrap_err(),
        CartridgeError::UnknownNewLicenseeCode(b'9', b'8')
    );

    let mut hb = header_bytes();
    hb[0x47] = 0x7F;
    assert_eq!(
        Header::new(&hb).unwrap_err(),
        CartridgeError::UnknownCartridgeType(0x7F)
    );

    let mut hb = header_bytes();
    hb[0x49] = 0x09;
    assert_eq!(Header::new(&hb).unwrap_err(), CartridgeError::UnknownRamSize(0x09));

    let mut hb = header_bytes();
    hb[0x4A] = 0x07;
    assert_eq!(
        Header::new(&hb).unwrap_err(),
        CartridgeError::UnknownDestinationCode(0x07)
    );

    let mut hb = header_bytes();
    hb[0x34] = 0xFF; // not valid UTF-8
    assert_eq!(Header::new(&hb).unwrap_err(), CartridgeError::InvalidTitle);
}

#[test]
fn cartridge_rejects_unimplemented_controllers_and_short_images() {
    let mut rom = vec![0u8; 0x8000];
    rom[0x147] = 0x11; // a known type whose controller is not implemented
    let err = Cartridge::new(rom).unwrap_err();
    assert_eq!(
        err,
        CartridgeError::UnsupportedCartridgeType(CartridgeType::MBC3)
    );

    assert_eq!(
        Cartridge::new(vec![0u8; 0x100]).unwrap_err(),
        CartridgeError::MissingHeader
    );
}

#[test]
fn new_licensee_lookup() {
    assert_eq!(Header::lookup_new_licensee_code(b'0', b'1'), Some("Nintendo R&D1"));
    assert_eq!(Header::lookup_new_licensee_code(b'A', b'4'), Some("Konami (Yu-Gi-Oh!)"));
    assert_eq!(Header::lookup_new_licensee_code(b'Z', b'Z'), None);
}

#[test]
fn old_licensee_lookup() {
    assert_eq!(Header::lookup_old_licensee_code(0x00), Some("none"));
    assert_eq!(Header::lookup_old_licensee_code(0x33), Some("GBC cart parsed as GB?"));
    assert_eq!(Header::lookup_old_licensee_code(0xFF), Some("ljn"));
    assert_eq!(Header::lookup_old_licensee_code(0x02), None);
}

#[test]
fn header_checksum_subtracts_each_byte_and_one() {
    assert_eq!(Header::calculate_header_checksum(&[0u8; 25]), 231);
    assert_eq!(Header::calculate_header_checksum(&[]), 0);
    assert_eq!(Header::calculate_header_checksum(&[0xFF]), 0);
    let h = Header::new(&header_bytes()).unwrap();
    let expect = Header::calculate_header_checksum(&header_bytes()[0x34..0x4D]);
    assert_eq!(h.calculated_header_checksum, expect);
}

#[test]
fn null_terminated_utf8_decoding() {
    assert_eq!(str_from_u8_null_utf8(b"AB\0CD"), Some("AB"));
    assert_eq!(str_from_u8_null_utf8(b"ABCD"), Some("ABCD"));
    assert_eq!(str_from_u8_null_utf8(b"\0XY"), Some(""));
    assert_eq!(str_from_u8_null_utf8(&[0xC3, 0xA9, 0x00]), Some("\u{e9}"));
    assert_eq!(str_from_u8_null_utf8(&[0xFF, 0xFE]), None);
}

#[test]
fn no_banking_cartridge_reads_rom_and_ram_directly() {
    let mut rom = vec![0u8; 0x8000];
    rom[0x147] = 0x08; // passthrough with RAM
    rom[0x149] = 0x02; // 8 KiB RAM
    rom[0x2000] = 0x5A;
    let mut cart = Cartridge::new(rom).unwrap();
    assert_eq!(cart.read(0x2000), 0x5A);
    assert_eq!(cart.rom_len(), 0x8000);
    cart.write(0xA010, 0x77);
    assert_eq!(cart.read(0xA010), 0x77);
    // ROM-window writes are discarded by the passthrough controller
    cart.write(0x2000, 0x00);
    assert_eq!(cart.read(0x2000), 0x5A);
}

#[test]
fn bank_select_zero_is_coerced_to_bank_one() {
    let mut cart = Cartridge::new(mbc1_rom(8)).unwrap();
    cart.write(0x2000, 0x00);
    assert_eq!(cart.read(0x4100), 0x41, "bank zero coerces to bank one");
    cart.write(0x2000, 0x05);
    assert_eq!(cart.read(0x4100), 0x45, "bank five selected");
    cart.write(0x2000, 0x02);
    assert_eq!(cart.read(0x4100), 0x42, "raw offset 0x4000 times the bank");
}

#[test]
fn switched_ram_needs_the_enable_latch() {
    let mut cart = Cartridge::new(mbc1_rom(4)).unwrap();
    cart.write(0xA000, 0x12);
    assert_eq!(cart.read(0xA000), 0xFF, "disabled RAM reads the sentinel");
    cart.write(0x0000, 0x0A);
    cart.write(0xA000, 0x12);
    assert_eq!(cart.read(0xA000), 0x12);
    // select the second RAM bank through the mode flag
    cart.write(0x6000, 0x01);
    cart.write(0x4000, 0x01);
    assert_eq!(cart.read(0xA000), 0x00, "a fresh bank reads zero");
    cart.write(0xA000, 0x34);
    cart.write(0x4000, 0x00);
    assert_eq!(cart.read(0xA000), 0x12, "the first bank kept its byte");
    cart.write(0x0000, 0x00);
    assert_eq!(cart.read(0xA000), 0xFF, "the latch disables RAM again");
}

#[test]
fn reads_beyond_the_backing_rom_return_the_sentinel() {
    let mut cart = Cartridge::new(mbc1_rom(2)).unwrap();
    cart.write(0x2000, 0x05); // a bank past the end of a two-bank image
    assert_eq!(cart.read(0x4000), 0xFF);
}

#[test]
fn cartridge_type_codes_round_trip() {
    for code in [0x00u8, 0x01, 0x03, 0x08, 0x11, 0x19, 0x22, 0xFC, 0xFF] {
        let t = CartridgeType::from_code(code).unwrap();
        assert_eq!(t.code(), code);
    }
    assert_eq!(CartridgeType::from_code(0x04), None);
}
