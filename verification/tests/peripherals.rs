use gboxide::interrupt::{Interrupt, InterruptHandler};
use gboxide::lcd::{LCD, Mode};
use gboxide::timer::Timer;
use gboxide::lcd::Shade;

#[test]
fn timer_fastest_rate_counts_every_sixteen_cycles() {
    // enable + fastest rate: sixteen clock cycles per increment, which is
    // four machine-cycle steps of four clock cycles each
    let mut timer = Timer::new();
    let mut ih = InterruptHandler::new();
    timer.write_register(0xFF07, 0b101);
    assert_eq!(timer.read_register(0xFF07), 0b101);

    for _ in 0..3 {
        timer.step(&mut ih);
    }
    assert_eq!(timer.read_register(0xFF05), 0, "three steps are not enough");
    timer.step(&mut ih);
    assert_eq!(timer.read_register(0xFF05), 1, "sixteen cycles increment once");
    for _ in 0..4 {
        timer.step(&mut ih);
    }
    assert_eq!(timer.read_register(0xFF05), 2, "exactly one more");
    assert_eq!(ih.get_flag() & 0x04, 0, "no overflow yet");
}

#[test]
fn timer_overflow_reloads_modulo_and_raises_interrupt() {
    let mut timer = Timer::new();
    let mut ih = InterruptHandler::new();
    timer.write_register(0xFF07, 0b101);
    timer.write_register(0xFF05, 0xFF);
    timer.write_register(0xFF06, 0xAB);
    for _ in 0..4 {
        timer.step(&mut ih);
    }
    assert_eq!(timer.read_register(0xFF05), 0xAB, "reloaded from modulo");
    assert_eq!(ih.get_flag() & 0x04, 0x04, "Timer interrupt requested");
}

#[test]
fn timer_disabled_still_counts_the_divider() {
    let mut timer = Timer::new();
    let mut ih = InterruptHandler::new();
    for _ in 0..3 {
        timer.step(&mut ih);
    }
    assert_eq!(timer.read_register(0xFF04), 12);
    assert_eq!(timer.read_register(0xFF05), 0);
    timer.write_register(0xFF04, 0x55);
    assert_eq!(timer.read_register(0xFF04), 0, "a divider write resets it");
}

#[test]
fn interrupt_lines_set_their_own_bits() {
    let mut ih = InterruptHandler::new();
    ih.set_interrupt(Interrupt::VBlank);
    assert_eq!(ih.get_flag(), 0x01);
    ih.set_interrupt(Interrupt::Timer);
    assert_eq!(ih.get_flag(), 0x05);
    ih.set_interrupt(Interrupt::Joypad);
    assert_eq!(ih.get_flag(), 0x15);
    ih.set_enable(0x04);
    assert_eq!(ih.get_enabled_flags(), 0x04);
}

#[test]
fn coincidence_interrupt_fires_once_per_matching_scanline() {
    let mut lcd = LCD::new();
    let mut ih = InterruptHandler::new();
    lcd.write_register(0xFF40, 0x80); // enable, both layers off
    lcd.write_register(0xFF45, 0x00); // compare with line zero
    lcd.write_register(0xFF41, 0x40); // coincidence interrupt enabled

    lcd.step(&mut ih);
    assert_eq!(lcd.mode(), Mode::OAMSearch, "a visible line starts in object search");
    let mut fired = 0;
    for _ in 0..113 {
        lcd.step(&mut ih);
        if ih.get_flag() & 0x02 != 0 {
            fired += 1;
            ih.set_flag(0);
        }
    }
    assert_eq!(fired, 1, "once on the matching line, not once per step");
    assert_eq!(lcd.read_register(0xFF44), 1, "one full line elapsed");

    // the rest of the frame never matches line zero again
    for _ in 0..114 * 153 {
        lcd.step(&mut ih);
        assert_eq!(ih.get_flag() & 0x02, 0);
    }
    assert_eq!(lcd.read_register(0xFF44), 0, "wrapped back to line zero");
    lcd.step(&mut ih);
    assert_eq!(ih.get_flag() & 0x02, 0x02, "fires again on the next match");
}

#[test]
fn vblank_entry_raises_interrupt_and_latches_frame() {
    let mut lcd = LCD::new();
    let mut ih = InterruptHandler::new();
    lcd.write_register(0xFF40, 0x80);
    // run through the 144 visible lines
    for _ in 0..114 * 144 {
        lcd.step(&mut ih);
    }
    assert_eq!(lcd.read_register(0xFF44), 144);
    assert!(!lcd.vblank_reached());
    // the first step of line 144 enters vertical-blank mode
    lcd.step(&mut ih);
    assert!(lcd.vblank_reached());
    assert_eq!(lcd.mode(), Mode::VBlank);
    // entry into line 144's end raises the VBlank line
    for _ in 0..113 {
        lcd.step(&mut ih);
    }
    assert_eq!(ih.get_flag() & 0x01, 0x01);
    lcd.clear_vblank_reached();
    assert!(!lcd.vblank_reached());
}

#[test]
fn disabled_display_is_forced_into_vertical_blank() {
    let mut lcd = LCD::new();
    let mut ih = InterruptHandler::new();
    lcd.write_register(0xFF40, 0x80);
    for _ in 0..300 {
        lcd.step(&mut ih);
    }
    assert!(lcd.read_register(0xFF44) > 0);
    lcd.write_register(0xFF40, 0x00);
    lcd.step(&mut ih);
    assert_eq!(lcd.read_register(0xFF44), 0, "line position reset");
    assert_eq!(lcd.mode(), Mode::VBlank, "mode forced to vertical blank");
}

#[test]
fn lcd_registers_round_trip() {
    let mut lcd = LCD::new();
    lcd.write_register(0xFF42, 0x11);
    lcd.write_register(0xFF43, 0x22);
    lcd.write_register(0xFF45, 0x33);
    lcd.write_register(0xFF47, 0xE4);
    lcd.write_register(0xFF48, 0xD2);
    lcd.write_register(0xFF49, 0x1B);
    lcd.write_register(0xFF4A, 0x44);
    lcd.write_register(0xFF4B, 0x55);
    assert_eq!(lcd.read_register(0xFF42), 0x11);
    assert_eq!(lcd.read_register(0xFF43), 0x22);
    assert_eq!(lcd.read_register(0xFF45), 0x33);
    assert_eq!(lcd.read_register(0xFF47), 0xE4);
    assert_eq!(lcd.read_register(0xFF48), 0xD2);
    assert_eq!(lcd.read_register(0xFF49), 0x1B);
    assert_eq!(lcd.read_register(0xFF4A), 0x44);
    assert_eq!(lcd.read_register(0xFF4B), 0x55);
    assert_eq!(lcd.read_register(0xFF46), 0xFF, "the transfer register is write-only");
    lcd.write_register(0xFF44, 0x90);
    assert_eq!(lcd.read_register(0xFF44), 0x00, "a line-index write resets it");
}

#[test]
fn attribute_table_bytes_round_trip() {
    let mut lcd = LCD::new();
    lcd.write_oam(0x00, 0x10); // entry 0, Y
    lcd.write_oam(0x01, 0x20); // entry 0, X
    lcd.write_oam(0x02, 0x30); // entry 0, tile
    lcd.write_oam(0x03, 0x40); // entry 0, attributes
    lcd.write_oam(0x9F, 0x77); // last entry, attributes
    assert_eq!(lcd.read_oam(0x00), 0x10);
    assert_eq!(lcd.read_oam(0x01), 0x20);
    assert_eq!(lcd.read_oam(0x02), 0x30);
    assert_eq!(lcd.read_oam(0x03), 0x40);
    assert_eq!(lcd.read_oam(0x9F), 0x77);
}

#[test]
fn background_rendering_writes_the_frame_row() {
    let mut lcd = LCD::new();
    let mut ih = InterruptHandler::new();
    // enable display and background; leave the palette at identity zero so
    // every background pixel is the white shade, then use a palette that
    // maps colour zero to black
    lcd.write_register(0xFF40, 0x81);
    lcd.write_register(0xFF47, 0x03); // colour index 0 shows the black shade
    for _ in 0..114 * 145 {
        lcd.step(&mut ih);
    }
    let frame = lcd.get_frame();
    assert_eq!(frame.len(), 160 * 144 * 4);
    assert_eq!(&frame[0..4], &[0x00, 0x00, 0x00, 0xFF], "black pixel rendered");
}

#[test]
fn shade_pixels() {
    assert_eq!(Shade::White.into_pixel(), [0xFF, 0xFF, 0xFF, 0xFF]);
    assert_eq!(Shade::Black.into_pixel(), [0x00, 0x00, 0x00, 0xFF]);
    assert_eq!(Shade::LightGray.into_pixel(), [0xCC, 0xCC, 0xCC, 0xFF]);
    assert_eq!(Shade::DarkGray.into_pixel(), [0x77, 0x77, 0x77, 0xFF]);
}
