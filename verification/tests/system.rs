use gboxide::cartridge::Cartridge;
use gboxide::cpu::{CPU, InterruptStatus, UnknownOpcode};
use gboxide::gameboy::GameBoy;
use gboxide::mmu::MMU;
use gboxide::registers::{Register16Bit, Register8Bit};
use gboxide::cpu::Address;
use gboxide::joypad::Controls;

fn plain_rom() -> Vec<u8> {
    let mut rom = vec![0u8; 0x8000];
    rom[0x143] = 0x00;
    rom[0x146] = 0x00;
    rom[0x147] = 0x00;
    rom[0x148] = 0x00;
    rom[0x149] = 0x00;
    rom[0x14A] = 0x00;
    rom[0x14B] = 0x00;
    rom
}

fn make_machine() -> (CPU, MMU) {
    let cart = Cartridge::new(plain_rom()).unwrap();
    (CPU::new(), MMU::new(cart))
}

#[test]
fn nop_then_jump_leaves_pc_at_target() {
    // NOP at the entry point, then JP 0x0150, with an infinite loop there.
    let mut rom = plain_rom();
    rom[0x100] = 0x00; // NOP
    rom[0x101] = 0xC3; // JP 0x0150
    rom[0x102] = 0x50;
    rom[0x103] = 0x01;
    rom[0x150] = 0xC3; // JP 0x0150
    rom[0x151] = 0x50;
    rom[0x152] = 0x01;
    let cart = Cartridge::new(rom).unwrap();
    let mut gb = GameBoy::new(cart);
    assert_eq!(gb.cpu.r.pc, 0x0100);
    gb.cpu.step(&mut gb.mmu).unwrap();
    assert_eq!(gb.cpu.r.pc, 0x0101);
    gb.cpu.step(&mut gb.mmu).unwrap();
    assert_eq!(gb.cpu.r.pc, 0x0150);
    gb.cpu.step(&mut gb.mmu).unwrap();
    assert_eq!(gb.cpu.r.pc, 0x0150);
}

#[test]
fn unknown_opcode_reports_opcode_and_address() {
    let (mut cpu, mut mmu) = make_machine();
    mmu.system_ram[0] = 0xD3;
    cpu.r.pc = 0xC000;
    cpu.interrupt_state = InterruptStatus::Disabled;
    let err = cpu.step(&mut mmu).unwrap_err();
    assert_eq!(err, UnknownOpcode { opcode: 0xD3, addr: 0xC000 });
}

#[test]
fn extended_table_instruction_executes() {
    // CB 37: swap the nibbles of A.
    let (mut cpu, mut mmu) = make_machine();
    mmu.system_ram[0] = 0xCB;
    mmu.system_ram[1] = 0x37;
    cpu.r.pc = 0xC000;
    cpu.r.a = 0xA5;
    cpu.interrupt_state = InterruptStatus::Disabled;
    cpu.step(&mut mmu).unwrap();
    assert_eq!(cpu.r.a, 0x5A);
    assert_eq!(cpu.r.pc, 0xC002);
}

#[test]
fn ram_echo_and_high_ram_routing() {
    let (_cpu, mut mmu) = make_machine();
    mmu.write_u8(0xC123, 0x42);
    assert_eq!(mmu.read_u8(0xC123), 0x42);
    // echo RAM mirrors system RAM
    assert_eq!(mmu.read_u8(0xE123), 0x42);
    mmu.write_u8(0xE200, 0x55);
    assert_eq!(mmu.read_u8(0xC200), 0x55);

    mmu.write_u8(0xFF80, 0x99);
    assert_eq!(mmu.read_u8(0xFF80), 0x99);
    mmu.write_u8(0xFFFE, 0x77);
    assert_eq!(mmu.read_u8(0xFFFE), 0x77);

    // the unusable window reads the open-bus byte and discards writes
    mmu.write_u8(0xFEA5, 0x12);
    assert_eq!(mmu.read_u8(0xFEA5), 0xFF);
}

#[test]
fn interrupt_registers_are_memory_mapped() {
    let (_cpu, mut mmu) = make_machine();
    mmu.write_u8(0xFF0F, 0x15);
    assert_eq!(mmu.read_u8(0xFF0F), 0x15);
    mmu.write_u8(0xFFFF, 0x1F);
    assert_eq!(mmu.read_u8(0xFFFF), 0x1F);
}

#[test]
fn every_access_costs_one_machine_cycle() {
    let (_cpu, mut mmu) = make_machine();
    let before = mmu.get_cycles();
    let _ = mmu.read_u8(0xC000);
    assert_eq!(mmu.get_cycles(), before + 4);
    mmu.write_u8(0xC000, 1);
    assert_eq!(mmu.get_cycles(), before + 8);
    mmu.spin();
    assert_eq!(mmu.get_cycles(), before + 12);
    let diff = mmu.get_cycle_diff();
    assert_eq!(diff, 12);
    assert_eq!(mmu.get_cycle_diff(), 0);
}

#[test]
fn dma_copies_a_block_into_the_attribute_table() {
    let (_cpu, mut mmu) = make_machine();
    for i in 0..0xA0u16 {
        mmu.write_u8(0xC000 + i, i as u8 + 1);
    }
    mmu.write_u8(0xFF46, 0xC0);
    for i in 0..0xA0u16 {
        assert_eq!(mmu.lcd.read_oam(i), i as u8 + 1);
    }
}

#[test]
fn serial_writes_are_logged() {
    let (cpu, mut mmu) = make_machine();
    mmu.write_u8(0xFF01, b'H');
    mmu.write_u8(0xFF02, 0x81);
    mmu.write_u8(0xFF01, b'i');
    mmu.write_u8(0xFF02, 0x81);
    let mut gb = GameBoy { cpu, mmu };
    let out = gb.take_serial_output();
    assert_eq!(out, vec![b'H', b'i']);
    assert!(gb.take_serial_output().is_empty());
}

#[test]
fn joypad_register_reflects_selection_and_keys() {
    let (_cpu, mut mmu) = make_machine();
    // nothing selected: every bit reads released / unselected (high)
    assert_eq!(mmu.read_u8(0xFF00), 0xFF);

    mmu.set_controls(Controls {
        left: false,
        right: true,
        up: false,
        down: false,
        a: true,
        b: false,
        start: false,
        select: false,
    });
    // select the action group (its select wire low)
    mmu.write_u8(0xFF00, !0x20);
    let v = mmu.read_u8(0xFF00);
    assert_eq!(v & 0x20, 0x00, "action group selected");
    assert_eq!(v & 0x01, 0x00, "A pressed reads low");
    assert_eq!(v & 0x02, 0x02, "B released reads high");

    // select the direction group
    mmu.write_u8(0xFF00, !0x10);
    let v = mmu.read_u8(0xFF00);
    assert_eq!(v & 0x01, 0x00, "Right pressed reads low");
    assert_eq!(v & 0x08, 0x08, "Down released reads high");
}

#[test]
fn fresh_press_in_selected_group_raises_joypad_interrupt() {
    let (_cpu, mut mmu) = make_machine();
    mmu.write_u8(0xFF00, !0x20);
    let idle = Controls {
        left: false,
        right: false,
        up: false,
        down: false,
        a: false,
        b: false,
        start: false,
        select: false,
    };
    mmu.set_controls(idle);
    assert_eq!(mmu.interrupt.get_flag() & 0x10, 0);
    mmu.set_controls(Controls { a: true, ..idle });
    assert_eq!(mmu.interrupt.get_flag() & 0x10, 0x10);
}

#[test]
fn enabled_pending_interrupt_is_serviced() {
    let (mut cpu, mut mmu) = make_machine();
    cpu.r.sp = 0xFFFE;
    cpu.r.pc = 0xC123;
    mmu.interrupt.set_enable(0x04);
    mmu.interrupt.set_flag(0x04);
    cpu.step(&mut mmu).unwrap();
    // the Timer vector, the request bit cleared, dispatch disabled, the
    // return address on the stack
    assert_eq!(cpu.r.pc, 0x0050);
    assert_eq!(mmu.interrupt.get_flag() & 0x04, 0);
    assert_eq!(cpu.r.sp, 0xFFFC);
    assert_eq!(mmu.read_u8(0xFFFC), 0x23);
    assert_eq!(mmu.read_u8(0xFFFD), 0xC1);
    assert!(matches!(cpu.interrupt_state, InterruptStatus::Disabled));
}

#[test]
fn enable_instruction_takes_effect_one_instruction_late() {
    let (mut cpu, mut mmu) = make_machine();
    cpu.interrupt_state = InterruptStatus::Disabled;
    mmu.interrupt.set_enable(0x01);
    mmu.interrupt.set_flag(0x01);
    mmu.system_ram[0] = 0xFB; // EI
    mmu.system_ram[1] = 0x00; // NOP
    cpu.r.pc = 0xC000;
    cpu.step(&mut mmu).unwrap(); // EI: enabling, not yet enabled
    assert!(matches!(cpu.interrupt_state, InterruptStatus::Enabling));
    cpu.step(&mut mmu).unwrap(); // NOP runs; the state promotes to enabled
    assert!(matches!(cpu.interrupt_state, InterruptStatus::Enabled));
    assert_eq!(cpu.r.pc, 0xC002);
    cpu.step(&mut mmu).unwrap(); // now the pending interrupt is serviced
    assert_eq!(cpu.r.pc, 0x0040);
}

#[test]
fn halt_wakes_on_pending_interrupt_without_servicing() {
    let (mut cpu, mut mmu) = make_machine();
    cpu.halted = true;
    cpu.interrupt_state = InterruptStatus::Disabled;
    let before = mmu.get_cycles();
    cpu.step(&mut mmu).unwrap();
    assert!(cpu.halted, "no interrupt pending: still halted");
    assert_eq!(mmu.get_cycles(), before + 4, "halted time still passes");

    mmu.interrupt.set_enable(0x01);
    mmu.interrupt.set_flag(0x01);
    cpu.step(&mut mmu).unwrap();
    assert!(!cpu.halted, "pending interrupt wakes the CPU");
    assert_eq!(mmu.interrupt.get_flag() & 0x01, 0x01, "but is not serviced");
}

#[test]
fn push_pop_roundtrip_restores_value_and_stack_pointer() {
    let (mut cpu, mut mmu) = make_machine();
    cpu.r.sp = 0xFFFE;
    cpu.push_u16(&mut mmu, 0xBEEF);
    assert_eq!(cpu.r.sp, 0xFFFC);
    let v = cpu.pop_u16(&mut mmu);
    assert_eq!(v, 0xBEEF);
    assert_eq!(cpu.r.sp, 0xFFFE);

    // and through work RAM
    cpu.r.sp = 0xD000;
    cpu.push_u16(&mut mmu, 0x1234);
    assert_eq!(cpu.pop_u16(&mut mmu), 0x1234);
    assert_eq!(cpu.r.sp, 0xD000);
}

#[test]
fn push16_pop16_through_register_pairs() {
    let (mut cpu, mut mmu) = make_machine();
    cpu.r.sp = 0xFFFE;
    cpu.r.set_u16(Register16Bit::BC, 0xCAFE);
    cpu.push16(&mut mmu, Register16Bit::BC);
    cpu.pop16(&mut mmu, Register16Bit::DE);
    assert_eq!(cpu.r.get_u16(Register16Bit::DE), 0xCAFE);
    assert_eq!(cpu.r.sp, 0xFFFE);
}

#[test]
fn registers_read_twice_return_the_same_value() {
    let (cpu, _mmu) = make_machine();
    assert_eq!(cpu.r.get_u8(Register8Bit::A), cpu.r.get_u8(Register8Bit::A));
    assert_eq!(
        cpu.r.get_u16(Register16Bit::HL),
        cpu.r.get_u16(Register16Bit::HL)
    );
}

#[test]
fn af_writes_keep_the_flag_nibble_only() {
    let (mut cpu, _mmu) = make_machine();
    cpu.r.set_u16(Register16Bit::AF, 0x12FF);
    assert_eq!(cpu.r.get_u16(Register16Bit::AF), 0x12F0);
    assert!(cpu.r.f.zero && cpu.r.f.negative && cpu.r.f.half_carry && cpu.r.f.carry);
}

#[test]
fn post_boot_register_values() {
    let (cpu, _mmu) = make_machine();
    assert_eq!(cpu.r.a, 0x01);
    assert_eq!(cpu.r.get_u16(Register16Bit::AF), 0x01B0);
    assert_eq!(cpu.r.get_u16(Register16Bit::BC), 0x0013);
    assert_eq!(cpu.r.get_u16(Register16Bit::DE), 0x00D8);
    assert_eq!(cpu.r.get_u16(Register16Bit::HL), 0x014D);
    assert_eq!(cpu.r.sp, 0xFFFE);
    assert_eq!(cpu.r.pc, 0x0100);
}

#[test]
fn memory_operands_work_through_hl() {
    let (mut cpu, mut mmu) = make_machine();
    cpu.r.set_u16(Register16Bit::HL, 0xC050);
    cpu.r.a = 0x7E;
    cpu.ld(&mut mmu, Address::HL, Register8Bit::A);
    assert_eq!(mmu.read_u8(0xC050), 0x7E);
    cpu.r.a = 0;
    cpu.ld(&mut mmu, Register8Bit::A, Address::HLI);
    assert_eq!(cpu.r.a, 0x7E);
    assert_eq!(cpu.r.get_u16(Register16Bit::HL), 0xC051);
    cpu.ld(&mut mmu, Register8Bit::B, Address::HLD);
    assert_eq!(cpu.r.get_u16(Register16Bit::HL), 0xC050);
}

#[test]
fn run_to_vblank_stops_at_a_completed_frame() {
    let mut rom = plain_rom();
    rom[0x100] = 0xC3; // JP 0x0100: spin in place
    rom[0x101] = 0x00;
    rom[0x102] = 0x01;
    let cart = Cartridge::new(rom).unwrap();
    let mut gb = GameBoy::new(cart);
    gb.mmu.write_u8(0xFF40, 0x80); // switch the display on, layers off
    gb.run_to_vblank().unwrap();
    assert!(gb.mmu.lcd.vblank_reached());
    let frame = gb.draw_frame();
    assert_eq!(frame.len(), 160 * 144 * 4);
    // a second call completes one more whole frame
    gb.run_to_vblank().unwrap();
    assert!(gb.mmu.lcd.vblank_reached());
}

#[test]
fn run_forever_stops_at_the_first_decode_error() {
    let mut rom = plain_rom();
    rom[0x100] = 0x00; // NOP
    rom[0x101] = 0xD3; // a hole of the primary table
    let cart = Cartridge::new(rom).unwrap();
    let mut gb = GameBoy::new(cart);
    let err = gb.run_forever().unwrap_err();
    assert_eq!(err, UnknownOpcode { opcode: 0xD3, addr: 0x0101 });
}

#[test]
fn small_program_runs_through_loads_calls_and_halt() {
    let (mut cpu, mut mmu) = make_machine();
    let program: [u8; 18] = [
        0x3E, 0x2A, // LD A, 0x2A
        0x21, 0x50, 0xC0, // LD HL, 0xC050
        0x77, // LD (HL), A
        0x3C, // INC A
        0xCD, 0x10, 0xC0, // CALL 0xC010
        0x18, 0x02, // JR +2
        0x00, 0x00, // (skipped)
        0x76, // HALT
        0x00, // NOP
        0x3D, // 0xC010: DEC A
        0xC9, // RET
    ];
    for (i, b) in program.iter().enumerate() {
        mmu.system_ram[i] = *b;
    }
    cpu.r.pc = 0xC000;
    cpu.interrupt_state = InterruptStatus::Disabled;
    for _ in 0..9 {
        cpu.step(&mut mmu).unwrap();
    }
    assert!(cpu.halted);
    assert_eq!(cpu.r.a, 0x2A, "incremented and then decremented in the call");
    assert_eq!(mmu.read_u8(0xC050), 0x2A, "stored through HL");
    assert_eq!(cpu.r.sp, 0xFFFE, "the call frame was popped");
    assert_eq!(cpu.r.pc, 0xC00F, "halted past the relative jump");
}
