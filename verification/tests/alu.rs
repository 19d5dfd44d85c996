use gboxide::cartridge::Cartridge;
use gboxide::cpu::CPU;
use gboxide::mmu::MMU;
use gboxide::registers::Register8Bit;
use gboxide::registers::Register16Bit;
use gboxide::registers::Flags;

fn plain_rom() -> Vec<u8> {
    let mut rom = vec![0u8; 0x8000];
    rom[0x143] = 0x00; // not a color cartridge
    rom[0x146] = 0x00; // no super-console functions
    rom[0x147] = 0x00; // no banking controller
    rom[0x148] = 0x00; // 32 KiB ROM
    rom[0x149] = 0x00; // no cartridge RAM
    rom[0x14A] = 0x00; // Japanese destination
    rom[0x14B] = 0x00; // old licensee "none"
    rom
}

fn make_machine() -> (CPU, MMU) {
    let cart = Cartridge::new(plain_rom()).unwrap();
    (CPU::new(), MMU::new(cart))
}

#[test]
fn sub_borrow_sets_all_subtraction_flags() {
    let (mut cpu, mut mmu) = make_machine();
    cpu.r.a = 0x00;
    cpu.r.b = 0x01;
    cpu.sub(&mut mmu, Register8Bit::B);
    assert_eq!(cpu.r.a, 0xFF);
    assert!(!cpu.r.f.zero);
    assert!(cpu.r.f.negative);
    assert!(cpu.r.f.half_carry);
    assert!(cpu.r.f.carry);
}

#[test]
fn add_half_carry_and_carry() {
    let (mut cpu, mut mmu) = make_machine();
    cpu.r.a = 0x0F;
    cpu.r.b = 0x01;
    cpu.add(&mut mmu, Register8Bit::B);
    assert_eq!(cpu.r.a, 0x10);
    assert!(cpu.r.f.half_carry && !cpu.r.f.carry && !cpu.r.f.zero && !cpu.r.f.negative);

    cpu.r.a = 0xFF;
    cpu.r.b = 0x01;
    cpu.add(&mut mmu, Register8Bit::B);
    assert_eq!(cpu.r.a, 0x00);
    assert!(cpu.r.f.zero && cpu.r.f.half_carry && cpu.r.f.carry);
}

#[test]
fn adc_uses_incoming_carry() {
    let (mut cpu, mut mmu) = make_machine();
    cpu.r.a = 0xFE;
    cpu.r.c = 0x01;
    cpu.r.f.carry = true;
    cpu.adc(&mut mmu, Register8Bit::C);
    assert_eq!(cpu.r.a, 0x00);
    assert!(cpu.r.f.zero && cpu.r.f.carry && cpu.r.f.half_carry);
}

#[test]
fn sbc_uses_incoming_borrow() {
    let (mut cpu, mut mmu) = make_machine();
    cpu.r.a = 0x10;
    cpu.r.d = 0x0F;
    cpu.r.f.carry = true;
    cpu.sbc(&mut mmu, Register8Bit::D);
    assert_eq!(cpu.r.a, 0x00);
    assert!(cpu.r.f.zero && cpu.r.f.negative && cpu.r.f.half_carry && !cpu.r.f.carry);
}

#[test]
fn and_or_xor_flags() {
    let (mut cpu, mut mmu) = make_machine();
    cpu.r.a = 0xF0;
    cpu.r.e = 0x0F;
    cpu.and(&mut mmu, Register8Bit::E);
    assert_eq!(cpu.r.a, 0x00);
    assert!(cpu.r.f.zero && cpu.r.f.half_carry && !cpu.r.f.carry);

    cpu.r.a = 0xF0;
    cpu.or(&mut mmu, Register8Bit::E);
    assert_eq!(cpu.r.a, 0xFF);
    assert!(!cpu.r.f.zero && !cpu.r.f.half_carry);

    cpu.r.e = 0xFF;
    cpu.xor(&mut mmu, Register8Bit::E);
    assert_eq!(cpu.r.a, 0x00);
    assert!(cpu.r.f.zero);
}

#[test]
fn cp_compares_without_storing() {
    let (mut cpu, mut mmu) = make_machine();
    cpu.r.a = 0x3C;
    cpu.r.b = 0x3C;
    cpu.cp(&mut mmu, Register8Bit::B);
    assert_eq!(cpu.r.a, 0x3C);
    assert!(cpu.r.f.zero && cpu.r.f.negative);
}

#[test]
fn inc_dec_keep_carry() {
    let (mut cpu, mut mmu) = make_machine();
    cpu.r.h = 0x0F;
    cpu.r.f.carry = true;
    cpu.inc(&mut mmu, Register8Bit::H);
    assert_eq!(cpu.r.h, 0x10);
    assert!(cpu.r.f.half_carry && cpu.r.f.carry && !cpu.r.f.negative);

    cpu.r.l = 0x01;
    cpu.dec(&mut mmu, Register8Bit::L);
    assert_eq!(cpu.r.l, 0x00);
    assert!(cpu.r.f.zero && cpu.r.f.negative && cpu.r.f.carry);

    cpu.r.l = 0x10;
    cpu.dec(&mut mmu, Register8Bit::L);
    assert_eq!(cpu.r.l, 0x0F);
    assert!(cpu.r.f.half_carry);
}

#[test]
fn decimal_adjust_after_bcd_nine_plus_nine() {
    // BCD 9 + 9: the binary sum 0x12 carries out of the low nibble, and the
    // adjustment restores the packed-decimal result 18 with carry clear.
    let (mut cpu, mut mmu) = make_machine();
    cpu.r.a = 0x09;
    cpu.r.b = 0x09;
    cpu.add(&mut mmu, Register8Bit::B);
    assert_eq!(cpu.r.a, 0x12);
    assert!(cpu.r.f.half_carry);
    cpu.daa(&mmu);
    assert_eq!(cpu.r.a, 0x18);
    assert!(!cpu.r.f.half_carry);
    assert!(!cpu.r.f.negative);
    assert!(!cpu.r.f.carry);
    assert!(!cpu.r.f.zero);
}

#[test]
fn decimal_adjust_with_decimal_carry() {
    let (mut cpu, mut mmu) = make_machine();
    cpu.r.a = 0x90;
    cpu.r.b = 0x90;
    cpu.add(&mut mmu, Register8Bit::B);
    assert_eq!(cpu.r.a, 0x20);
    assert!(cpu.r.f.carry);
    cpu.daa(&mmu);
    assert_eq!(cpu.r.a, 0x80);
    assert!(cpu.r.f.carry);
}

#[test]
fn rotates_move_the_edge_bits() {
    let (mut cpu, mut mmu) = make_machine();
    cpu.r.a = 0x85;
    cpu.rlc(&mut mmu, Register8Bit::A, true);
    assert_eq!(cpu.r.a, 0x0B);
    assert!(cpu.r.f.carry);

    cpu.r.a = 0x01;
    cpu.r.f.carry = false;
    cpu.rrc(&mut mmu, Register8Bit::A, true);
    assert_eq!(cpu.r.a, 0x80);
    assert!(cpu.r.f.carry);

    cpu.r.a = 0x80;
    cpu.r.f.carry = true;
    cpu.rl(&mut mmu, Register8Bit::A, true);
    assert_eq!(cpu.r.a, 0x01);
    assert!(cpu.r.f.carry);

    cpu.r.a = 0x01;
    cpu.r.f.carry = false;
    cpu.rr(&mut mmu, Register8Bit::A, true);
    assert_eq!(cpu.r.a, 0x00);
    assert!(cpu.r.f.carry && cpu.r.f.zero);
}

#[test]
fn shifts_and_swap() {
    let (mut cpu, mut mmu) = make_machine();
    cpu.r.b = 0x80;
    cpu.sla(&mut mmu, Register8Bit::B);
    assert_eq!(cpu.r.b, 0x00);
    assert!(cpu.r.f.carry && cpu.r.f.zero);

    cpu.r.c = 0x81;
    cpu.sra(&mut mmu, Register8Bit::C);
    assert_eq!(cpu.r.c, 0xC0);
    assert!(cpu.r.f.carry);

    cpu.r.d = 0x01;
    cpu.srl(&mut mmu, Register8Bit::D);
    assert_eq!(cpu.r.d, 0x00);
    assert!(cpu.r.f.carry && cpu.r.f.zero);

    cpu.r.e = 0xF1;
    cpu.swap(&mut mmu, Register8Bit::E);
    assert_eq!(cpu.r.e, 0x1F);
    assert!(!cpu.r.f.zero && !cpu.r.f.carry);
}

#[test]
fn bit_set_res() {
    let (mut cpu, mut mmu) = make_machine();
    cpu.r.a = 0x80;
    cpu.bit(&mut mmu, 7, Register8Bit::A);
    assert!(!cpu.r.f.zero && cpu.r.f.half_carry);
    cpu.bit(&mut mmu, 0, Register8Bit::A);
    assert!(cpu.r.f.zero);

    cpu.r.b = 0x00;
    cpu.set(&mut mmu, 3, Register8Bit::B);
    assert_eq!(cpu.r.b, 0x08);
    cpu.res(&mut mmu, 3, Register8Bit::B);
    assert_eq!(cpu.r.b, 0x00);
}

#[test]
fn complement_and_carry_flag_ops() {
    let (mut cpu, mut mmu) = make_machine();
    cpu.r.a = 0x35;
    cpu.cpl(&mmu);
    assert_eq!(cpu.r.a, 0xCA);
    assert!(cpu.r.f.negative && cpu.r.f.half_carry);

    cpu.r.f.carry = false;
    cpu.scf(&mmu);
    assert!(cpu.r.f.carry);
    cpu.ccf(&mmu);
    assert!(!cpu.r.f.carry);
    cpu.ccf(&mmu);
    assert!(cpu.r.f.carry);
    let _ = &mut mmu;
}

#[test]
fn add16_hl_half_carry_at_bit_eleven() {
    let (mut cpu, mut mmu) = make_machine();
    cpu.r.set_u16(Register16Bit::HL, 0x0FFF);
    cpu.r.set_u16(Register16Bit::BC, 0x0001);
    cpu.add16_hl(&mut mmu, Register16Bit::BC);
    assert_eq!(cpu.r.get_u16(Register16Bit::HL), 0x1000);
    assert!(cpu.r.f.half_carry && !cpu.r.f.carry);

    cpu.r.set_u16(Register16Bit::HL, 0xFFFF);
    cpu.add16_hl(&mut mmu, Register16Bit::BC);
    assert_eq!(cpu.r.get_u16(Register16Bit::HL), 0x0000);
    assert!(cpu.r.f.carry);
}

#[test]
fn relative_jump_sign_extends() {
    let (mut cpu, mut mmu) = make_machine();
    cpu.r.pc = 0x0200;
    cpu.jump_relative(&mut mmu, 0xFE);
    assert_eq!(cpu.r.pc, 0x01FE);
    cpu.jump_relative(&mut mmu, 0x02);
    assert_eq!(cpu.r.pc, 0x0200);
}

#[test]
fn add_then_sub_restores_every_operand_pair() {
    let (mut cpu, mut mmu) = make_machine();
    for a in 0..=255u8 {
        for b in 0..=255u8 {
            cpu.r.a = a;
            cpu.r.b = b;
            cpu.add(&mut mmu, Register8Bit::B);
            cpu.sub(&mut mmu, Register8Bit::B);
            assert_eq!(cpu.r.a, a);
        }
    }
}

#[test]
fn flags_check_gates_a_flag_set() {
    let f = Flags { zero: true, negative: false, half_carry: true, carry: false };
    assert_eq!(f.check(true), f);
    assert_eq!(f.check(false), Flags::empty());
}
