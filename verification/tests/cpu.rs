use dmg_core::alu::Flags;
use dmg_core::cartridge::Cartridge;
use dmg_core::cpu::{join, split, CPU};
use dmg_core::isa::{
    decode, operand_len, AluOp, Arith, Bits, Cond, Fault, Flow, Instr, Load, Loc8, Reg16,
};
use dmg_core::mmu::MMU;

const Z: u8 = 0x80;
const N: u8 = 0x40;
const H: u8 = 0x20;
const C: u8 = 0x10;

/// A bus around a ROM that holds `program` at the entry point 0x0100.
fn bus_with_program(program: &[u8]) -> MMU {
    let mut rom = vec![0u8; 0x8000];
    for (i, b) in program.iter().enumerate() {
        rom[0x0100 + i] = *b;
    }
    MMU::new(Cartridge { rom })
}

/// A processor at the entry point with cleared flags and a stack in work RAM.
fn fresh_cpu() -> CPU {
    let mut cpu = CPU::new();
    cpu.f = 0;
    cpu.sp = 0xD000;
    cpu
}

#[test]
fn registers_after_boot() {
    let cpu = CPU::new();
    assert_eq!(cpu.pc, 0x0100);
    assert_eq!(cpu.sp, 0xFFFE);
    assert_eq!(cpu.get_af(), 0x01B0);
    assert_eq!(cpu.get_bc(), 0x0013);
    assert_eq!(cpu.get_de(), 0x00D8);
    assert_eq!(cpu.get_hl(), 0x014D);
    assert!(!cpu.ime);
    assert!(!cpu.ei_pending);
}

#[test]
fn bytes_join_and_split() {
    assert_eq!(join(0x12, 0x34), 0x1234);
    assert_eq!(split(0xABCD), (0xAB, 0xCD));
    assert_eq!(join(0x00, 0xFF), 0x00FF);
    assert_eq!(split(0xFF00), (0xFF, 0x00));
}

#[test]
fn flag_setters_touch_one_bit_each() {
    let mut cpu = fresh_cpu();
    cpu.set_flag_z(true);
    assert_eq!(cpu.f, Z);
    cpu.set_flag_c(true);
    assert_eq!(cpu.f, Z | C);
    cpu.set_flag_h(true);
    cpu.set_flag_n(true);
    assert_eq!(cpu.f, Z | N | H | C);
    assert!(cpu.get_flag_z() && cpu.get_flag_n() && cpu.get_flag_h() && cpu.get_flag_c());
    cpu.set_flag_z(false);
    assert_eq!(cpu.f, N | H | C);
    cpu.set_flag_h(false);
    assert_eq!(cpu.f, N | C);
    assert!(!cpu.get_flag_z() && cpu.get_flag_n() && !cpu.get_flag_h() && cpu.get_flag_c());
    assert_eq!(cpu.get_flags(), Flags { z: false, n: true, h: false, c: true });
    cpu.set_flags(Flags { z: true, n: false, h: true, c: false });
    assert_eq!(cpu.f, Z | H);
}

#[test]
fn register_pairs_read_and_write_both_halves() {
    let mut cpu = fresh_cpu();
    cpu.set_bc(0x1234);
    cpu.set_de(0x5678);
    cpu.set_hl(0x9ABC);
    assert_eq!((cpu.b, cpu.c, cpu.d, cpu.e, cpu.h, cpu.l), (0x12, 0x34, 0x56, 0x78, 0x9A, 0xBC));
    assert_eq!(cpu.get_bc(), 0x1234);
    assert_eq!(cpu.get_de(), 0x5678);
    assert_eq!(cpu.get_hl(), 0x9ABC);
    cpu.set_reg16(Reg16::SP, 0xC123);
    assert_eq!(cpu.get_reg16(Reg16::SP), 0xC123);
    assert_eq!(cpu.get_reg16(Reg16::DE), 0x5678);
}

#[test]
fn writing_af_masks_the_low_nibble_of_the_flags() {
    let mut cpu = fresh_cpu();
    cpu.set_af(0x12FF);
    assert_eq!(cpu.a, 0x12);
    assert_eq!(cpu.f, 0xF0);
    assert_eq!(cpu.get_af(), 0x12F0);
    cpu.set_af(0x340F);
    assert_eq!(cpu.get_af(), 0x3400);
}

#[test]
fn inc_instruction_on_0f_sets_half_carry() {
    let mut mmu = bus_with_program(&[0x3C]);
    let mut cpu = fresh_cpu();
    cpu.a = 0x0F;
    cpu.f = C;
    assert_eq!(cpu.step(&mut mmu), Ok(4));
    assert_eq!(cpu.a, 0x10);
    assert_eq!(cpu.f, H | C);
    assert_eq!(cpu.pc, 0x0101);
}

#[test]
fn inc_instruction_on_ff_sets_zero_and_half_carry() {
    let mut mmu = bus_with_program(&[0x04]);
    let mut cpu = fresh_cpu();
    cpu.b = 0xFF;
    assert_eq!(cpu.step(&mut mmu), Ok(4));
    assert_eq!(cpu.b, 0x00);
    assert_eq!(cpu.f, Z | H);
}

#[test]
fn dec_sets_subtract_and_borrows_from_the_high_nibble() {
    let mut mmu = bus_with_program(&[0x05, 0x0D, 0x3D]);
    let mut cpu = fresh_cpu();
    cpu.b = 0x10;
    cpu.c = 0x01;
    cpu.a = 0x00;
    cpu.f = C;
    assert_eq!(cpu.step(&mut mmu), Ok(4));
    assert_eq!((cpu.b, cpu.f), (0x0F, N | H | C));
    assert_eq!(cpu.step(&mut mmu), Ok(4));
    assert_eq!((cpu.c, cpu.f), (0x00, Z | N | C));
    assert_eq!(cpu.step(&mut mmu), Ok(4));
    assert_eq!((cpu.a, cpu.f), (0xFF, N | H | C));
}

#[test]
fn sub_that_borrows_sets_carry() {
    let mut mmu = bus_with_program(&[0x90, 0xD6, 0x01]);
    let mut cpu = fresh_cpu();
    cpu.a = 0x10;
    cpu.b = 0x20;
    assert_eq!(cpu.step(&mut mmu), Ok(4));
    assert_eq!(cpu.a, 0xF0);
    assert_eq!(cpu.f, N | C);
    assert_eq!(cpu.step(&mut mmu), Ok(8));
    assert_eq!(cpu.a, 0xEF);
    assert_eq!(cpu.f, N | H);
}

#[test]
fn add_and_add_with_carry() {
    let mut mmu = bus_with_program(&[0x80, 0x89, 0xC6, 0xFF]);
    let mut cpu = fresh_cpu();
    cpu.a = 0xF8;
    cpu.b = 0x08;
    cpu.c = 0x0F;
    assert_eq!(cpu.step(&mut mmu), Ok(4));
    assert_eq!((cpu.a, cpu.f), (0x00, Z | H | C));
    // 0x00 + 0x0F + carry = 0x10.
    assert_eq!(cpu.step(&mut mmu), Ok(4));
    assert_eq!((cpu.a, cpu.f), (0x10, H));
    assert_eq!(cpu.step(&mut mmu), Ok(8));
    assert_eq!((cpu.a, cpu.f), (0x0F, C));
}

#[test]
fn add8_and_sub8_take_the_carry_only_when_asked() {
    let mut cpu = fresh_cpu();
    cpu.f = C;
    assert_eq!(cpu.add8(0x01, 0x01, false), 0x02);
    assert_eq!(cpu.f, 0);
    cpu.f = C;
    assert_eq!(cpu.add8(0x01, 0x01, true), 0x03);
    assert_eq!(cpu.f, 0);
    assert_eq!(cpu.add8(0x01, 0x01, true), 0x02);
    cpu.f = C;
    assert_eq!(cpu.sub8(0x05, 0x05, true), 0xFF);
    assert_eq!(cpu.f, N | H | C);
    assert_eq!(cpu.sub8(0x05, 0x05, false), 0x00);
    assert_eq!(cpu.f, Z | N);
}

#[test]
fn compare_sets_flags_and_keeps_the_accumulator() {
    let mut mmu = bus_with_program(&[0xFE, 0x42, 0xB8, 0xBE]);
    let mut cpu = fresh_cpu();
    cpu.a = 0x42;
    cpu.b = 0x43;
    cpu.set_hl(0xC000);
    mmu.write_byte(0xC000, 0x03);
    assert_eq!(cpu.step(&mut mmu), Ok(8));
    assert_eq!((cpu.a, cpu.f), (0x42, Z | N));
    assert_eq!(cpu.step(&mut mmu), Ok(4));
    assert_eq!((cpu.a, cpu.f), (0x42, N | H | C));
    assert_eq!(cpu.step(&mut mmu), Ok(8));
    assert_eq!((cpu.a, cpu.f), (0x42, N | H));
}

#[test]
fn logic_instructions() {
    let mut mmu = bus_with_program(&[0xA0, 0xB1, 0xA8, 0xAF, 0xE6, 0x0F, 0xF6, 0x80, 0xEE, 0xFF, 0x2F]);
    let mut cpu = fresh_cpu();
    cpu.a = 0xF3;
    cpu.b = 0x35;
    cpu.c = 0x0C;
    cpu.f = C;
    assert_eq!(cpu.step(&mut mmu), Ok(4));
    assert_eq!((cpu.a, cpu.f), (0x31, H));
    assert_eq!(cpu.step(&mut mmu), Ok(4));
    assert_eq!((cpu.a, cpu.f), (0x3D, 0));
    assert_eq!(cpu.step(&mut mmu), Ok(4));
    assert_eq!((cpu.a, cpu.f), (0x08, 0));
    assert_eq!(cpu.step(&mut mmu), Ok(4));
    assert_eq!((cpu.a, cpu.f), (0x00, Z));
    cpu.a = 0x5A;
    assert_eq!(cpu.step(&mut mmu), Ok(8));
    assert_eq!((cpu.a, cpu.f), (0x0A, H));
    assert_eq!(cpu.step(&mut mmu), Ok(8));
    assert_eq!((cpu.a, cpu.f), (0x8A, 0));
    assert_eq!(cpu.step(&mut mmu), Ok(8));
    assert_eq!((cpu.a, cpu.f), (0x75, 0));
    assert_eq!(cpu.step(&mut mmu), Ok(4));
    assert_eq!((cpu.a, cpu.f), (0x8A, N | H));
}

#[test]
fn word_arithmetic() {
    let mut mmu = bus_with_program(&[0x09, 0x19, 0x03, 0x0B, 0x13, 0x1B, 0x23, 0x2B]);
    let mut cpu = fresh_cpu();
    cpu.set_hl(0x0FFF);
    cpu.set_bc(0x0001);
    cpu.set_de(0xF000);
    cpu.f = Z;
    assert_eq!(cpu.step(&mut mmu), Ok(8));
    assert_eq!((cpu.get_hl(), cpu.f), (0x1000, Z | H));
    assert_eq!(cpu.step(&mut mmu), Ok(8));
    assert_eq!((cpu.get_hl(), cpu.f), (0x0000, Z | C));
    cpu.set_bc(0xFFFF);
    assert_eq!(cpu.step(&mut mmu), Ok(8));
    assert_eq!((cpu.get_bc(), cpu.f), (0x0000, Z | C));
    assert_eq!(cpu.step(&mut mmu), Ok(8));
    assert_eq!(cpu.get_bc(), 0xFFFF);
    assert_eq!(cpu.step(&mut mmu), Ok(8));
    assert_eq!(cpu.get_de(), 0xF001);
    assert_eq!(cpu.step(&mut mmu), Ok(8));
    assert_eq!(cpu.get_de(), 0xF000);
    assert_eq!(cpu.step(&mut mmu), Ok(8));
    assert_eq!(cpu.get_hl(), 0x0001);
    assert_eq!(cpu.step(&mut mmu), Ok(8));
    assert_eq!(cpu.get_hl(), 0x0000);
}

#[test]
fn rotate_and_decimal_adjust() {
    let mut mmu = bus_with_program(&[0x07, 0x27]);
    let mut cpu = fresh_cpu();
    cpu.a = 0x85;
    cpu.f = Z | N | H;
    assert_eq!(cpu.step(&mut mmu), Ok(4));
    assert_eq!((cpu.a, cpu.f), (0x0B, C));
    cpu.a = 0x7D;
    cpu.f = 0;
    assert_eq!(cpu.step(&mut mmu), Ok(4));
    assert_eq!((cpu.a, cpu.f), (0x83, 0));
}

#[test]
fn loads_between_registers_and_memory() {
    let mut mmu = bus_with_program(&[
        0x06, 0x12, // LD B,0x12
    ]);
    let mut cpu = fresh_cpu();
    assert_eq!(cpu.step(&mut mmu), Ok(8));
    assert_eq!(cpu.b, 0x12);
    assert_eq!(cpu.pc, 0x0102);

    let mut mmu = bus_with_program(&[0x47, 0x4F, 0x78, 0x54, 0x5D, 0x60, 0x69, 0x7C]);
    let mut cpu = fresh_cpu();
    cpu.a = 0xA1;
    assert_eq!(cpu.step(&mut mmu), Ok(4));
    assert_eq!(cpu.b, 0xA1);
    assert_eq!(cpu.step(&mut mmu), Ok(4));
    assert_eq!(cpu.c, 0xA1);
    cpu.b = 0xB2;
    assert_eq!(cpu.step(&mut mmu), Ok(4));
    assert_eq!(cpu.a, 0xB2);
    cpu.h = 0x44;
    assert_eq!(cpu.step(&mut mmu), Ok(4));
    assert_eq!(cpu.d, 0x44);
    cpu.l = 0x55;
    assert_eq!(cpu.step(&mut mmu), Ok(4));
    assert_eq!(cpu.e, 0x55);
    assert_eq!(cpu.step(&mut mmu), Ok(4));
    assert_eq!(cpu.h, 0xB2);
    cpu.c = 0x66;
    assert_eq!(cpu.step(&mut mmu), Ok(4));
    assert_eq!(cpu.l, 0x66);
    assert_eq!(cpu.step(&mut mmu), Ok(4));
    assert_eq!(cpu.a, 0xB2);
    assert_eq!(cpu.f, 0);
}

#[test]
fn loads_through_hl() {
    let mut mmu = bus_with_program(&[0x36, 0x99, 0x7E, 0x46, 0x70, 0x34, 0x35, 0x35]);
    let mut cpu = fresh_cpu();
    cpu.set_hl(0xC010);
    assert_eq!(cpu.step(&mut mmu), Ok(12));
    assert_eq!(mmu.read_byte(0xC010), 0x99);
    assert_eq!(cpu.step(&mut mmu), Ok(8));
    assert_eq!(cpu.a, 0x99);
    assert_eq!(cpu.step(&mut mmu), Ok(8));
    assert_eq!(cpu.b, 0x99);
    cpu.b = 0xFF;
    assert_eq!(cpu.step(&mut mmu), Ok(8));
    assert_eq!(mmu.read_byte(0xC010), 0xFF);
    assert_eq!(cpu.step(&mut mmu), Ok(12));
    assert_eq!(mmu.read_byte(0xC010), 0x00);
    assert_eq!(cpu.f, Z | H);
    assert_eq!(cpu.step(&mut mmu), Ok(12));
    assert_eq!(mmu.read_byte(0xC010), 0xFF);
    assert_eq!(cpu.f, N | H);
    assert_eq!(cpu.step(&mut mmu), Ok(12));
    assert_eq!(mmu.read_byte(0xC010), 0xFE);
    assert_eq!(cpu.f, N);
}

#[test]
fn accumulator_transfers_move_hl() {
    let mut mmu = bus_with_program(&[0x22, 0x32, 0x2A, 0x3A, 0x02, 0x1A, 0x12, 0x0A]);
    let mut cpu = fresh_cpu();
    cpu.a = 0x11;
    cpu.set_hl(0xC0FF);
    assert_eq!(cpu.step(&mut mmu), Ok(8));
    assert_eq!(mmu.read_byte(0xC0FF), 0x11);
    assert_eq!(cpu.get_hl(), 0xC100);
    cpu.a = 0x22;
    assert_eq!(cpu.step(&mut mmu), Ok(8));
    assert_eq!(mmu.read_byte(0xC100), 0x22);
    assert_eq!(cpu.get_hl(), 0xC0FF);
    assert_eq!(cpu.step(&mut mmu), Ok(8));
    assert_eq!(cpu.a, 0x11);
    assert_eq!(cpu.get_hl(), 0xC100);
    assert_eq!(cpu.step(&mut mmu), Ok(8));
    assert_eq!(cpu.a, 0x22);
    assert_eq!(cpu.get_hl(), 0xC0FF);
    cpu.set_bc(0xC200);
    cpu.set_de(0xC100);
    assert_eq!(cpu.step(&mut mmu), Ok(8));
    assert_eq!(mmu.read_byte(0xC200), 0x22);
    cpu.a = 0;
    assert_eq!(cpu.step(&mut mmu), Ok(8));
    assert_eq!(cpu.a, 0x22);
    cpu.a = 0x33;
    assert_eq!(cpu.step(&mut mmu), Ok(8));
    assert_eq!(mmu.read_byte(0xC100), 0x33);
    cpu.a = 0;
    assert_eq!(cpu.step(&mut mmu), Ok(8));
    assert_eq!(cpu.a, 0x22);
}

#[test]
fn high_page_and_absolute_transfers() {
    let mut mmu = bus_with_program(&[
        0xE0, 0x80, // LDH (0x80),A
        0xF0, 0x80, // LDH A,(0x80)
        0xE2, // LD (C),A
        0xEA, 0x34, 0xC2, // LD (0xC234),A
        0xFA, 0x34, 0xC2, // LD A,(0xC234)
    ]);
    let mut cpu = fresh_cpu();
    cpu.a = 0x5A;
    assert_eq!(cpu.step(&mut mmu), Ok(12));
    assert_eq!(mmu.read_byte(0xFF80), 0x5A);
    cpu.a = 0;
    assert_eq!(cpu.step(&mut mmu), Ok(12));
    assert_eq!(cpu.a, 0x5A);
    cpu.c = 0x81;
    assert_eq!(cpu.step(&mut mmu), Ok(8));
    assert_eq!(mmu.read_byte(0xFF81), 0x5A);
    cpu.a = 0x6B;
    assert_eq!(cpu.step(&mut mmu), Ok(16));
    assert_eq!(mmu.read_byte(0xC234), 0x6B);
    cpu.a = 0;
    assert_eq!(cpu.step(&mut mmu), Ok(16));
    assert_eq!(cpu.a, 0x6B);
    assert_eq!(cpu.pc, 0x010B);
}

#[test]
fn word_loads_read_low_byte_first() {
    let mut mmu = bus_with_program(&[0x01, 0x34, 0x12, 0x11, 0x78, 0x56, 0x21, 0xBC, 0x9A, 0x31, 0xFE, 0xDF]);
    let mut cpu = fresh_cpu();
    assert_eq!(cpu.step(&mut mmu), Ok(12));
    assert_eq!(cpu.step(&mut mmu), Ok(12));
    assert_eq!(cpu.step(&mut mmu), Ok(12));
    assert_eq!(cpu.step(&mut mmu), Ok(12));
    assert_eq!(cpu.get_bc(), 0x1234);
    assert_eq!(cpu.get_de(), 0x5678);
    assert_eq!(cpu.get_hl(), 0x9ABC);
    assert_eq!(cpu.sp, 0xDFFE);
    assert_eq!(cpu.pc, 0x010C);
}

#[test]
fn fetch_reads_and_advances() {
    let mmu = bus_with_program(&[0xAA, 0xBB, 0xCC]);
    let mut cpu = fresh_cpu();
    assert_eq!(cpu.fetch_u8(&mmu), 0xAA);
    assert_eq!(cpu.pc, 0x0101);
    assert_eq!(cpu.fetch_u16(&mmu), 0xCCBB);
    assert_eq!(cpu.pc, 0x0103);
}

#[test]
fn program_counter_wraps_after_ffff() {
    let mut mmu = bus_with_program(&[]);
    mmu.write_byte(0xFFFF, 0x3C);
    let mut cpu = fresh_cpu();
    cpu.pc = 0xFFFF;
    assert_eq!(cpu.fetch_u8(&mmu), 0x3C);
    assert_eq!(cpu.pc, 0x0000);

    cpu.pc = 0xFFFF;
    cpu.a = 0x01;
    assert_eq!(cpu.step(&mut mmu), Ok(4));
    assert_eq!(cpu.a, 0x02);
    assert_eq!(cpu.pc, 0x0000);

    cpu.pc = 0xFFFF;
    let word = cpu.fetch_u16(&mmu);
    assert_eq!(word & 0xFF, 0x3C);
    assert_eq!(cpu.pc, 0x0001);
}

#[test]
fn push_then_pop_gives_the_word_and_the_stack_pointer_back() {
    let mut mmu = bus_with_program(&[]);
    let mut cpu = fresh_cpu();
    cpu.push(&mut mmu, 0x1234);
    assert_eq!(cpu.sp, 0xCFFE);
    assert_eq!(mmu.read_byte(0xCFFE), 0x34);
    assert_eq!(mmu.read_byte(0xCFFF), 0x12);
    assert_eq!(cpu.pop(&mmu), 0x1234);
    assert_eq!(cpu.sp, 0xD000);

    cpu.push(&mut mmu, 0xBEEF);
    cpu.push(&mut mmu, 0x0001);
    assert_eq!(cpu.sp, 0xCFFC);
    assert_eq!(cpu.pop(&mmu), 0x0001);
    assert_eq!(cpu.pop(&mmu), 0xBEEF);
    assert_eq!(cpu.sp, 0xD000);
}

#[test]
fn push_then_pop_across_the_top_of_memory() {
    let mut mmu = bus_with_program(&[]);
    let mut cpu = fresh_cpu();
    cpu.sp = 0x0000;
    cpu.push(&mut mmu, 0xA55A);
    assert_eq!(cpu.sp, 0xFFFE);
    assert_eq!(mmu.read_byte(0xFFFE), 0x5A);
    assert_eq!(mmu.read_byte(0xFFFF), 0xA5);
    assert_eq!(cpu.pop(&mmu), 0xA55A);
    assert_eq!(cpu.sp, 0x0000);
}

#[test]
fn register_pairs_go_through_the_stack() {
    let mut mmu = bus_with_program(&[]);
    let mut cpu = fresh_cpu();
    cpu.push_reg_pair(&mut mmu, 0xAB, 0xCD);
    assert_eq!(mmu.read_byte(0xCFFE), 0xCD);
    assert_eq!(mmu.read_byte(0xCFFF), 0xAB);
    assert_eq!(cpu.pop_reg_pair(&mmu), (0xAB, 0xCD));
    assert_eq!(cpu.sp, 0xD000);
}

#[test]
fn popping_af_clears_the_low_nibble_of_the_flags() {
    let mut mmu = bus_with_program(&[0xF1, 0xF5, 0xF1]);
    let mut cpu = fresh_cpu();
    cpu.push(&mut mmu, 0x12FF);
    cpu.pop_af(&mmu);
    assert_eq!(cpu.a, 0x12);
    assert_eq!(cpu.f, 0xF0);
    assert_eq!(cpu.sp, 0xD000);

    cpu.push(&mut mmu, 0x340F);
    assert_eq!(cpu.step(&mut mmu), Ok(12));
    assert_eq!(cpu.get_af(), 0x3400);

    cpu.a = 0x77;
    cpu.f = Z | C;
    assert_eq!(cpu.step(&mut mmu), Ok(16));
    assert_eq!(mmu.read_byte(0xCFFE), Z | C);
    assert_eq!(mmu.read_byte(0xCFFF), 0x77);
    cpu.a = 0;
    cpu.f = 0;
    assert_eq!(cpu.step(&mut mmu), Ok(12));
    assert_eq!(cpu.get_af(), 0x7790);
    assert_eq!(cpu.sp, 0xD000);
}

#[test]
fn push_af_then_pop_af_round_trips() {
    let mut mmu = bus_with_program(&[]);
    let mut cpu = fresh_cpu();
    cpu.a = 0x9C;
    cpu.f = N | H;
    cpu.push_af(&mut mmu);
    cpu.a = 0;
    cpu.f = 0;
    cpu.pop_af(&mmu);
    assert_eq!((cpu.a, cpu.f, cpu.sp), (0x9C, N | H, 0xD000));
}

#[test]
fn push_and_pop_instructions() {
    let mut mmu = bus_with_program(&[0xC5, 0xD5, 0xE5, 0xC1, 0xD1, 0xE1]);
    let mut cpu = fresh_cpu();
    cpu.set_bc(0x1111);
    cpu.set_de(0x2222);
    cpu.set_hl(0x3333);
    assert_eq!(cpu.step(&mut mmu), Ok(16));
    assert_eq!(cpu.step(&mut mmu), Ok(16));
    assert_eq!(cpu.step(&mut mmu), Ok(16));
    assert_eq!(cpu.sp, 0xCFFA);
    assert_eq!(cpu.step(&mut mmu), Ok(12));
    assert_eq!(cpu.step(&mut mmu), Ok(12));
    assert_eq!(cpu.step(&mut mmu), Ok(12));
    assert_eq!(cpu.get_bc(), 0x3333);
    assert_eq!(cpu.get_de(), 0x2222);
    assert_eq!(cpu.get_hl(), 0x1111);
    assert_eq!(cpu.sp, 0xD000);
}

#[test]
fn relative_jumps_cost_less_when_not_taken() {
    let mut mmu = bus_with_program(&[0x20, 0x02, 0x28, 0x02, 0x00, 0x00, 0x30, 0xFE]);
    let mut cpu = fresh_cpu();
    cpu.f = Z;
    assert_eq!(cpu.step(&mut mmu), Ok(8));
    assert_eq!(cpu.pc, 0x0102);
    assert_eq!(cpu.step(&mut mmu), Ok(12));
    assert_eq!(cpu.pc, 0x0106);
    assert_eq!(cpu.step(&mut mmu), Ok(12));
    assert_eq!(cpu.pc, 0x0106);
    cpu.f = C;
    assert_eq!(cpu.step(&mut mmu), Ok(8));
    assert_eq!(cpu.pc, 0x0108);
}

#[test]
fn relative_jump_goes_backwards_and_forwards() {
    let mut mmu = bus_with_program(&[0x18, 0x7F]);
    let mut cpu = fresh_cpu();
    assert_eq!(cpu.step(&mut mmu), Ok(12));
    assert_eq!(cpu.pc, 0x0181);
    cpu.pc = 0x0100;
    cpu.jump_relative(0x80);
    assert_eq!(cpu.pc, 0x0080);
    cpu.pc = 0x0010;
    cpu.jump_relative(0xE0);
    assert_eq!(cpu.pc, 0xFFF0);
    cpu.pc = 0xFFF0;
    cpu.jump_relative(0x20);
    assert_eq!(cpu.pc, 0x0010);
    let mut mmu = bus_with_program(&[0x38, 0x02]);
    cpu.pc = 0x0100;
    cpu.f = C;
    assert_eq!(cpu.step(&mut mmu), Ok(12));
    assert_eq!(cpu.pc, 0x0104);
}

#[test]
fn absolute_jumps() {
    let mut mmu = bus_with_program(&[0xC2, 0x00, 0x02, 0xCA, 0x00, 0x02, 0xC3, 0x50, 0x01]);
    let mut cpu = fresh_cpu();
    cpu.f = Z;
    assert_eq!(cpu.step(&mut mmu), Ok(12));
    assert_eq!(cpu.pc, 0x0103);
    assert_eq!(cpu.step(&mut mmu), Ok(16));
    assert_eq!(cpu.pc, 0x0200);
    cpu.pc = 0x0106;
    assert_eq!(cpu.step(&mut mmu), Ok(16));
    assert_eq!(cpu.pc, 0x0150);
    let mut mmu = bus_with_program(&[0xE9]);
    cpu.pc = 0x0100;
    cpu.set_hl(0x4321);
    assert_eq!(cpu.step(&mut mmu), Ok(4));
    assert_eq!(cpu.pc, 0x4321);
}

#[test]
fn call_and_return() {
    // CALL 0x0110 at the entry point, RET at 0x0110.
    let mut program = vec![0u8; 0x11];
    program[0x00] = 0xCD;
    program[0x01] = 0x10;
    program[0x02] = 0x01;
    program[0x10] = 0xC9;
    let mut mmu = bus_with_program(&program);
    let mut cpu = fresh_cpu();
    assert_eq!(cpu.step(&mut mmu), Ok(24));
    assert_eq!(cpu.pc, 0x0110);
    assert_eq!(cpu.sp, 0xCFFE);
    assert_eq!(mmu.read_byte(0xCFFE), 0x03);
    assert_eq!(mmu.read_byte(0xCFFF), 0x01);
    assert_eq!(cpu.step(&mut mmu), Ok(16));
    assert_eq!(cpu.pc, 0x0103);
    assert_eq!(cpu.sp, 0xD000);
}

#[test]
fn conditional_returns_cost_less_when_not_taken() {
    let mut mmu = bus_with_program(&[0xC0, 0xC8, 0xD0, 0xD8]);
    let mut cpu = fresh_cpu();
    cpu.push(&mut mmu, 0x0103);
    cpu.f = Z;
    assert_eq!(cpu.step(&mut mmu), Ok(8));
    assert_eq!(cpu.pc, 0x0101);
    cpu.pc = 0x0102;
    assert_eq!(cpu.step(&mut mmu), Ok(20));
    assert_eq!(cpu.pc, 0x0103);
    assert_eq!(cpu.sp, 0xD000);
    cpu.f = C;
    cpu.pc = 0x0102;
    assert_eq!(cpu.step(&mut mmu), Ok(8));
    cpu.push(&mut mmu, 0x0100);
    assert_eq!(cpu.step(&mut mmu), Ok(20));
    assert_eq!(cpu.pc, 0x0100);
    cpu.f = 0;
    cpu.push(&mut mmu, 0x0102);
    assert_eq!(cpu.step(&mut mmu), Ok(20));
    assert_eq!(cpu.pc, 0x0102);
}

#[test]
fn restart_calls_a_fixed_address() {
    let mut mmu = bus_with_program(&[0xEF]);
    let mut cpu = fresh_cpu();
    assert_eq!(cpu.step(&mut mmu), Ok(16));
    assert_eq!(cpu.pc, 0x0028);
    assert_eq!(cpu.pop(&mmu), 0x0101);
}

#[test]
fn return_from_interrupt_enables_at_once() {
    let mut mmu = bus_with_program(&[0xD9]);
    let mut cpu = fresh_cpu();
    cpu.push(&mut mmu, 0x0234);
    assert_eq!(cpu.step(&mut mmu), Ok(16));
    assert_eq!(cpu.pc, 0x0234);
    assert!(cpu.ime);
    assert!(!cpu.ei_pending);
}

#[test]
fn disable_interrupts_clears_the_master_enable() {
    let mut mmu = bus_with_program(&[0xF3]);
    mmu.write_byte(0xFF0F, 0x00);
    let mut cpu = fresh_cpu();
    cpu.ime = true;
    assert_eq!(cpu.step(&mut mmu), Ok(4));
    assert!(!cpu.ime);
}

#[test]
fn enable_interrupts_takes_effect_one_instruction_late() {
    let mut mmu = bus_with_program(&[0xFB, 0x00, 0x00]);
    mmu.write_byte(0xFFFF, 0x01);
    mmu.write_byte(0xFF0F, 0x01);
    let mut cpu = fresh_cpu();
    assert!(cpu.vblank_pending(&mmu));

    // The instruction that asks.
    assert_eq!(cpu.step(&mut mmu), Ok(4));
    assert!(!cpu.ime);
    assert!(cpu.ei_pending);
    assert_eq!(cpu.pc, 0x0101);

    // The instruction after it runs, though the interrupt is pending.
    assert_eq!(cpu.step(&mut mmu), Ok(4));
    assert_eq!(cpu.pc, 0x0102);
    assert!(cpu.ime);
    assert!(!cpu.ei_pending);
    assert_eq!(cpu.sp, 0xD000);

    // The step after that services the interrupt.
    assert_eq!(cpu.step(&mut mmu), Ok(20));
    assert_eq!(cpu.pc, 0x0040);
    assert!(!cpu.ime);
    assert_eq!(cpu.sp, 0xCFFE);
    assert_eq!(cpu.pop(&mmu), 0x0102);
    assert_eq!(mmu.read_byte(0xFF0F) & 0x01, 0x00);
    assert!(!cpu.vblank_pending(&mmu));
}

#[test]
fn interrupt_needs_request_enable_and_master_enable() {
    let mut mmu = bus_with_program(&[0x00, 0x00, 0x00]);
    let mut cpu = fresh_cpu();
    cpu.ime = true;
    mmu.write_byte(0xFFFF, 0x00);
    mmu.write_byte(0xFF0F, 0x01);
    assert!(!cpu.vblank_pending(&mmu));
    assert_eq!(cpu.step(&mut mmu), Ok(4));
    mmu.write_byte(0xFFFF, 0x01);
    mmu.write_byte(0xFF0F, 0xFE);
    assert!(!cpu.vblank_pending(&mmu));
    assert_eq!(cpu.step(&mut mmu), Ok(4));
    mmu.write_byte(0xFF0F, 0x01);
    cpu.ime = false;
    assert!(cpu.vblank_pending(&mmu));
    assert_eq!(cpu.step(&mut mmu), Ok(4));
    assert_eq!(cpu.pc, 0x0103);
}

#[test]
fn servicing_takes_twenty_ticks_and_keeps_other_requests() {
    let mut mmu = bus_with_program(&[0x00]);
    mmu.write_byte(0xFFFF, 0x1F);
    mmu.write_byte(0xFF0F, 0x1F);
    let mut cpu = fresh_cpu();
    cpu.ime = true;
    cpu.pc = 0x1234;
    assert_eq!(cpu.service_interrupt(&mut mmu), 20);
    assert_eq!(cpu.pc, 0x0040);
    assert_eq!(mmu.read_byte(0xFF0F), 0x1E);
    assert_eq!(cpu.pop(&mmu), 0x1234);
    assert!(!cpu.ime);
    // Only the vertical blank is ever serviced.
    cpu.ime = true;
    cpu.pc = 0x0100;
    assert_eq!(cpu.step(&mut mmu), Ok(4));
    assert_eq!(cpu.pc, 0x0101);
}

#[test]
fn unsupported_opcode_is_reported_with_its_byte() {
    let mut mmu = bus_with_program(&[0xD3]);
    let mut cpu = fresh_cpu();
    assert_eq!(cpu.step(&mut mmu), Err(Fault::Opcode(0xD3)));
    assert_eq!(cpu.pc, 0x0101);
    let mut mmu = bus_with_program(&[0x76]);
    let mut cpu = fresh_cpu();
    assert_eq!(cpu.step(&mut mmu), Err(Fault::Opcode(0x76)));
    let mut mmu = bus_with_program(&[0x08, 0x00, 0xC0]);
    let mut cpu = fresh_cpu();
    assert_eq!(cpu.step(&mut mmu), Err(Fault::Opcode(0x08)));
    assert_eq!(cpu.pc, 0x0101);
}

#[test]
fn unsupported_prefixed_opcode_is_reported_with_its_byte() {
    let mut mmu = bus_with_program(&[0xCB, 0x00]);
    let mut cpu = fresh_cpu();
    cpu.ei_pending = true;
    assert_eq!(cpu.step(&mut mmu), Err(Fault::Prefixed(0x00)));
    assert_eq!(cpu.pc, 0x0102);
    assert!(!cpu.ime);
    let mut mmu = bus_with_program(&[0xCB, 0x46]);
    let mut cpu = fresh_cpu();
    assert_eq!(cpu.step(&mut mmu), Err(Fault::Prefixed(0x46)));
}

#[test]
fn prefixed_shifts_and_swap() {
    let mut mmu = bus_with_program(&[0xCB, 0x27, 0xCB, 0x37, 0xCB, 0x3F]);
    let mut cpu = fresh_cpu();
    cpu.a = 0x81;
    assert_eq!(cpu.step(&mut mmu), Ok(8));
    assert_eq!((cpu.a, cpu.f), (0x02, C));
    cpu.a = 0xF0;
    assert_eq!(cpu.step(&mut mmu), Ok(8));
    assert_eq!((cpu.a, cpu.f), (0x0F, 0));
    cpu.a = 0x01;
    assert_eq!(cpu.step(&mut mmu), Ok(8));
    assert_eq!((cpu.a, cpu.f), (0x00, Z | C));
    assert_eq!(cpu.pc, 0x0106);
}

#[test]
fn prefixed_bit_tests() {
    let mut mmu = bus_with_program(&[0xCB, 0x7F, 0xCB, 0x40, 0xCB, 0x69, 0xCB, 0x7E]);
    let mut cpu = fresh_cpu();
    cpu.a = 0x80;
    cpu.b = 0xFE;
    cpu.c = 0x20;
    cpu.f = N | C;
    assert_eq!(cpu.step(&mut mmu), Ok(8));
    assert_eq!(cpu.f, H | C);
    assert_eq!(cpu.step(&mut mmu), Ok(8));
    assert_eq!(cpu.f, Z | H | C);
    assert_eq!(cpu.step(&mut mmu), Ok(8));
    assert_eq!(cpu.f, H | C);
    // Bit 7 of the byte at HL: the accumulator stays.
    cpu.set_hl(0xC000);
    mmu.write_byte(0xC000, 0x7F);
    assert_eq!(cpu.step(&mut mmu), Ok(12));
    assert_eq!(cpu.f, Z | H | C);
    assert_eq!(cpu.a, 0x80);
}

#[test]
fn prefixed_bit_clear_and_set() {
    let mut mmu = bus_with_program(&[0xCB, 0x87, 0xCB, 0x86, 0xCB, 0x9E, 0xCB, 0xBE, 0xCB, 0xDE, 0xCB, 0xFE]);
    let mut cpu = fresh_cpu();
    cpu.a = 0xFF;
    cpu.f = Z | C;
    cpu.set_hl(0xC000);
    mmu.write_byte(0xC000, 0xFF);
    assert_eq!(cpu.step(&mut mmu), Ok(8));
    assert_eq!(cpu.a, 0xFE);
    assert_eq!(cpu.step(&mut mmu), Ok(16));
    assert_eq!(mmu.read_byte(0xC000), 0xFE);
    assert_eq!(cpu.step(&mut mmu), Ok(16));
    assert_eq!(mmu.read_byte(0xC000), 0xF6);
    assert_eq!(cpu.step(&mut mmu), Ok(16));
    assert_eq!(mmu.read_byte(0xC000), 0x76);
    assert_eq!(cpu.step(&mut mmu), Ok(16));
    assert_eq!(mmu.read_byte(0xC000), 0x7E);
    assert_eq!(cpu.step(&mut mmu), Ok(16));
    assert_eq!(mmu.read_byte(0xC000), 0xFE);
    assert_eq!(cpu.f, Z | C);
}

#[test]
fn places_are_read_and_written_by_name() {
    let mut mmu = bus_with_program(&[]);
    let mut cpu = fresh_cpu();
    cpu.set_hl(0xC321);
    cpu.store8(&mut mmu, Loc8::HlMem, 0x42);
    assert_eq!(mmu.read_byte(0xC321), 0x42);
    assert_eq!(cpu.load8(&mmu, Loc8::HlMem), 0x42);
    cpu.store8(&mut mmu, Loc8::E, 0x43);
    assert_eq!(cpu.e, 0x43);
    assert_eq!(cpu.load8(&mmu, Loc8::E), 0x43);
    assert_eq!(cpu.load8(&mmu, Loc8::H), 0xC3);
    assert_eq!(cpu.load8(&mmu, Loc8::L), 0x21);
}

#[test]
fn conditions_follow_the_flags() {
    let mut cpu = fresh_cpu();
    cpu.f = Z;
    assert!(cpu.test(Cond::Zero) && !cpu.test(Cond::NotZero));
    assert!(cpu.test(Cond::NoCarry) && !cpu.test(Cond::Carry));
    cpu.f = C;
    assert!(!cpu.test(Cond::Zero) && cpu.test(Cond::NotZero));
    assert!(!cpu.test(Cond::NoCarry) && cpu.test(Cond::Carry));
}

#[test]
fn accumulate_applies_each_operation() {
    let mut cpu = fresh_cpu();
    cpu.a = 0x10;
    cpu.accumulate(AluOp::Sub, 0x01);
    assert_eq!((cpu.a, cpu.f), (0x0F, N | H));
    cpu.f = C;
    cpu.accumulate(AluOp::Sbc, 0x0E);
    assert_eq!((cpu.a, cpu.f), (0x00, Z | N));
    cpu.accumulate(AluOp::Cp, 0x01);
    assert_eq!((cpu.a, cpu.f), (0x00, N | H | C));
    cpu.accumulate(AluOp::Adc, 0x01);
    assert_eq!((cpu.a, cpu.f), (0x02, 0));
}

#[test]
fn decoding_reads_the_bit_fields() {
    assert_eq!(decode(0x00, 0), Ok(Instr::Flow(Flow::Nop)));
    assert_eq!(decode(0x01, 0x1234), Ok(Instr::Load(Load::LdWord(Reg16::BC, 0x1234))));
    assert_eq!(decode(0x31, 0xFFFE), Ok(Instr::Load(Load::LdWord(Reg16::SP, 0xFFFE))));
    assert_eq!(decode(0x36, 0x0042), Ok(Instr::Load(Load::LdByte(Loc8::HlMem, 0x42))));
    assert_eq!(decode(0x7E, 0), Ok(Instr::Load(Load::Ld(Loc8::A, Loc8::HlMem))));
    assert_eq!(decode(0x70, 0), Ok(Instr::Load(Load::Ld(Loc8::HlMem, Loc8::B))));
    assert_eq!(decode(0x8E, 0), Ok(Instr::Arith(Arith::Alu(AluOp::Adc, Loc8::HlMem))));
    assert_eq!(decode(0xFE, 0x0099), Ok(Instr::Arith(Arith::AluByte(AluOp::Cp, 0x99))));
    assert_eq!(decode(0x20, 0x00FE), Ok(Instr::Flow(Flow::JrIf(Cond::NotZero, 0xFE))));
    assert_eq!(decode(0xD8, 0), Ok(Instr::Flow(Flow::RetIf(Cond::Carry))));
    assert_eq!(decode(0xF1, 0), Ok(Instr::Load(Load::Pop(Reg16::AF))));
    assert_eq!(decode(0xE5, 0), Ok(Instr::Load(Load::Push(Reg16::HL))));
    assert_eq!(decode(0xEF, 0), Ok(Instr::Flow(Flow::Rst(0x28))));
    assert_eq!(decode(0xFB, 0), Ok(Instr::Flow(Flow::Ei)));
    assert_eq!(decode(0xCB, 0x0037), Ok(Instr::Bits(Bits::Swap(Loc8::A))));
    assert_eq!(decode(0xCB, 0x007E), Ok(Instr::Bits(Bits::TestBit(7, Loc8::HlMem))));
    assert_eq!(decode(0xCB, 0x009E), Ok(Instr::Bits(Bits::ClearBit(3, Loc8::HlMem))));
    assert_eq!(decode(0xCB, 0x00FE), Ok(Instr::Bits(Bits::SetBit(7, Loc8::HlMem))));
    assert_eq!(decode(0xCB, 0x1240), Ok(Instr::Bits(Bits::TestBit(0, Loc8::B))));
}

#[test]
fn decoding_rejects_what_is_outside_the_supported_set() {
    assert_eq!(decode(0x76, 0), Err(Fault::Opcode(0x76)));
    assert_eq!(decode(0xD3, 0), Err(Fault::Opcode(0xD3)));
    assert_eq!(decode(0x41, 0), Err(Fault::Opcode(0x41)));
    assert_eq!(decode(0x98, 0), Err(Fault::Opcode(0x98)));
    assert_eq!(decode(0xCB, 0x0000), Err(Fault::Prefixed(0x00)));
    assert_eq!(decode(0xCB, 0x00FF), Err(Fault::Prefixed(0xFF)));
    let plain = (0..=255u8).filter(|op| *op != 0xCB && decode(*op, 0).is_ok()).count();
    assert_eq!(plain, 136);
    let prefixed = (0..=255u16).filter(|op| decode(0xCB, *op).is_ok()).count();
    assert_eq!(prefixed, 29);
}

#[test]
fn operand_lengths() {
    assert_eq!(operand_len(0x00), 0);
    assert_eq!(operand_len(0x06), 1);
    assert_eq!(operand_len(0x01), 2);
    assert_eq!(operand_len(0xCB), 1);
    assert_eq!(operand_len(0xCD), 2);
    assert_eq!(operand_len(0xE0), 1);
    assert_eq!(operand_len(0xFE), 1);
    assert_eq!(operand_len(0xD3), 0);
    let with_word = (0..=255u8).filter(|op| operand_len(*op) == 2).count();
    let with_byte = (0..=255u8).filter(|op| operand_len(*op) == 1).count();
    assert_eq!(with_word, 10);
    assert_eq!(with_byte, 22);
}

#[test]
fn stack_in_rom_does_not_round_trip() {
    let mut mmu = bus_with_program(&[]);
    let mut cpu = fresh_cpu();
    cpu.sp = 0x0102;
    cpu.push(&mut mmu, 0x1234);
    assert_eq!(cpu.sp, 0x0100);
    assert_eq!(cpu.pop(&mmu), 0x0000);
    assert_eq!(cpu.sp, 0x0102);
}

#[test]
fn fetch_decodes_and_moves_past_the_instruction() {
    let mmu = bus_with_program(&[0x21, 0x34, 0x12, 0xCB, 0x37, 0x3C, 0xD3, 0xCB, 0x01]);
    let mut cpu = fresh_cpu();
    assert_eq!(cpu.fetch(&mmu), Ok(Instr::Load(Load::LdWord(Reg16::HL, 0x1234))));
    assert_eq!(cpu.pc, 0x0103);
    assert_eq!(cpu.fetch(&mmu), Ok(Instr::Bits(Bits::Swap(Loc8::A))));
    assert_eq!(cpu.pc, 0x0105);
    assert_eq!(cpu.fetch(&mmu), Ok(Instr::Arith(Arith::Inc(Loc8::A))));
    assert_eq!(cpu.pc, 0x0106);
    assert_eq!(cpu.fetch(&mmu), Err(Fault::Opcode(0xD3)));
    assert_eq!(cpu.pc, 0x0107);
    assert_eq!(cpu.fetch(&mmu), Err(Fault::Prefixed(0x01)));
    assert_eq!(cpu.pc, 0x0109);
    assert_eq!(cpu.get_hl(), 0x014D);
}

#[test]
fn execute_runs_a_decoded_instruction() {
    let mut mmu = bus_with_program(&[]);
    let mut cpu = fresh_cpu();
    cpu.a = 0x3B;
    assert_eq!(cpu.execute(&mut mmu, Instr::Arith(Arith::AluByte(AluOp::Sub, 0x4F))), 8);
    assert_eq!((cpu.a, cpu.f), (0xEC, N | H | C));
    cpu.set_hl(0xC000);
    assert_eq!(cpu.execute(&mut mmu, Instr::Load(Load::Ld(Loc8::HlMem, Loc8::A))), 8);
    assert_eq!(mmu.read_byte(0xC000), 0xEC);
    assert_eq!(cpu.execute(&mut mmu, Instr::Bits(Bits::Srl(Loc8::HlMem))), 16);
    assert_eq!(mmu.read_byte(0xC000), 0x76);
    assert_eq!(cpu.f, 0);
    assert_eq!(cpu.execute(&mut mmu, Instr::Flow(Flow::Call(0x4000))), 24);
    assert_eq!((cpu.pc, cpu.sp), (0x4000, 0xCFFE));
    assert_eq!(cpu.execute(&mut mmu, Instr::Flow(Flow::Ret)), 16);
    assert_eq!((cpu.pc, cpu.sp), (0x0100, 0xD000));
    assert_eq!(cpu.execute(&mut mmu, Instr::Flow(Flow::Nop)), 4);
    assert_eq!(cpu.execute(&mut mmu, Instr::Flow(Flow::Ei)), 4);
    assert!(cpu.ei_pending && !cpu.ime);
}
