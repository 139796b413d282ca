//! Instruction-level scenarios: flag arithmetic, relative jumps, the
//! call/return round trip, stack round trips, and interrupt dispatch.

use rugameboy::cpu::{Cpu, InterruptState};
use rugameboy::instruction::Instruction;

fn rom(bytes: &[(usize, u8)]) -> Vec<u8> {
    let mut image = vec![0u8; 0x8000];
    for &(addr, value) in bytes {
        image[addr] = value;
    }
    image
}

#[test]
fn add_half_carry() {
    let mut cpu = Cpu::new(rom(&[(0x100, 0xc6), (0x101, 0x01)]));
    cpu.regs.a = 0x0f;
    cpu.regs.f.carry = false;
    cpu.step().unwrap();
    assert_eq!(cpu.regs.a, 0x10);
    assert!(!cpu.regs.f.zero);
    assert!(!cpu.regs.f.subtract);
    assert!(cpu.regs.f.half_carry);
    assert!(!cpu.regs.f.carry);
}

#[test]
fn sub_borrow() {
    let mut cpu = Cpu::new(rom(&[(0x100, 0xd6), (0x101, 0x01)]));
    cpu.regs.a = 0x10;
    cpu.step().unwrap();
    assert_eq!(cpu.regs.a, 0x0f);
    assert!(!cpu.regs.f.zero);
    assert!(cpu.regs.f.subtract);
    assert!(cpu.regs.f.half_carry);
    assert!(!cpu.regs.f.carry);
}

#[test]
fn cp_equal() {
    let mut cpu = Cpu::new(rom(&[(0x100, 0xfe), (0x101, 0x42)]));
    cpu.regs.a = 0x42;
    cpu.step().unwrap();
    assert_eq!(cpu.regs.a, 0x42);
    assert!(cpu.regs.f.zero);
    assert!(cpu.regs.f.subtract);
    assert!(!cpu.regs.f.half_carry);
    assert!(!cpu.regs.f.carry);
}

#[test]
fn jr_forward() {
    let mut cpu = Cpu::new(rom(&[(0x200, 0x18), (0x201, 0x05)]));
    cpu.pc = 0x200;
    cpu.step().unwrap();
    assert_eq!(cpu.pc, 0x207);
}

#[test]
fn call_ret_round_trip() {
    let mut cpu = Cpu::new(rom(&[(0x100, 0xcd), (0x101, 0x34), (0x102, 0x12), (0x1234, 0xc9)]));
    cpu.sp = 0xfffe;
    cpu.step().unwrap();
    assert_eq!(cpu.pc, 0x1234);
    assert_eq!(cpu.sp, 0xfffc);
    cpu.step().unwrap();
    assert_eq!(cpu.pc, 0x0103);
    assert_eq!(cpu.sp, 0xfffe);
}

#[test]
fn vblank_dispatch() {
    // A taken jump lands on 0x0300; the service then pushes 0x0300, clears
    // the request, closes the master state and enters the vector.
    let mut cpu = Cpu::new(rom(&[(0x200, 0xc3), (0x201, 0x00), (0x202, 0x03)]));
    cpu.pc = 0x200;
    cpu.sp = 0xfffe;
    cpu.interrupt_state = InterruptState::IEnable;
    cpu.bus.store8(0xffff, 0x01).unwrap();
    cpu.bus.store8(0xff0f, 0x01).unwrap();
    cpu.step().unwrap();
    assert_eq!(cpu.pc, 0x0040);
    assert_eq!(cpu.sp, 0xfffc);
    assert_eq!(cpu.bus.load8(0xfffd).unwrap(), 0x00);
    assert_eq!(cpu.bus.load8(0xfffe).unwrap(), 0x03);
    assert!(matches!(cpu.interrupt_state, InterruptState::IDisable));
    assert_eq!(cpu.bus.load8(0xff0f).unwrap() & 0x01, 0);
}

#[test]
fn length_advance_non_branching() {
    // LD B,d8 occupies two bytes, ADD A,B one; PC advances by exactly the
    // instruction length.
    let mut cpu = Cpu::new(rom(&[(0x100, 0x06), (0x101, 0x77), (0x102, 0x80)]));
    cpu.step().unwrap();
    assert_eq!(cpu.pc, 0x102);
    assert_eq!(cpu.regs.b, 0x77);
    cpu.step().unwrap();
    assert_eq!(cpu.pc, 0x103);
    assert_eq!(cpu.regs.a, 0x77);
}

#[test]
fn and_twice_keeps_a() {
    let mut cpu = Cpu::new(rom(&[(0x100, 0xa0), (0x101, 0xa0)]));
    cpu.regs.a = 0xf3;
    cpu.regs.b = 0x0f;
    cpu.step().unwrap();
    assert_eq!(cpu.regs.a, 0x03);
    cpu.step().unwrap();
    assert_eq!(cpu.regs.a, 0x03);
    assert!(cpu.regs.f.half_carry);
    assert!(!cpu.regs.f.carry);
}

#[test]
fn xor_a_zeroes() {
    let mut cpu = Cpu::new(rom(&[(0x100, 0xaf)]));
    cpu.regs.a = 0x5a;
    cpu.step().unwrap();
    assert_eq!(cpu.regs.a, 0);
    assert!(cpu.regs.f.zero);
}

#[test]
fn push_pop_bc_round_trip() {
    let mut cpu = Cpu::new(rom(&[(0x100, 0xc5), (0x101, 0xc1)]));
    cpu.sp = 0xd000;
    cpu.regs.b = 0xab;
    cpu.regs.c = 0xcd;
    cpu.step().unwrap();
    assert_eq!(cpu.sp, 0xcffe);
    cpu.regs.b = 0;
    cpu.regs.c = 0;
    cpu.step().unwrap();
    assert_eq!(cpu.sp, 0xd000);
    assert_eq!(cpu.regs.b, 0xab);
    assert_eq!(cpu.regs.c, 0xcd);
}

#[test]
fn push_pop_af_masks_low_nibble() {
    let mut cpu = Cpu::new(rom(&[(0x100, 0xf5), (0x101, 0xf1)]));
    cpu.sp = 0xd000;
    cpu.regs.a = 0x12;
    cpu.regs.f.zero = true;
    cpu.regs.f.carry = true;
    cpu.step().unwrap();
    cpu.regs.a = 0;
    cpu.regs.f.zero = false;
    cpu.regs.f.carry = false;
    cpu.step().unwrap();
    assert_eq!(cpu.regs.a, 0x12);
    assert!(cpu.regs.f.zero);
    assert!(!cpu.regs.f.subtract);
    assert!(!cpu.regs.f.half_carry);
    assert!(cpu.regs.f.carry);
}

#[test]
fn hl_post_inc_then_dec() {
    let mut cpu = Cpu::new(rom(&[(0x100, 0x2a), (0x101, 0x3a)]));
    cpu.regs.set_hl(0xc000);
    cpu.step().unwrap();
    assert_eq!(cpu.regs.get_hl(), 0xc001);
    cpu.step().unwrap();
    assert_eq!(cpu.regs.get_hl(), 0xc000);
}

#[test]
fn ei_then_di_leaves_interrupts_disabled() {
    let mut cpu = Cpu::new(rom(&[(0x100, 0xfb), (0x101, 0xf3)]));
    cpu.step().unwrap();
    assert!(matches!(cpu.interrupt_state, InterruptState::IEnable));
    cpu.step().unwrap();
    assert!(matches!(cpu.interrupt_state, InterruptState::IDisable));
}

#[test]
fn undecodable_byte_fails_step() {
    let mut cpu = Cpu::new(rom(&[(0x100, 0xd3)]));
    assert!(cpu.step().is_err());
}

#[test]
fn decoder_covers_published_bytes_only() {
    assert!(Instruction::from_byte(0xd3).is_none());
    assert!(Instruction::from_byte(0xdb).is_none());
    assert!(Instruction::from_byte(0xe3).is_none());
    assert!(Instruction::from_byte(0xfd).is_none());
    assert!(Instruction::from_byte(0x00).is_some());
    assert!(Instruction::from_byte(0x0f).is_some());
    assert!(Instruction::from_byte(0x10).is_some());
    assert!(Instruction::from_byte(0x17).is_some());
    assert!(Instruction::from_byte(0x37).is_some());
    assert!(Instruction::from_byte(0x76).is_some());
    assert!(Instruction::from_byte(0xe8).is_some());
    assert!(Instruction::from_byte(0xf8).is_some());
    assert!(Instruction::from_byte(0xff).is_some());
}

#[test]
fn rrca_and_rla_rotate_through_a() {
    // RRCA: 0x81 rotates to 0xC0 with C set.
    let mut cpu = Cpu::new(rom(&[(0x100, 0x0f), (0x101, 0x17)]));
    cpu.regs.a = 0x81;
    cpu.step().unwrap();
    assert_eq!(cpu.regs.a, 0xc0);
    assert!(cpu.regs.f.carry);
    assert!(!cpu.regs.f.zero);
    // RLA shifts the carry back in at bit 0: 0xC0 -> 0x81, C set again.
    cpu.step().unwrap();
    assert_eq!(cpu.regs.a, 0x81);
    assert!(cpu.regs.f.carry);
}

#[test]
fn scf_sets_only_carry() {
    let mut cpu = Cpu::new(rom(&[(0x100, 0x37)]));
    cpu.regs.f.subtract = true;
    cpu.regs.f.half_carry = true;
    cpu.regs.f.zero = true;
    cpu.step().unwrap();
    assert!(cpu.regs.f.carry);
    assert!(!cpu.regs.f.subtract);
    assert!(!cpu.regs.f.half_carry);
    assert!(cpu.regs.f.zero);
}

#[test]
fn halt_and_stop_advance_like_nop() {
    let mut cpu = Cpu::new(rom(&[(0x100, 0x76), (0x101, 0x10)]));
    cpu.step().unwrap();
    assert_eq!(cpu.pc, 0x101);
    cpu.step().unwrap();
    assert_eq!(cpu.pc, 0x102);
}

#[test]
fn add_sp_signed_offset() {
    // ADD SP,+8 from 0xFFF8 wraps to 0x0000 with H and C from the
    // unsigned low-byte add.
    let mut cpu = Cpu::new(rom(&[(0x100, 0xe8), (0x101, 0x08)]));
    cpu.sp = 0xfff8;
    cpu.step().unwrap();
    assert_eq!(cpu.sp, 0x0000);
    assert!(cpu.regs.f.half_carry);
    assert!(cpu.regs.f.carry);
    assert!(!cpu.regs.f.zero);
    assert_eq!(cpu.pc, 0x102);
}

#[test]
fn ld_hl_sp_negative_offset() {
    // LD HL,SP-2 leaves SP alone and lands HL two below it.
    let mut cpu = Cpu::new(rom(&[(0x100, 0xf8), (0x101, 0xfe)]));
    cpu.sp = 0xd000;
    cpu.step().unwrap();
    assert_eq!(cpu.sp, 0xd000);
    assert_eq!(cpu.regs.get_hl(), 0xcffe);
    assert!(!cpu.regs.f.zero);
    assert!(!cpu.regs.f.subtract);
}

#[test]
fn instruction_length_table() {
    assert_eq!(Instruction::from_byte(0x00).unwrap().len(), 1);
    assert_eq!(Instruction::from_byte(0x06).unwrap().len(), 2);
    assert_eq!(Instruction::from_byte(0xc3).unwrap().len(), 3);
    assert_eq!(Instruction::from_byte(0xc6).unwrap().len(), 2);
    assert_eq!(Instruction::from_byte(0x80).unwrap().len(), 1);
    assert_eq!(Instruction::from_byte(0xc7).unwrap().len(), 1);
}

#[test]
fn instruction_clock_table() {
    assert_eq!(Instruction::from_byte(0x00).unwrap().clock(), 4);
    assert_eq!(Instruction::from_byte(0xc3).unwrap().clock(), 12);
    assert_eq!(Instruction::from_byte(0x86).unwrap().clock(), 8);
    assert_eq!(Instruction::from_byte(0x80).unwrap().clock(), 4);
    assert_eq!(Instruction::from_byte(0xc5).unwrap().clock(), 16);
    assert_eq!(Instruction::from_byte(0x08).unwrap().clock(), 20);
}

#[test]
fn cb_rotate_left() {
    // RLC B: 0xCB 0x00.
    let mut cpu = Cpu::new(rom(&[(0x100, 0xcb), (0x101, 0x00)]));
    cpu.regs.b = 0x81;
    cpu.step().unwrap();
    assert_eq!(cpu.regs.b, 0x03);
    assert!(cpu.regs.f.carry);
    assert_eq!(cpu.pc, 0x102);
}

#[test]
fn cb_set_and_res_bit() {
    // SET 7,C then RES 0,C.
    let mut cpu = Cpu::new(rom(&[(0x100, 0xcb), (0x101, 0xf9), (0x102, 0xcb), (0x103, 0x81)]));
    cpu.regs.c = 0x01;
    cpu.step().unwrap();
    assert_eq!(cpu.regs.c, 0x81);
    cpu.step().unwrap();
    assert_eq!(cpu.regs.c, 0x80);
}

#[test]
fn dump_names_the_registers() {
    let cpu = Cpu::new(vec![]);
    let text = cpu.dump();
    assert!(text.contains("PC:0100"));
    assert!(text.contains("SP:0000"));
}
