//! The CPU: fetch, decode and execute over the bus, condition evaluation,
//! the interrupt-state machine with its one-instruction deferral of EI and
//! DI, and interrupt dispatch.
//!
//! During execution PC points at the first operand byte: `step` consumes
//! the opcode byte, the executor reads operands at PC, and afterwards PC
//! advances by the instruction length minus one, so a non-branching
//! instruction advances PC by exactly its length in total.

use vstd::prelude::*;

use crate::bus::{Bus, BusV, bus_wf, bus_load_s, bus_store_s, bus_load16_s, bus_store16_s};
use crate::gpu::{GpuV, gpu_wf, gpu_update_s};
use crate::instruction::{CBInstruction, Condition, Instruction, spec_branches, spec_clock,
    spec_decode, spec_decode_cb, spec_len};
use crate::register::{FlagRegister, Register, flags_value, flags_of_byte, high_byte, low_byte,
    word};
use crate::timer::{Timer, timer_wf, timer_update_s};

verus! {

/// The interrupt-master state. The `...Next` states model the
/// one-instruction delay of EI and DI: the written state takes effect only
/// after the following instruction has completed.
#[derive(Debug, Clone, Copy, PartialEq, Eq, Structural)]
pub enum InterruptState {
    IDisable,
    IEnable,
    IDisableNext,
    IEnableNext,
}

/// The mathematical value of the CPU: registers, stack pointer, program
/// counter, interrupt state, and the whole bus.
#[verifier::ext_equal]
pub struct CpuV {
    pub regs: Register,
    pub sp: u16,
    pub pc: u16,
    pub bus: BusV,
    pub interrupt_state: InterruptState,
}

/// The CPU and everything it owns.
pub struct Cpu {
    pub regs: Register,
    pub sp: u16,
    pub pc: u16,
    pub bus: Bus,
    pub interrupt_state: InterruptState,
}

impl View for Cpu {
    type V = CpuV;

    open spec fn view(&self) -> CpuV {
        CpuV {
            regs: self.regs,
            sp: self.sp,
            pc: self.pc,
            bus: self.bus@,
            interrupt_state: self.interrupt_state,
        }
    }
}

/// A CPU is well formed when its bus is.
pub open spec fn cpu_wf(c: CpuV) -> bool {
    bus_wf(c.bus)
}

/// The HL pair of a register file.
pub open spec fn hl_of(r: Register) -> u16 {
    word(r.h, r.l)
}

/// A register file with HL replaced.
pub open spec fn with_hl(r: Register, value: u16) -> Register {
    Register { h: high_byte(value), l: low_byte(value), ..r }
}

/// How a condition reads the flags: NZ, Z, NC, C, or always.
pub open spec fn cond_s(c: CpuV, cond: Condition) -> bool {
    match cond {
        Condition::NotZero => !c.regs.f.zero,
        Condition::Zero => c.regs.f.zero,
        Condition::NotCarry => !c.regs.f.carry,
        Condition::Carry => c.regs.f.carry,
        Condition::Always => true,
    }
}

/// The value an 8-bit operand target denotes: a register, the byte at
/// (HL), or the immediate byte at PC.
pub open spec fn get_r8_s(c: CpuV, t: crate::instruction::Target) -> Result<u8, ()> {
    match t {
        crate::instruction::Target::A => Ok(c.regs.a),
        crate::instruction::Target::B => Ok(c.regs.b),
        crate::instruction::Target::C => Ok(c.regs.c),
        crate::instruction::Target::D => Ok(c.regs.d),
        crate::instruction::Target::E => Ok(c.regs.e),
        crate::instruction::Target::H => Ok(c.regs.h),
        crate::instruction::Target::L => Ok(c.regs.l),
        crate::instruction::Target::HL => bus_load_s(c.bus, hl_of(c.regs)),
        crate::instruction::Target::D8 => bus_load_s(c.bus, c.pc),
        _ => Err(()),
    }
}

/// The CPU after writing `v` to an 8-bit operand target: a register, or
/// the byte at (HL).
pub open spec fn set_r8_s(c: CpuV, t: crate::instruction::Target, v: u8) -> Result<CpuV, ()> {
    match t {
        crate::instruction::Target::A => Ok(CpuV { regs: Register { a: v, ..c.regs }, ..c }),
        crate::instruction::Target::B => Ok(CpuV { regs: Register { b: v, ..c.regs }, ..c }),
        crate::instruction::Target::C => Ok(CpuV { regs: Register { c: v, ..c.regs }, ..c }),
        crate::instruction::Target::D => Ok(CpuV { regs: Register { d: v, ..c.regs }, ..c }),
        crate::instruction::Target::E => Ok(CpuV { regs: Register { e: v, ..c.regs }, ..c }),
        crate::instruction::Target::H => Ok(CpuV { regs: Register { h: v, ..c.regs }, ..c }),
        crate::instruction::Target::L => Ok(CpuV { regs: Register { l: v, ..c.regs }, ..c }),
        crate::instruction::Target::HL => match bus_store_s(c.bus, hl_of(c.regs), v) {
            Ok(b) => Ok(CpuV { bus: b, ..c }),
            Err(()) => Err(()),
        },
        _ => Err(()),
    }
}

/// The CPU after a 16-bit push: SP drops by two and the word sits at the
/// two bytes just below the old SP (low byte first).
pub open spec fn push_s(c: CpuV, value: u16) -> Result<CpuV, ()> {
    match bus_store16_s(c.bus, c.sp.wrapping_sub(1), value) {
        Ok(b) => Ok(CpuV { bus: b, sp: c.sp.wrapping_sub(2), ..c }),
        Err(()) => Err(()),
    }
}

/// The non-branch part of an instruction's effect on PC and cycles: PC
/// advances by the instruction length minus the already-consumed opcode
/// byte, and the base cycle cost is charged.
pub open spec fn finish_s(c: CpuV, inst: Instruction) -> (CpuV, u64) {
    (
        CpuV { pc: c.pc.wrapping_add((spec_len(inst) - 1) as u16), ..c },
        spec_clock(inst) as u64,
    )
}

/// The effect of the load-group and arithmetic-group instructions (all
/// non-branching ones) on registers, flags, memory and SP; PC and cycles
/// are applied afterwards by `finish_s`.
pub open spec fn op_s(c: CpuV, inst: Instruction) -> Result<CpuV, ()> {
    let a = c.regs.a;
    let f = c.regs.f;
    match inst {
        Instruction::NOP => Ok(c),
        Instruction::DI => Ok(CpuV { interrupt_state: InterruptState::IDisableNext, ..c }),
        Instruction::EI => Ok(CpuV { interrupt_state: InterruptState::IEnableNext, ..c }),
        Instruction::LDIMM16(t) => match bus_load16_s(c.bus, c.pc) {
            Err(()) => Err(()),
            Ok(imm) => match t {
                crate::instruction::Target::BC => Ok(
                    CpuV {
                        regs: Register { b: high_byte(imm), c: low_byte(imm), ..c.regs },
                        ..c
                    },
                ),
                crate::instruction::Target::DE => Ok(
                    CpuV {
                        regs: Register { d: high_byte(imm), e: low_byte(imm), ..c.regs },
                        ..c
                    },
                ),
                crate::instruction::Target::HL => Ok(CpuV { regs: with_hl(c.regs, imm), ..c }),
                crate::instruction::Target::SP => Ok(CpuV { sp: imm, ..c }),
                _ => Err(()),
            },
        },
        Instruction::LDIMM8(t) => match bus_load_s(c.bus, c.pc) {
            Err(()) => Err(()),
            Ok(imm) => set_r8_s(c, t, imm),
        },
        Instruction::LD16A => match bus_load16_s(c.bus, c.pc) {
            Err(()) => Err(()),
            Ok(addr) => match bus_store_s(c.bus, addr, a) {
                Ok(b) => Ok(CpuV { bus: b, ..c }),
                Err(()) => Err(()),
            },
        },
        Instruction::LDA16 => match bus_load16_s(c.bus, c.pc) {
            Err(()) => Err(()),
            Ok(addr) => match bus_load_s(c.bus, addr) {
                Ok(v) => Ok(CpuV { regs: Register { a: v, ..c.regs }, ..c }),
                Err(()) => Err(()),
            },
        },
        Instruction::LDA16SP => match bus_load16_s(c.bus, c.pc) {
            Err(()) => Err(()),
            Ok(addr) => match bus_store16_s(c.bus, addr, c.sp) {
                Ok(b) => Ok(CpuV { bus: b, ..c }),
                Err(()) => Err(()),
            },
        },
        Instruction::LDSPHL => Ok(CpuV { sp: hl_of(c.regs), ..c }),
        Instruction::LD8A => match bus_load_s(c.bus, c.pc) {
            Err(()) => Err(()),
            Ok(a8) => match bus_store_s(c.bus, (0xff00 + a8) as u16, a) {
                Ok(b) => Ok(CpuV { bus: b, ..c }),
                Err(()) => Err(()),
            },
        },
        Instruction::LDA8 => match bus_load_s(c.bus, c.pc) {
            Err(()) => Err(()),
            Ok(a8) => match bus_load_s(c.bus, (0xff00 + a8) as u16) {
                Ok(v) => Ok(CpuV { regs: Register { a: v, ..c.regs }, ..c }),
                Err(()) => Err(()),
            },
        },
        Instruction::LDCA => match bus_store_s(c.bus, (0xff00 + c.regs.c) as u16, a) {
            Ok(b) => Ok(CpuV { bus: b, ..c }),
            Err(()) => Err(()),
        },
        Instruction::LDAC => match bus_load_s(c.bus, (0xff00 + c.regs.c) as u16) {
            Ok(v) => Ok(CpuV { regs: Register { a: v, ..c.regs }, ..c }),
            Err(()) => Err(()),
        },
        Instruction::LDRR(s, t) => ldrr_s(c, s, t),
        Instruction::PUSH(t) => match t {
            crate::instruction::Target::BC => push_s(c, word(c.regs.b, c.regs.c)),
            crate::instruction::Target::DE => push_s(c, word(c.regs.d, c.regs.e)),
            crate::instruction::Target::HL => push_s(c, hl_of(c.regs)),
            crate::instruction::Target::AF => push_s(c, word(a, flags_value(f))),
            _ => Err(()),
        },
        Instruction::POP(t) => match bus_load16_s(c.bus, c.sp.wrapping_add(1)) {
            Err(()) => Err(()),
            Ok(v) => {
                let c2 = CpuV { sp: c.sp.wrapping_add(2), ..c };
                match t {
                    crate::instruction::Target::BC => Ok(
                        CpuV {
                            regs: Register { b: high_byte(v), c: low_byte(v), ..c.regs },
                            ..c2
                        },
                    ),
                    crate::instruction::Target::DE => Ok(
                        CpuV {
                            regs: Register { d: high_byte(v), e: low_byte(v), ..c.regs },
                            ..c2
                        },
                    ),
                    crate::instruction::Target::HL => Ok(
                        CpuV { regs: with_hl(c.regs, v), ..c2 },
                    ),
                    crate::instruction::Target::AF => Ok(
                        CpuV {
                            regs: Register {
                                a: high_byte(v),
                                f: flags_of_byte(low_byte(v)),
                                ..c.regs
                            },
                            ..c2
                        },
                    ),
                    _ => Err(()),
                }
            },
        },
        Instruction::INC16(t) => match t {
            crate::instruction::Target::BC => Ok(
                CpuV {
                    regs: {
                        let v = word(c.regs.b, c.regs.c).wrapping_add(1);
                        Register { b: high_byte(v), c: low_byte(v), ..c.regs }
                    },
                    ..c
                },
            ),
            crate::instruction::Target::DE => Ok(
                CpuV {
                    regs: {
                        let v = word(c.regs.d, c.regs.e).wrapping_add(1);
                        Register { d: high_byte(v), e: low_byte(v), ..c.regs }
                    },
                    ..c
                },
            ),
            crate::instruction::Target::HL => Ok(
                CpuV { regs: with_hl(c.regs, hl_of(c.regs).wrapping_add(1)), ..c },
            ),
            crate::instruction::Target::SP => Ok(CpuV { sp: c.sp.wrapping_add(1), ..c }),
            _ => Err(()),
        },
        Instruction::DEC16(t) => match t {
            crate::instruction::Target::BC => Ok(
                CpuV {
                    regs: {
                        let v = word(c.regs.b, c.regs.c).wrapping_sub(1);
                        Register { b: high_byte(v), c: low_byte(v), ..c.regs }
                    },
                    ..c
                },
            ),
            crate::instruction::Target::DE => Ok(
                CpuV {
                    regs: {
                        let v = word(c.regs.d, c.regs.e).wrapping_sub(1);
                        Register { d: high_byte(v), e: low_byte(v), ..c.regs }
                    },
                    ..c
                },
            ),
            crate::instruction::Target::HL => Ok(
                CpuV { regs: with_hl(c.regs, hl_of(c.regs).wrapping_sub(1)), ..c },
            ),
            crate::instruction::Target::SP => Ok(CpuV { sp: c.sp.wrapping_sub(1), ..c }),
            _ => Err(()),
        },
        Instruction::INC8(t) => match get_r8_s(c, t) {
            Err(()) => Err(()),
            Ok(v) => {
                let v2 = v.wrapping_add(1);
                let c2 = CpuV {
                    regs: Register {
                        f: FlagRegister {
                            zero: v2 == 0,
                            subtract: false,
                            half_carry: v & 0x0f == 0x0f,
                            carry: f.carry,
                        },
                        ..c.regs
                    },
                    ..c
                };
                set_r8_s(c2, t, v2)
            },
        },
        Instruction::DEC8(t) => match get_r8_s(c, t) {
            Err(()) => Err(()),
            Ok(v) => {
                let v2 = v.wrapping_sub(1);
                let c2 = CpuV {
                    regs: Register {
                        f: FlagRegister {
                            zero: v2 == 0,
                            subtract: true,
                            half_carry: v & 0x0f == 0,
                            carry: f.carry,
                        },
                        ..c.regs
                    },
                    ..c
                };
                set_r8_s(c2, t, v2)
            },
        },
        Instruction::ADD(t) => match get_r8_s(c, t) {
            Err(()) => Err(()),
            Ok(v) => {
                let r = a.wrapping_add(v);
                Ok(
                    CpuV {
                        regs: Register {
                            a: r,
                            f: FlagRegister {
                                zero: r == 0,
                                subtract: false,
                                half_carry: (a & 0x0f) + (v & 0x0f) > 0x0f,
                                carry: a + v > 0xff,
                            },
                            ..c.regs
                        },
                        ..c
                    },
                )
            },
        },
        Instruction::ADC(t) => match get_r8_s(c, t) {
            Err(()) => Err(()),
            Ok(v) => {
                let cin: u8 = if f.carry {
                    1
                } else {
                    0
                };
                let r = a.wrapping_add(v).wrapping_add(cin);
                Ok(
                    CpuV {
                        regs: Register {
                            a: r,
                            f: FlagRegister {
                                zero: r == 0,
                                subtract: false,
                                half_carry: (a & 0x0f) + (v & 0x0f) + cin > 0x0f,
                                carry: a + v + cin > 0xff,
                            },
                            ..c.regs
                        },
                        ..c
                    },
                )
            },
        },
        Instruction::SUB(t) => match get_r8_s(c, t) {
            Err(()) => Err(()),
            Ok(v) => {
                let r = a.wrapping_sub(v);
                Ok(
                    CpuV {
                        regs: Register {
                            a: r,
                            f: FlagRegister {
                                zero: r == 0,
                                subtract: true,
                                half_carry: (a & 0x0f) < (v & 0x0f),
                                carry: a < v,
                            },
                            ..c.regs
                        },
                        ..c
                    },
                )
            },
        },
        Instruction::SBC(t) => match get_r8_s(c, t) {
            Err(()) => Err(()),
            Ok(v) => {
                let cin: u8 = if f.carry {
                    1
                } else {
                    0
                };
                let r = a.wrapping_sub(v).wrapping_sub(cin);
                Ok(
                    CpuV {
                        regs: Register {
                            a: r,
                            f: FlagRegister {
                                zero: r == 0,
                                subtract: true,
                                half_carry: (a & 0x0f) < (v & 0x0f) + cin,
                                carry: a < v + cin,
                            },
                            ..c.regs
                        },
                        ..c
                    },
                )
            },
        },
        Instruction::AND(t) => match get_r8_s(c, t) {
            Err(()) => Err(()),
            Ok(v) => {
                let r = a & v;
                Ok(
                    CpuV {
                        regs: Register {
                            a: r,
                            f: FlagRegister {
                                zero: r == 0,
                                subtract: false,
                                half_carry: true,
                                carry: false,
                            },
                            ..c.regs
                        },
                        ..c
                    },
                )
            },
        },
        Instruction::XOR(t) => match get_r8_s(c, t) {
            Err(()) => Err(()),
            Ok(v) => {
                let r = a ^ v;
                Ok(
                    CpuV {
                        regs: Register {
                            a: r,
                            f: FlagRegister {
                                zero: r == 0,
                                subtract: false,
                                half_carry: false,
                                carry: false,
                            },
                            ..c.regs
                        },
                        ..c
                    },
                )
            },
        },
        Instruction::OR(t) => match get_r8_s(c, t) {
            Err(()) => Err(()),
            Ok(v) => {
                let r = a | v;
                Ok(
                    CpuV {
                        regs: Register {
                            a: r,
                            f: FlagRegister {
                                zero: r == 0,
                                subtract: false,
                                half_carry: false,
                                carry: false,
                            },
                            ..c.regs
                        },
                        ..c
                    },
                )
            },
        },
        Instruction::CMP(t) => match get_r8_s(c, t) {
            Err(()) => Err(()),
            Ok(v) => Ok(
                CpuV {
                    regs: Register {
                        f: FlagRegister {
                            zero: a == v,
                            subtract: true,
                            half_carry: (a & 0x0f) < (v & 0x0f),
                            carry: a < v,
                        },
                        ..c.regs
                    },
                    ..c
                },
            ),
        },
        Instruction::CPL => Ok(
            CpuV {
                regs: Register {
                    a: !a,
                    f: FlagRegister { subtract: true, half_carry: true, ..f },
                    ..c.regs
                },
                ..c
            },
        ),
        Instruction::CCF => Ok(
            CpuV {
                regs: Register {
                    f: FlagRegister { subtract: false, half_carry: false, carry: !f.carry, ..f },
                    ..c.regs
                },
                ..c
            },
        ),
        Instruction::ADDHL(t) => {
            let hl = hl_of(c.regs);
            match (match t {
                crate::instruction::Target::BC => Ok(word(c.regs.b, c.regs.c)),
                crate::instruction::Target::DE => Ok(word(c.regs.d, c.regs.e)),
                crate::instruction::Target::HL => Ok(hl),
                crate::instruction::Target::SP => Ok(c.sp),
                _ => Err(()),
            }) {
                Err(()) => Err(()),
                Ok(v) => Ok(
                    CpuV {
                        regs: Register {
                            f: FlagRegister {
                                subtract: false,
                                half_carry: (hl % 0x1000) + (v % 0x1000) > 0xfff,
                                carry: hl + v > 0xffff,
                                ..f
                            },
                            ..with_hl(c.regs, hl.wrapping_add(v))
                        },
                        ..c
                    },
                ),
            }
        },
        Instruction::RRA => {
            let r = ((a >> 1u8) | ((if f.carry {
                1u8
            } else {
                0u8
            }) << 7u8)) as u8;
            Ok(
                CpuV {
                    regs: Register {
                        a: r,
                        f: FlagRegister {
                            zero: false,
                            subtract: false,
                            half_carry: false,
                            carry: a & 0x01 != 0,
                        },
                        ..c.regs
                    },
                    ..c
                },
            )
        },
        Instruction::RLCA => {
            let r = ((a << 1u8) | (a >> 7u8)) as u8;
            Ok(
                CpuV {
                    regs: Register {
                        a: r,
                        f: FlagRegister {
                            zero: false,
                            subtract: false,
                            half_carry: false,
                            carry: a & 0x80 != 0,
                        },
                        ..c.regs
                    },
                    ..c
                },
            )
        },
        Instruction::DAA => Ok(CpuV { regs: daa_s(c.regs), ..c }),
        Instruction::RRCA => {
            let r = ((a >> 1u8) | (a << 7u8)) as u8;
            Ok(
                CpuV {
                    regs: Register {
                        a: r,
                        f: FlagRegister {
                            zero: false,
                            subtract: false,
                            half_carry: false,
                            carry: a & 0x01 != 0,
                        },
                        ..c.regs
                    },
                    ..c
                },
            )
        },
        Instruction::RLA => {
            let r = ((a << 1u8) | (if f.carry {
                1u8
            } else {
                0u8
            })) as u8;
            Ok(
                CpuV {
                    regs: Register {
                        a: r,
                        f: FlagRegister {
                            zero: false,
                            subtract: false,
                            half_carry: false,
                            carry: a & 0x80 != 0,
                        },
                        ..c.regs
                    },
                    ..c
                },
            )
        },
        Instruction::SCF => Ok(
            CpuV {
                regs: Register {
                    f: FlagRegister { subtract: false, half_carry: false, carry: true, ..f },
                    ..c.regs
                },
                ..c
            },
        ),
        Instruction::HALT => Ok(c),
        Instruction::STOP => Ok(c),
        Instruction::ADDSP => match bus_load_s(c.bus, c.pc) {
            Err(()) => Err(()),
            Ok(off) => Ok(
                CpuV {
                    sp: c.sp.wrapping_add_signed(off as i8 as i16),
                    regs: Register {
                        f: FlagRegister {
                            zero: false,
                            subtract: false,
                            half_carry: (c.sp & 0x0f) + (off & 0x0f) > 0x0f,
                            carry: (c.sp & 0xff) + off > 0xff,
                        },
                        ..c.regs
                    },
                    ..c
                },
            ),
        },
        Instruction::LDHLSP => match bus_load_s(c.bus, c.pc) {
            Err(()) => Err(()),
            Ok(off) => Ok(
                CpuV {
                    regs: Register {
                        f: FlagRegister {
                            zero: false,
                            subtract: false,
                            half_carry: (c.sp & 0x0f) + (off & 0x0f) > 0x0f,
                            carry: (c.sp & 0xff) + off > 0xff,
                        },
                        ..with_hl(c.regs, c.sp.wrapping_add_signed(off as i8 as i16))
                    },
                    ..c
                },
            ),
        },
        _ => Err(()),
    }
}

/// The decimal-adjust step after BCD arithmetic: after an addition (N
/// clear) each nibble that overflowed its decimal range is corrected
/// upward and C reports a corrected high nibble; after a subtraction (N
/// set) the corrections recorded in H and C are undone downward. Z tracks
/// the result, H is cleared, N is preserved.
pub open spec fn daa_s(regs: Register) -> Register {
    let a = regs.a;
    let f = regs.f;
    if !f.subtract {
        let carry = f.carry || a > 0x99;
        let a1 = if carry {
            a.wrapping_add(0x60)
        } else {
            a
        };
        let a2 = if f.half_carry || (a & 0x0f) > 0x09 {
            a1.wrapping_add(0x06)
        } else {
            a1
        };
        Register {
            a: a2,
            f: FlagRegister { zero: a2 == 0, half_carry: false, carry, ..f },
            ..regs
        }
    } else {
        let a1 = if f.carry {
            a.wrapping_sub(0x60)
        } else {
            a
        };
        let a2 = if f.half_carry {
            a1.wrapping_sub(0x06)
        } else {
            a1
        };
        Register {
            a: a2,
            f: FlagRegister { zero: a2 == 0, half_carry: false, ..f },
            ..regs
        }
    }
}

/// The effect of a register-to-register or memory-addressed load: the
/// pair-addressed forms move A, with (HL+) and (HL-) post-adjusting HL;
/// every other pairing moves through the 8-bit operand targets.
pub open spec fn ldrr_s(
    c: CpuV,
    s: crate::instruction::Target,
    t: crate::instruction::Target,
) -> Result<CpuV, ()> {
    let a = c.regs.a;
    let hl = hl_of(c.regs);
    match (s, t) {
        (crate::instruction::Target::A, crate::instruction::Target::BC) => {
            match bus_store_s(c.bus, word(c.regs.b, c.regs.c), a) {
                Ok(b) => Ok(CpuV { bus: b, ..c }),
                Err(()) => Err(()),
            }
        },
        (crate::instruction::Target::A, crate::instruction::Target::DE) => {
            match bus_store_s(c.bus, word(c.regs.d, c.regs.e), a) {
                Ok(b) => Ok(CpuV { bus: b, ..c }),
                Err(()) => Err(()),
            }
        },
        (crate::instruction::Target::A, crate::instruction::Target::HLINC) => {
            match bus_store_s(c.bus, hl, a) {
                Ok(b) => Ok(CpuV { bus: b, regs: with_hl(c.regs, hl.wrapping_add(1)), ..c }),
                Err(()) => Err(()),
            }
        },
        (crate::instruction::Target::A, crate::instruction::Target::HLDEC) => {
            match bus_store_s(c.bus, hl, a) {
                Ok(b) => Ok(CpuV { bus: b, regs: with_hl(c.regs, hl.wrapping_sub(1)), ..c }),
                Err(()) => Err(()),
            }
        },
        (crate::instruction::Target::BC, crate::instruction::Target::A) => {
            match bus_load_s(c.bus, word(c.regs.b, c.regs.c)) {
                Ok(v) => Ok(CpuV { regs: Register { a: v, ..c.regs }, ..c }),
                Err(()) => Err(()),
            }
        },
        (crate::instruction::Target::DE, crate::instruction::Target::A) => {
            match bus_load_s(c.bus, word(c.regs.d, c.regs.e)) {
                Ok(v) => Ok(CpuV { regs: Register { a: v, ..c.regs }, ..c }),
                Err(()) => Err(()),
            }
        },
        (crate::instruction::Target::HLINC, crate::instruction::Target::A) => {
            match bus_load_s(c.bus, hl) {
                Ok(v) => Ok(
                    CpuV {
                        regs: Register { a: v, ..with_hl(c.regs, hl.wrapping_add(1)) },
                        ..c
                    },
                ),
                Err(()) => Err(()),
            }
        },
        (crate::instruction::Target::HLDEC, crate::instruction::Target::A) => {
            match bus_load_s(c.bus, hl) {
                Ok(v) => Ok(
                    CpuV {
                        regs: Register { a: v, ..with_hl(c.regs, hl.wrapping_sub(1)) },
                        ..c
                    },
                ),
                Err(()) => Err(()),
            }
        },
        _ => match get_r8_s(c, s) {
            Err(()) => Err(()),
            Ok(v) => set_r8_s(c, t, v),
        },
    }
}

/// The effect of the branch-capable instructions: jumps, relative jumps,
/// calls, returns and restarts. A taken branch sets PC itself and charges
/// the taken cost; a not-taken conditional falls back to the length-based
/// advance and the base cost.
pub open spec fn branch_s(c: CpuV, inst: Instruction) -> Result<(CpuV, u64), ()> {
    match inst {
        Instruction::JP(cond) => {
            if cond_s(c, cond) {
                match bus_load16_s(c.bus, c.pc) {
                    Ok(addr) => Ok((CpuV { pc: addr, ..c }, 16)),
                    Err(()) => Err(()),
                }
            } else {
                Ok(finish_s(c, inst))
            }
        },
        Instruction::JPHL => Ok((CpuV { pc: hl_of(c.regs), ..c }, 4)),
        Instruction::JR(cond) => {
            if cond_s(c, cond) {
                match bus_load_s(c.bus, c.pc) {
                    Ok(off) => Ok(
                        (
                            CpuV {
                                pc: c.pc.wrapping_add(1).wrapping_add_signed(off as i8 as i16),
                                ..c
                            },
                            12,
                        ),
                    ),
                    Err(()) => Err(()),
                }
            } else {
                Ok(finish_s(c, inst))
            }
        },
        Instruction::CALL(cond) => {
            if cond_s(c, cond) {
                match bus_load16_s(c.bus, c.pc) {
                    Err(()) => Err(()),
                    Ok(addr) => match push_s(c, c.pc.wrapping_add(2)) {
                        Ok(c2) => Ok((CpuV { pc: addr, ..c2 }, 24)),
                        Err(()) => Err(()),
                    },
                }
            } else {
                Ok(finish_s(c, inst))
            }
        },
        Instruction::RET(cond) => {
            if cond_s(c, cond) {
                match bus_load16_s(c.bus, c.sp.wrapping_add(1)) {
                    Ok(addr) => Ok(
                        (
                            CpuV { pc: addr, sp: c.sp.wrapping_add(2), ..c },
                            if cond is Always {
                                16
                            } else {
                                20
                            },
                        ),
                    ),
                    Err(()) => Err(()),
                }
            } else {
                Ok(finish_s(c, inst))
            }
        },
        Instruction::RETI => {
            match bus_load16_s(c.bus, c.sp.wrapping_add(1)) {
                Ok(addr) => Ok(
                    (
                        CpuV {
                            pc: addr,
                            sp: c.sp.wrapping_add(2),
                            interrupt_state: InterruptState::IEnable,
                            ..c
                        },
                        16,
                    ),
                ),
                Err(()) => Err(()),
            }
        },
        Instruction::RST(vector) => {
            match push_s(c, c.pc) {
                Ok(c2) => Ok((CpuV { pc: vector, ..c2 }, 16)),
                Err(()) => Err(()),
            }
        },
        _ => Err(()),
    }
}

/// One decoded primary-table instruction's full effect, with PC at the
/// first operand byte.
pub open spec fn exec_s(c: CpuV, inst: Instruction) -> Result<(CpuV, u64), ()> {
    if spec_branches(inst) {
        branch_s(c, inst)
    } else {
        match op_s(c, inst) {
            Ok(c2) => Ok(finish_s(c2, inst)),
            Err(()) => Err(()),
        }
    }
}

/// Whether the bit index of a BIT, RES or SETB instruction is in range;
/// the 0xCB decoder only produces such instructions.
pub open spec fn cb_wf(inst: CBInstruction) -> bool {
    match inst {
        CBInstruction::BIT(_, n) => n < 8,
        CBInstruction::RES(_, n) => n < 8,
        CBInstruction::SETB(_, n) => n < 8,
        _ => true,
    }
}

/// One decoded 0xCB-prefixed instruction's full effect. Both opcode bytes
/// were already consumed, so PC does not move.
pub open spec fn exec_cb_s(c: CpuV, inst: CBInstruction) -> Result<(CpuV, u64), ()> {
    let f = c.regs.f;
    let clk = inst.spec_clock() as u64;
    match inst {
        CBInstruction::RLC(t) => match get_r8_s(c, t) {
            Err(()) => Err(()),
            Ok(v) => {
                let r = ((v << 1u8) | (v >> 7u8)) as u8;
                match set_r8_s(cb_flags(c, r == 0, v & 0x80 != 0), t, r) {
                    Ok(c2) => Ok((c2, clk)),
                    Err(()) => Err(()),
                }
            },
        },
        CBInstruction::RRC(t) => match get_r8_s(c, t) {
            Err(()) => Err(()),
            Ok(v) => {
                let r = ((v >> 1u8) | (v << 7u8)) as u8;
                match set_r8_s(cb_flags(c, r == 0, v & 0x01 != 0), t, r) {
                    Ok(c2) => Ok((c2, clk)),
                    Err(()) => Err(()),
                }
            },
        },
        CBInstruction::RL(t) => match get_r8_s(c, t) {
            Err(()) => Err(()),
            Ok(v) => {
                let r = ((v << 1u8) | (if f.carry {
                    1u8
                } else {
                    0u8
                })) as u8;
                match set_r8_s(cb_flags(c, r == 0, v & 0x80 != 0), t, r) {
                    Ok(c2) => Ok((c2, clk)),
                    Err(()) => Err(()),
                }
            },
        },
        CBInstruction::RR(t) => match get_r8_s(c, t) {
            Err(()) => Err(()),
            Ok(v) => {
                let r = ((v >> 1u8) | ((if f.carry {
                    1u8
                } else {
                    0u8
                }) << 7u8)) as u8;
                match set_r8_s(cb_flags(c, r == 0, v & 0x01 != 0), t, r) {
                    Ok(c2) => Ok((c2, clk)),
                    Err(()) => Err(()),
                }
            },
        },
        CBInstruction::SLA(t) => match get_r8_s(c, t) {
            Err(()) => Err(()),
            Ok(v) => {
                let r = (v << 1u8) as u8;
                match set_r8_s(cb_flags(c, r == 0, v & 0x80 != 0), t, r) {
                    Ok(c2) => Ok((c2, clk)),
                    Err(()) => Err(()),
                }
            },
        },
        CBInstruction::SRA(t) => match get_r8_s(c, t) {
            Err(()) => Err(()),
            Ok(v) => {
                let r = ((v >> 1u8) | (v & 0x80)) as u8;
                match set_r8_s(cb_flags(c, r == 0, v & 0x01 != 0), t, r) {
                    Ok(c2) => Ok((c2, clk)),
                    Err(()) => Err(()),
                }
            },
        },
        CBInstruction::SWAP(t) => match get_r8_s(c, t) {
            Err(()) => Err(()),
            Ok(v) => {
                let r = ((v << 4u8) | (v >> 4u8)) as u8;
                match set_r8_s(cb_flags(c, r == 0, false), t, r) {
                    Ok(c2) => Ok((c2, clk)),
                    Err(()) => Err(()),
                }
            },
        },
        CBInstruction::SRL(t) => match get_r8_s(c, t) {
            Err(()) => Err(()),
            Ok(v) => {
                let r = (v >> 1u8) as u8;
                match set_r8_s(cb_flags(c, r == 0, v & 0x01 != 0), t, r) {
                    Ok(c2) => Ok((c2, clk)),
                    Err(()) => Err(()),
                }
            },
        },
        CBInstruction::BIT(t, n) => match get_r8_s(c, t) {
            Err(()) => Err(()),
            Ok(v) => Ok(
                (
                    CpuV {
                        regs: Register {
                            f: FlagRegister {
                                zero: (v >> n) & 0x01 == 0,
                                subtract: false,
                                half_carry: true,
                                ..f
                            },
                            ..c.regs
                        },
                        ..c
                    },
                    clk,
                ),
            ),
        },
        CBInstruction::RES(t, n) => match get_r8_s(c, t) {
            Err(()) => Err(()),
            Ok(v) => match set_r8_s(c, t, v & !((1u8 << n) as u8)) {
                Ok(c2) => Ok((c2, clk)),
                Err(()) => Err(()),
            },
        },
        CBInstruction::SETB(t, n) => match get_r8_s(c, t) {
            Err(()) => Err(()),
            Ok(v) => match set_r8_s(c, t, v | ((1u8 << n) as u8)) {
                Ok(c2) => Ok((c2, clk)),
                Err(()) => Err(()),
            },
        },
    }
}

/// The flag pattern every 0xCB shift and rotate writes: Z from the result,
/// N and H clear, C from the shifted-out bit.
pub open spec fn cb_flags(c: CpuV, zero: bool, carry: bool) -> CpuV {
    CpuV {
        regs: Register {
            f: FlagRegister { zero, subtract: false, half_carry: false, carry },
            ..c.regs
        },
        ..c
    }
}


/// Both devices advanced by a completed instruction's cycles.
pub open spec fn devices_s(c: CpuV, clk: u64) -> CpuV {
    CpuV {
        bus: BusV {
            gpu: gpu_update_s(c.bus.gpu, clk),
            timer: timer_update_s(c.bus.timer, clk),
            ..c.bus
        },
        ..c
    }
}

/// The deferred EI/DI transition that commits once the following
/// instruction has completed.
pub open spec fn commit_s(ist: InterruptState) -> InterruptState {
    match ist {
        InterruptState::IDisableNext => InterruptState::IDisable,
        InterruptState::IEnableNext => InterruptState::IEnable,
        _ => ist,
    }
}

/// Interrupt dispatch between instructions: with the master state open,
/// the highest-priority pending-and-enabled source (VBlank before timer)
/// has its request latch cleared, the master state closed, PC pushed, and
/// PC set to its vector; the service costs 20 cycles. With nothing to
/// serve, nothing changes and no cycles pass.
pub open spec fn handle_int_s(c: CpuV) -> Result<(CpuV, u64), ()> {
    if c.bus.interruptenb.vblank && c.bus.gpu.is_interrupt {
        let c1 = CpuV {
            bus: BusV { gpu: GpuV { is_interrupt: false, ..c.bus.gpu }, ..c.bus },
            interrupt_state: InterruptState::IDisable,
            ..c
        };
        match push_s(c1, c1.pc) {
            Ok(c2) => Ok((CpuV { pc: 0x40, ..c2 }, 20)),
            Err(()) => Err(()),
        }
    } else if c.bus.interruptenb.timer && c.bus.timer.is_interrupt {
        let c1 = CpuV {
            bus: BusV { timer: Timer { is_interrupt: false, ..c.bus.timer }, ..c.bus },
            interrupt_state: InterruptState::IDisable,
            ..c
        };
        match push_s(c1, c1.pc) {
            Ok(c2) => Ok((CpuV { pc: 0x50, ..c2 }, 20)),
            Err(()) => Err(()),
        }
    } else {
        Ok((c, 0))
    }
}

/// One fetched, decoded and executed instruction, 0xCB prefix included:
/// the opcode byte is consumed from PC, an undecodable byte fails.
pub open spec fn exec_one_s(c: CpuV) -> Result<(CpuV, u64), ()> {
    match bus_load_s(c.bus, c.pc) {
        Err(()) => Err(()),
        Ok(byte) => {
            let c1 = CpuV { pc: c.pc.wrapping_add(1), ..c };
            if byte == 0xcb {
                match bus_load_s(c1.bus, c1.pc) {
                    Err(()) => Err(()),
                    Ok(b2) => exec_cb_s(
                        CpuV { pc: c1.pc.wrapping_add(1), ..c1 },
                        spec_decode_cb(b2),
                    ),
                }
            } else {
                match spec_decode(byte) {
                    None => Err(()),
                    Some(inst) => exec_s(c1, inst),
                }
            }
        },
    }
}

/// One whole machine step: execute one instruction, forward its cycles to
/// the picture unit and the timer, serve a pending interrupt when the
/// master state allows (forwarding the service cycles too), and commit the
/// deferred EI/DI transition. Opaque so that callers chaining many steps
/// do not unfold the whole interpreter; `reveal(step_s)` opens it.
#[verifier::opaque]
pub open spec fn step_s(c: CpuV) -> Result<CpuV, ()> {
    match exec_one_s(c) {
        Err(()) => Err(()),
        Ok((c2, clk)) => {
            let c3 = devices_s(c2, clk);
            match (if c3.interrupt_state is IEnable || c3.interrupt_state is IDisableNext {
                match handle_int_s(c3) {
                    Err(()) => Err(()),
                    Ok((c4, iclk)) => Ok(devices_s(c4, iclk)),
                }
            } else {
                Ok(c3)
            }) {
                Err(()) => Err(()),
                Ok(c5) => Ok(CpuV { interrupt_state: commit_s(c5.interrupt_state), ..c5 }),
            }
        },
    }
}

/// Every bit index the 0xCB decoder produces is below 8.
proof fn lemma_decode_cb_wf(byte: u8)
    ensures
        cb_wf(spec_decode_cb(byte)),
{
}

/// Masking with a low-bits constant stays below that constant.
proof fn lemma_low_mask_bounds(x: u16)
    ensures
        x & 0x0f <= 0x0f,
        x & 0xff <= 0xff,
{
    assert(x & 0x0f <= 0x0f && x & 0xff <= 0xff) by (bit_vector);
}

/// An all-zero register file with all four flags clear.
pub open spec fn regs_zero() -> Register {
    Register {
        a: 0,
        b: 0,
        c: 0,
        d: 0,
        e: 0,
        f: FlagRegister { zero: false, subtract: false, half_carry: false, carry: false },
        h: 0,
        l: 0,
    }
}

impl Cpu {
    /// Builds the machine around a cartridge image, at the post-boot entry
    /// point: PC = 0x0100, SP = 0, registers and flags cleared, interrupts
    /// disabled.
    pub fn new(binary: Vec<u8>) -> (r: Cpu)
        requires
            binary.len() <= 0x8000,
        ensures
            r@ == (CpuV {
                regs: regs_zero(),
                sp: 0,
                pc: 0x0100,
                bus: crate::bus::bus_reset_s(binary@),
                interrupt_state: InterruptState::IDisable,
            }),
            cpu_wf(r@),
    {
        Cpu {
            regs: Register {
                a: 0,
                b: 0,
                c: 0,
                d: 0,
                e: 0,
                f: FlagRegister { zero: false, subtract: false, half_carry: false, carry: false },
                h: 0,
                l: 0,
            },
            sp: 0,
            pc: 0x0100,
            bus: Bus::new(binary),
            interrupt_state: InterruptState::IDisable,
        }
    }

    /// Reads the byte at PC and advances PC past it; PC advances even when
    /// the read fails.
    pub fn fetch(&mut self) -> (r: Result<u16, ()>)
        requires
            cpu_wf(old(self)@),
        ensures
            cpu_wf(final(self)@),
            final(self)@ == (CpuV { pc: old(self)@.pc.wrapping_add(1), ..old(self)@ }),
            match bus_load_s(old(self)@.bus, old(self)@.pc) {
                Ok(b) => r == Ok::<u16, ()>(b as u16),
                Err(()) => r is Err,
            },
    {
        let byte = self.bus.load8(self.pc);
        self.pc = self.pc.wrapping_add(1);
        match byte {
            Ok(b) => Ok(b as u16),
            Err(()) => Err(()),
        }
    }

    /// Reads the 8-bit operand a target denotes, as `get_r8_s` describes.
    fn get_r8(&self, target: &crate::instruction::Target) -> (r: Result<u8, ()>)
        requires
            cpu_wf(self@),
        ensures
            r == get_r8_s(self@, *target),
    {
        match target {
            crate::instruction::Target::A => Ok(self.regs.a),
            crate::instruction::Target::B => Ok(self.regs.b),
            crate::instruction::Target::C => Ok(self.regs.c),
            crate::instruction::Target::D => Ok(self.regs.d),
            crate::instruction::Target::E => Ok(self.regs.e),
            crate::instruction::Target::H => Ok(self.regs.h),
            crate::instruction::Target::L => Ok(self.regs.l),
            crate::instruction::Target::HL => self.bus.load8(self.regs.get_hl()),
            crate::instruction::Target::D8 => self.bus.load8(self.pc),
            _ => Err(()),
        }
    }

    /// Writes the 8-bit operand a target denotes, as `set_r8_s` describes.
    fn set_r8(&mut self, target: &crate::instruction::Target, value: u8) -> (r: Result<(), ()>)
        requires
            cpu_wf(old(self)@),
        ensures
            cpu_wf(final(self)@),
            match set_r8_s(old(self)@, *target, value) {
                Ok(c) => r is Ok && final(self)@ == c,
                Err(()) => r is Err,
            },
    {
        match target {
            crate::instruction::Target::A => {
                self.regs.a = value;
                Ok(())
            },
            crate::instruction::Target::B => {
                self.regs.b = value;
                Ok(())
            },
            crate::instruction::Target::C => {
                self.regs.c = value;
                Ok(())
            },
            crate::instruction::Target::D => {
                self.regs.d = value;
                Ok(())
            },
            crate::instruction::Target::E => {
                self.regs.e = value;
                Ok(())
            },
            crate::instruction::Target::H => {
                self.regs.h = value;
                Ok(())
            },
            crate::instruction::Target::L => {
                self.regs.l = value;
                Ok(())
            },
            crate::instruction::Target::HL => {
                let addr = self.regs.get_hl();
                self.bus.store8(addr, value)
            },
            _ => Err(()),
        }
    }

    /// Evaluates a branch condition against the flags, as `cond_s` says.
    fn check_condition(&self, condition: &Condition) -> (r: bool)
        ensures
            r == cond_s(self@, *condition),
    {
        match condition {
            Condition::NotZero => !self.regs.f.zero,
            Condition::Zero => self.regs.f.zero,
            Condition::NotCarry => !self.regs.f.carry,
            Condition::Carry => self.regs.f.carry,
            Condition::Always => true,
        }
    }
}


impl Cpu {
    /// Executes one decoded primary-table instruction, with PC at the
    /// first operand byte, and returns the cycles it took; the whole
    /// effect is `exec_s`.
    #[verifier::rlimit(100)]
    fn execute(&mut self, inst: Instruction) -> (r: Result<u64, ()>)
        requires
            cpu_wf(old(self)@),
        ensures
            cpu_wf(final(self)@),
            match exec_s(old(self)@, inst) {
                Ok((c, clk)) => r == Ok::<u64, ()>(clk) && final(self)@ == c && clk <= 24,
                Err(()) => r is Err,
            },
    {
        let len = inst.len();
        let clock = inst.clock() as u64;
        match inst {
            Instruction::JP(condition) => {
                if self.check_condition(&condition) {
                    let addr = match self.bus.load16(self.pc) {
                        Ok(v) => v,
                        Err(()) => {
                            return Err(());
                        },
                    };
                    self.pc = addr;
                    return Ok(16);
                }
            },
            Instruction::JPHL => {
                self.pc = self.regs.get_hl();
                return Ok(4);
            },
            Instruction::CALL(condition) => {
                if self.check_condition(&condition) {
                    let addr = match self.bus.load16(self.pc) {
                        Ok(v) => v,
                        Err(()) => {
                            return Err(());
                        },
                    };
                    let ret = self.pc.wrapping_add(2);
                    match self.bus.store16(self.sp.wrapping_sub(1), ret) {
                        Ok(()) => {},
                        Err(()) => {
                            return Err(());
                        },
                    }
                    self.sp = self.sp.wrapping_sub(2);
                    self.pc = addr;
                    return Ok(24);
                }
            },
            Instruction::RET(condition) => {
                if self.check_condition(&condition) {
                    let addr = match self.bus.load16(self.sp.wrapping_add(1)) {
                        Ok(v) => v,
                        Err(()) => {
                            return Err(());
                        },
                    };
                    self.pc = addr;
                    self.sp = self.sp.wrapping_add(2);
                    let taken: u64 = if matches!(condition, Condition::Always) {
                        16
                    } else {
                        20
                    };
                    return Ok(taken);
                }
            },
            Instruction::RETI => {
                self.interrupt_state = InterruptState::IEnable;
                let addr = match self.bus.load16(self.sp.wrapping_add(1)) {
                    Ok(v) => v,
                    Err(()) => {
                        return Err(());
                    },
                };
                self.pc = addr;
                self.sp = self.sp.wrapping_add(2);
                return Ok(16);
            },
            Instruction::JR(condition) => {
                if self.check_condition(&condition) {
                    let off = match self.bus.load8(self.pc) {
                        Ok(v) => v,
                        Err(()) => {
                            return Err(());
                        },
                    };
                    let rel = #[verifier::truncate] (off as i8);
                    self.pc = self.pc.wrapping_add(1).wrapping_add_signed(rel as i16);
                    return Ok(12);
                }
            },
            Instruction::RST(vector) => {
                match self.bus.store16(self.sp.wrapping_sub(1), self.pc) {
                    Ok(()) => {},
                    Err(()) => {
                        return Err(());
                    },
                }
                self.sp = self.sp.wrapping_sub(2);
                self.pc = vector;
                return Ok(16);
            },
            Instruction::LDIMM16(_) | Instruction::LD16A | Instruction::LDA16
                | Instruction::LDA16SP | Instruction::LDSPHL | Instruction::LDIMM8(_)
                | Instruction::LD8A | Instruction::LDA8 | Instruction::LDCA | Instruction::LDAC
                | Instruction::LDRR(_, _) => {
                match self.exec_load(inst) {
                    Ok(()) => {},
                    Err(()) => {
                        return Err(());
                    },
                }
            },
            Instruction::PUSH(_) | Instruction::POP(_) => {
                match self.exec_stack(inst) {
                    Ok(()) => {},
                    Err(()) => {
                        return Err(());
                    },
                }
            },
            Instruction::INC8(_) | Instruction::DEC8(_) | Instruction::ADD(_)
                | Instruction::ADC(_) | Instruction::SUB(_) | Instruction::SBC(_)
                | Instruction::AND(_) | Instruction::XOR(_) | Instruction::OR(_)
                | Instruction::CMP(_) => {
                match self.exec_alu(inst) {
                    Ok(()) => {},
                    Err(()) => {
                        return Err(());
                    },
                }
            },
            Instruction::RRCA | Instruction::RLA | Instruction::SCF => {
                match self.exec_rotate(inst) {
                    Ok(()) => {},
                    Err(()) => {
                        return Err(());
                    },
                }
            },
            Instruction::ADDSP | Instruction::LDHLSP => {
                match self.exec_sp_offset(inst) {
                    Ok(()) => {},
                    Err(()) => {
                        return Err(());
                    },
                }
            },
            Instruction::INC16(_) => {
                match self.exec_inc16(inst) {
                    Ok(()) => {},
                    Err(()) => {
                        return Err(());
                    },
                }
            },
            Instruction::DEC16(_) => {
                match self.exec_dec16(inst) {
                    Ok(()) => {},
                    Err(()) => {
                        return Err(());
                    },
                }
            },
            Instruction::ADDHL(_) => {
                match self.exec_addhl(inst) {
                    Ok(()) => {},
                    Err(()) => {
                        return Err(());
                    },
                }
            },
            _ => {
                match self.exec_other(inst) {
                    Ok(()) => {},
                    Err(()) => {
                        return Err(());
                    },
                }
            },
        }
        proof {
            assert(spec_len(inst) >= 1);
        }
        self.pc = self.pc.wrapping_add(len - 1);
        Ok(clock)
    }

    /// Performs the state effect of the load instructions, as the matching
    /// arms of `op_s` describe; PC and cycles are applied by the caller.
    #[verifier::rlimit(100)]
    fn exec_load(&mut self, inst: Instruction) -> (r: Result<(), ()>)
        requires
            cpu_wf(old(self)@),
            inst is LDIMM16 || inst is LD16A || inst is LDA16 || inst is LDA16SP || inst is LDSPHL || inst is LDIMM8 || inst is LD8A || inst is LDA8 || inst is LDCA || inst is LDAC || inst is LDRR,
        ensures
            cpu_wf(final(self)@),
            match op_s(old(self)@, inst) {
                Ok(c) => r is Ok && final(self)@ == c,
                Err(()) => r is Err,
            },
    {
        match inst {
            Instruction::LDIMM16(target) => {
                let imm = match self.bus.load16(self.pc) {
                    Ok(v) => v,
                    Err(()) => {
                        return Err(());
                    },
                };
                match target {
                    crate::instruction::Target::BC => self.regs.set_bc(imm),
                    crate::instruction::Target::DE => self.regs.set_de(imm),
                    crate::instruction::Target::HL => self.regs.set_hl(imm),
                    crate::instruction::Target::SP => self.sp = imm,
                    _ => {
                        return Err(());
                    },
                }
            },
            Instruction::LD16A => {
                let addr = match self.bus.load16(self.pc) {
                    Ok(v) => v,
                    Err(()) => {
                        return Err(());
                    },
                };
                match self.bus.store8(addr, self.regs.a) {
                    Ok(()) => {},
                    Err(()) => {
                        return Err(());
                    },
                }
            },
            Instruction::LDA16 => {
                let addr = match self.bus.load16(self.pc) {
                    Ok(v) => v,
                    Err(()) => {
                        return Err(());
                    },
                };
                self.regs.a = match self.bus.load8(addr) {
                    Ok(v) => v,
                    Err(()) => {
                        return Err(());
                    },
                };
            },
            Instruction::LDA16SP => {
                let addr = match self.bus.load16(self.pc) {
                    Ok(v) => v,
                    Err(()) => {
                        return Err(());
                    },
                };
                match self.bus.store16(addr, self.sp) {
                    Ok(()) => {},
                    Err(()) => {
                        return Err(());
                    },
                }
            },
            Instruction::LDSPHL => {
                self.sp = self.regs.get_hl();
            },
            Instruction::LDIMM8(target) => {
                let imm = match self.bus.load8(self.pc) {
                    Ok(v) => v,
                    Err(()) => {
                        return Err(());
                    },
                };
                match self.set_r8(&target, imm) {
                    Ok(()) => {},
                    Err(()) => {
                        return Err(());
                    },
                }
            },
            Instruction::LD8A => {
                let a8 = match self.bus.load8(self.pc) {
                    Ok(v) => v,
                    Err(()) => {
                        return Err(());
                    },
                };
                match self.bus.store8(0xff00 + (a8 as u16), self.regs.a) {
                    Ok(()) => {},
                    Err(()) => {
                        return Err(());
                    },
                }
            },
            Instruction::LDA8 => {
                let a8 = match self.bus.load8(self.pc) {
                    Ok(v) => v,
                    Err(()) => {
                        return Err(());
                    },
                };
                self.regs.a = match self.bus.load8(0xff00 + (a8 as u16)) {
                    Ok(v) => v,
                    Err(()) => {
                        return Err(());
                    },
                };
            },
            Instruction::LDCA => {
                let addr = 0xff00 + (self.regs.c as u16);
                match self.bus.store8(addr, self.regs.a) {
                    Ok(()) => {},
                    Err(()) => {
                        return Err(());
                    },
                }
            },
            Instruction::LDAC => {
                let addr = 0xff00 + (self.regs.c as u16);
                self.regs.a = match self.bus.load8(addr) {
                    Ok(v) => v,
                    Err(()) => {
                        return Err(());
                    },
                };
            },
            Instruction::LDRR(source, target) => {
                match self.exec_ldrr(source, target) {
                    Ok(()) => {},
                    Err(()) => {
                        return Err(());
                    },
                }
            },
            _ => {
                return Err(());
            },
        }
        Ok(())
    }

    /// Performs the state effect of PUSH and POP, as the matching
    /// arms of `op_s` describe; PC and cycles are applied by the caller.
    #[verifier::rlimit(100)]
    fn exec_stack(&mut self, inst: Instruction) -> (r: Result<(), ()>)
        requires
            cpu_wf(old(self)@),
            inst is PUSH || inst is POP,
        ensures
            cpu_wf(final(self)@),
            match op_s(old(self)@, inst) {
                Ok(c) => r is Ok && final(self)@ == c,
                Err(()) => r is Err,
            },
    {
        match inst {
            Instruction::PUSH(target) => {
                let value = match target {
                    crate::instruction::Target::BC => self.regs.get_bc(),
                    crate::instruction::Target::DE => self.regs.get_de(),
                    crate::instruction::Target::HL => self.regs.get_hl(),
                    crate::instruction::Target::AF => self.regs.get_af(),
                    _ => {
                        return Err(());
                    },
                };
                match self.bus.store16(self.sp.wrapping_sub(1), value) {
                    Ok(()) => {},
                    Err(()) => {
                        return Err(());
                    },
                }
                self.sp = self.sp.wrapping_sub(2);
            },
            Instruction::POP(target) => {
                let value = match self.bus.load16(self.sp.wrapping_add(1)) {
                    Ok(v) => v,
                    Err(()) => {
                        return Err(());
                    },
                };
                match target {
                    crate::instruction::Target::BC => self.regs.set_bc(value),
                    crate::instruction::Target::DE => self.regs.set_de(value),
                    crate::instruction::Target::HL => self.regs.set_hl(value),
                    crate::instruction::Target::AF => self.regs.set_af(value),
                    _ => {
                        return Err(());
                    },
                }
                self.sp = self.sp.wrapping_add(2);
            },
            _ => {
                return Err(());
            },
        }
        Ok(())
    }

    /// Performs the state effect of the 8-bit arithmetic and logic instructions, as the matching
    /// arms of `op_s` describe; PC and cycles are applied by the caller.
    #[verifier::rlimit(100)]
    fn exec_alu(&mut self, inst: Instruction) -> (r: Result<(), ()>)
        requires
            cpu_wf(old(self)@),
            inst is INC8 || inst is DEC8 || inst is ADD || inst is ADC || inst is SUB || inst is SBC || inst is AND || inst is XOR || inst is OR || inst is CMP,
        ensures
            cpu_wf(final(self)@),
            match op_s(old(self)@, inst) {
                Ok(c) => r is Ok && final(self)@ == c,
                Err(()) => r is Err,
            },
    {
        match inst {
            Instruction::INC8(target) => {
                let v = match self.get_r8(&target) {
                    Ok(v) => v,
                    Err(()) => {
                        return Err(());
                    },
                };
                let v2 = v.wrapping_add(1);
                self.regs.f.zero = v2 == 0;
                self.regs.f.subtract = false;
                self.regs.f.half_carry = v & 0x0f == 0x0f;
                match self.set_r8(&target, v2) {
                    Ok(()) => {},
                    Err(()) => {
                        return Err(());
                    },
                }
            },
            Instruction::DEC8(target) => {
                let v = match self.get_r8(&target) {
                    Ok(v) => v,
                    Err(()) => {
                        return Err(());
                    },
                };
                let v2 = v.wrapping_sub(1);
                self.regs.f.zero = v2 == 0;
                self.regs.f.subtract = true;
                self.regs.f.half_carry = v & 0x0f == 0;
                match self.set_r8(&target, v2) {
                    Ok(()) => {},
                    Err(()) => {
                        return Err(());
                    },
                }
            },
            Instruction::ADD(target) => {
                let v = match self.get_r8(&target) {
                    Ok(v) => v,
                    Err(()) => {
                        return Err(());
                    },
                };
                let a = self.regs.a;
                self.regs.f.subtract = false;
                self.regs.f.half_carry = ((a & 0x0f) as u16) + ((v & 0x0f) as u16) > 0x0f;
                self.regs.f.carry = (a as u16) + (v as u16) > 0xff;
                self.regs.a = a.wrapping_add(v);
                self.regs.f.zero = self.regs.a == 0;
            },
            Instruction::ADC(target) => {
                let v = match self.get_r8(&target) {
                    Ok(v) => v,
                    Err(()) => {
                        return Err(());
                    },
                };
                let a = self.regs.a;
                let cin: u8 = if self.regs.f.carry {
                    1
                } else {
                    0
                };
                self.regs.f.subtract = false;
                self.regs.f.half_carry = ((a & 0x0f) as u16) + ((v & 0x0f) as u16) + (cin as u16)
                    > 0x0f;
                self.regs.f.carry = (a as u16) + (v as u16) + (cin as u16) > 0xff;
                self.regs.a = a.wrapping_add(v).wrapping_add(cin);
                self.regs.f.zero = self.regs.a == 0;
            },
            Instruction::SUB(target) => {
                let v = match self.get_r8(&target) {
                    Ok(v) => v,
                    Err(()) => {
                        return Err(());
                    },
                };
                let a = self.regs.a;
                self.regs.f.subtract = true;
                self.regs.f.half_carry = (a & 0x0f) < (v & 0x0f);
                self.regs.f.carry = a < v;
                self.regs.a = a.wrapping_sub(v);
                self.regs.f.zero = self.regs.a == 0;
            },
            Instruction::SBC(target) => {
                let v = match self.get_r8(&target) {
                    Ok(v) => v,
                    Err(()) => {
                        return Err(());
                    },
                };
                let a = self.regs.a;
                let cin: u8 = if self.regs.f.carry {
                    1
                } else {
                    0
                };
                self.regs.f.subtract = true;
                self.regs.f.half_carry = ((a & 0x0f) as u16) < ((v & 0x0f) as u16) + (cin as u16);
                self.regs.f.carry = (a as u16) < (v as u16) + (cin as u16);
                self.regs.a = a.wrapping_sub(v).wrapping_sub(cin);
                self.regs.f.zero = self.regs.a == 0;
            },
            Instruction::AND(target) => {
                let v = match self.get_r8(&target) {
                    Ok(v) => v,
                    Err(()) => {
                        return Err(());
                    },
                };
                self.regs.a = self.regs.a & v;
                self.regs.f.zero = self.regs.a == 0;
                self.regs.f.subtract = false;
                self.regs.f.half_carry = true;
                self.regs.f.carry = false;
            },
            Instruction::XOR(target) => {
                let v = match self.get_r8(&target) {
                    Ok(v) => v,
                    Err(()) => {
                        return Err(());
                    },
                };
                self.regs.a = self.regs.a ^ v;
                self.regs.f.zero = self.regs.a == 0;
                self.regs.f.subtract = false;
                self.regs.f.half_carry = false;
                self.regs.f.carry = false;
            },
            Instruction::OR(target) => {
                let v = match self.get_r8(&target) {
                    Ok(v) => v,
                    Err(()) => {
                        return Err(());
                    },
                };
                self.regs.a = self.regs.a | v;
                self.regs.f.zero = self.regs.a == 0;
                self.regs.f.subtract = false;
                self.regs.f.half_carry = false;
                self.regs.f.carry = false;
            },
            Instruction::CMP(target) => {
                let v = match self.get_r8(&target) {
                    Ok(v) => v,
                    Err(()) => {
                        return Err(());
                    },
                };
                let a = self.regs.a;
                self.regs.f.zero = a == v;
                self.regs.f.subtract = true;
                self.regs.f.half_carry = (a & 0x0f) < (v & 0x0f);
                self.regs.f.carry = a < v;
            },
            _ => {
                return Err(());
            },
        }
        Ok(())
    }

    /// Performs the state effect of the flag and interrupt-state instructions, as the matching
    /// arms of `op_s` describe; PC and cycles are applied by the caller.
    #[verifier::rlimit(100)]
    fn exec_other(&mut self, inst: Instruction) -> (r: Result<(), ()>)
        requires
            cpu_wf(old(self)@),
            inst is NOP || inst is DI || inst is EI || inst is CPL || inst is CCF || inst is RRA || inst is RLCA || inst is DAA || inst is HALT || inst is STOP,
        ensures
            cpu_wf(final(self)@),
            match op_s(old(self)@, inst) {
                Ok(c) => r is Ok && final(self)@ == c,
                Err(()) => r is Err,
            },
    {
        match inst {
            Instruction::NOP => {},
            Instruction::HALT => {},
            Instruction::STOP => {},
            Instruction::DI => {
                self.interrupt_state = InterruptState::IDisableNext;
            },
            Instruction::EI => {
                self.interrupt_state = InterruptState::IEnableNext;
            },
            Instruction::CPL => {
                self.regs.a = !self.regs.a;
                self.regs.f.subtract = true;
                self.regs.f.half_carry = true;
            },
            Instruction::CCF => {
                self.regs.f.subtract = false;
                self.regs.f.half_carry = false;
                self.regs.f.carry = !self.regs.f.carry;
            },
            Instruction::RRA => {
                let value = self.regs.a;
                let cbit: u8 = if self.regs.f.carry {
                    1
                } else {
                    0
                };
                self.regs.a = (value >> 1u8) | (cbit << 7u8);
                self.regs.f.zero = false;
                self.regs.f.subtract = false;
                self.regs.f.half_carry = false;
                self.regs.f.carry = value & 0x01 != 0;
            },
            Instruction::RLCA => {
                let value = self.regs.a;
                self.regs.a = (value << 1u8) | (value >> 7u8);
                self.regs.f.zero = false;
                self.regs.f.subtract = false;
                self.regs.f.half_carry = false;
                self.regs.f.carry = value & 0x80 != 0;
            },
            Instruction::DAA => {
                let a0 = self.regs.a;
                if !self.regs.f.subtract {
                    let carry = self.regs.f.carry || a0 > 0x99;
                    let a1 = if carry {
                        a0.wrapping_add(0x60)
                    } else {
                        a0
                    };
                    let a2 = if self.regs.f.half_carry || (a0 & 0x0f) > 0x09 {
                        a1.wrapping_add(0x06)
                    } else {
                        a1
                    };
                    self.regs.a = a2;
                    self.regs.f.zero = a2 == 0;
                    self.regs.f.half_carry = false;
                    self.regs.f.carry = carry;
                } else {
                    let a1 = if self.regs.f.carry {
                        a0.wrapping_sub(0x60)
                    } else {
                        a0
                    };
                    let a2 = if self.regs.f.half_carry {
                        a1.wrapping_sub(0x06)
                    } else {
                        a1
                    };
                    self.regs.a = a2;
                    self.regs.f.zero = a2 == 0;
                    self.regs.f.half_carry = false;
                }
            },
            _ => {
                return Err(());
            },
        }
        Ok(())
    }

    /// Performs the state effect of the accumulator rotations through and
    /// around the carry and the set-carry instruction, as the matching
    /// arms of `op_s` describe; PC and cycles are applied by the caller.
    #[verifier::rlimit(100)]
    fn exec_rotate(&mut self, inst: Instruction) -> (r: Result<(), ()>)
        requires
            cpu_wf(old(self)@),
            inst is RRCA || inst is RLA || inst is SCF,
        ensures
            cpu_wf(final(self)@),
            match op_s(old(self)@, inst) {
                Ok(c) => r is Ok && final(self)@ == c,
                Err(()) => r is Err,
            },
    {
        match inst {
            Instruction::RRCA => {
                let value = self.regs.a;
                self.regs.a = (value >> 1u8) | (value << 7u8);
                self.regs.f.zero = false;
                self.regs.f.subtract = false;
                self.regs.f.half_carry = false;
                self.regs.f.carry = value & 0x01 != 0;
            },
            Instruction::RLA => {
                let value = self.regs.a;
                let cbit: u8 = if self.regs.f.carry {
                    1
                } else {
                    0
                };
                self.regs.a = (value << 1u8) | cbit;
                self.regs.f.zero = false;
                self.regs.f.subtract = false;
                self.regs.f.half_carry = false;
                self.regs.f.carry = value & 0x80 != 0;
            },
            Instruction::SCF => {
                self.regs.f.subtract = false;
                self.regs.f.half_carry = false;
                self.regs.f.carry = true;
            },
            _ => {
                return Err(());
            },
        }
        Ok(())
    }

    /// Performs the state effect of the signed-offset stack-pointer
    /// arithmetic (ADD SP,r8 and LD HL,SP+r8), as the matching arms of
    /// `op_s` describe; PC and cycles are applied by the caller. H and C
    /// report carries of the unsigned low-nibble and low-byte adds.
    #[verifier::rlimit(100)]
    fn exec_sp_offset(&mut self, inst: Instruction) -> (r: Result<(), ()>)
        requires
            cpu_wf(old(self)@),
            inst is ADDSP || inst is LDHLSP,
        ensures
            cpu_wf(final(self)@),
            match op_s(old(self)@, inst) {
                Ok(c) => r is Ok && final(self)@ == c,
                Err(()) => r is Err,
            },
    {
        let off = match self.bus.load8(self.pc) {
            Ok(v) => v,
            Err(()) => {
                return Err(());
            },
        };
        proof {
            lemma_low_mask_bounds(self.sp);
        }
        self.regs.f.zero = false;
        self.regs.f.subtract = false;
        self.regs.f.half_carry = (self.sp & 0x0f) + ((off & 0x0f) as u16) > 0x0f;
        self.regs.f.carry = (self.sp & 0xff) + (off as u16) > 0xff;
        let rel = #[verifier::truncate] (off as i8);
        let sum = self.sp.wrapping_add_signed(rel as i16);
        match inst {
            Instruction::ADDSP => {
                self.sp = sum;
            },
            Instruction::LDHLSP => {
                self.regs.set_hl(sum);
            },
            _ => {
                return Err(());
            },
        }
        Ok(())
    }

    /// Performs the state effect of a 16-bit increment, as the matching
    /// arm of `op_s` describes; PC and cycles are applied by the caller.
    #[verifier::rlimit(100)]
    fn exec_inc16(&mut self, inst: Instruction) -> (r: Result<(), ()>)
        requires
            cpu_wf(old(self)@),
            inst is INC16,
        ensures
            cpu_wf(final(self)@),
            match op_s(old(self)@, inst) {
                Ok(c) => r is Ok && final(self)@ == c,
                Err(()) => r is Err,
            },
    {
        match inst {
            Instruction::INC16(target) => {
                match target {
                    crate::instruction::Target::BC => {
                        let v = self.regs.get_bc().wrapping_add(1);
                        self.regs.set_bc(v);
                    },
                    crate::instruction::Target::DE => {
                        let v = self.regs.get_de().wrapping_add(1);
                        self.regs.set_de(v);
                    },
                    crate::instruction::Target::HL => {
                        let v = self.regs.get_hl().wrapping_add(1);
                        self.regs.set_hl(v);
                    },
                    crate::instruction::Target::SP => {
                        self.sp = self.sp.wrapping_add(1);
                    },
                    _ => {
                        return Err(());
                    },
                }
            },
            _ => {
                return Err(());
            },
        }
        Ok(())
    }

    /// Performs the state effect of a 16-bit decrement, as the matching
    /// arm of `op_s` describes; PC and cycles are applied by the caller.
    #[verifier::rlimit(100)]
    fn exec_dec16(&mut self, inst: Instruction) -> (r: Result<(), ()>)
        requires
            cpu_wf(old(self)@),
            inst is DEC16,
        ensures
            cpu_wf(final(self)@),
            match op_s(old(self)@, inst) {
                Ok(c) => r is Ok && final(self)@ == c,
                Err(()) => r is Err,
            },
    {
        match inst {
            Instruction::DEC16(target) => {
                match target {
                    crate::instruction::Target::BC => {
                        let v = self.regs.get_bc().wrapping_sub(1);
                        self.regs.set_bc(v);
                    },
                    crate::instruction::Target::DE => {
                        let v = self.regs.get_de().wrapping_sub(1);
                        self.regs.set_de(v);
                    },
                    crate::instruction::Target::HL => {
                        let v = self.regs.get_hl().wrapping_sub(1);
                        self.regs.set_hl(v);
                    },
                    crate::instruction::Target::SP => {
                        self.sp = self.sp.wrapping_sub(1);
                    },
                    _ => {
                        return Err(());
                    },
                }
            },
            _ => {
                return Err(());
            },
        }
        Ok(())
    }

    /// Performs the state effect of a 16-bit add into HL, as the matching
    /// arm of `op_s` describes; PC and cycles are applied by the caller.
    #[verifier::rlimit(100)]
    fn exec_addhl(&mut self, inst: Instruction) -> (r: Result<(), ()>)
        requires
            cpu_wf(old(self)@),
            inst is ADDHL,
        ensures
            cpu_wf(final(self)@),
            match op_s(old(self)@, inst) {
                Ok(c) => r is Ok && final(self)@ == c,
                Err(()) => r is Err,
            },
    {
        match inst {
            Instruction::ADDHL(target) => {
                let value = match target {
                    crate::instruction::Target::BC => self.regs.get_bc(),
                    crate::instruction::Target::DE => self.regs.get_de(),
                    crate::instruction::Target::HL => self.regs.get_hl(),
                    crate::instruction::Target::SP => self.sp,
                    _ => {
                        return Err(());
                    },
                };
                let hl = self.regs.get_hl();
                self.regs.f.subtract = false;
                self.regs.f.half_carry = (hl % 0x1000) + (value % 0x1000) > 0xfff;
                self.regs.f.carry = (hl as u32) + (value as u32) > 0xffff;
                self.regs.set_hl(hl.wrapping_add(value));
            },
            _ => {
                return Err(());
            },
        }
        Ok(())
    }
}

impl Cpu {
    /// Executes a register-to-register or memory-addressed load, as
    /// `ldrr_s` describes.
    fn exec_ldrr(
        &mut self,
        source: crate::instruction::Target,
        target: crate::instruction::Target,
    ) -> (r: Result<(), ()>)
        requires
            cpu_wf(old(self)@),
        ensures
            cpu_wf(final(self)@),
            match ldrr_s(old(self)@, source, target) {
                Ok(c) => r is Ok && final(self)@ == c,
                Err(()) => r is Err,
            },
    {
        match (source, target) {
            (crate::instruction::Target::A, crate::instruction::Target::BC) => {
                let addr = self.regs.get_bc();
                self.bus.store8(addr, self.regs.a)
            },
            (crate::instruction::Target::A, crate::instruction::Target::DE) => {
                let addr = self.regs.get_de();
                self.bus.store8(addr, self.regs.a)
            },
            (crate::instruction::Target::A, crate::instruction::Target::HLINC) => {
                let addr = self.regs.get_hl();
                match self.bus.store8(addr, self.regs.a) {
                    Ok(()) => {
                        self.regs.inc_hl();
                        Ok(())
                    },
                    Err(()) => Err(()),
                }
            },
            (crate::instruction::Target::A, crate::instruction::Target::HLDEC) => {
                let addr = self.regs.get_hl();
                match self.bus.store8(addr, self.regs.a) {
                    Ok(()) => {
                        self.regs.dec_hl();
                        Ok(())
                    },
                    Err(()) => Err(()),
                }
            },
            (crate::instruction::Target::BC, crate::instruction::Target::A) => {
                let addr = self.regs.get_bc();
                match self.bus.load8(addr) {
                    Ok(v) => {
                        self.regs.a = v;
                        Ok(())
                    },
                    Err(()) => Err(()),
                }
            },
            (crate::instruction::Target::DE, crate::instruction::Target::A) => {
                let addr = self.regs.get_de();
                match self.bus.load8(addr) {
                    Ok(v) => {
                        self.regs.a = v;
                        Ok(())
                    },
                    Err(()) => Err(()),
                }
            },
            (crate::instruction::Target::HLINC, crate::instruction::Target::A) => {
                let addr = self.regs.get_hl();
                match self.bus.load8(addr) {
                    Ok(v) => {
                        self.regs.a = v;
                        self.regs.inc_hl();
                        Ok(())
                    },
                    Err(()) => Err(()),
                }
            },
            (crate::instruction::Target::HLDEC, crate::instruction::Target::A) => {
                let addr = self.regs.get_hl();
                match self.bus.load8(addr) {
                    Ok(v) => {
                        self.regs.a = v;
                        self.regs.dec_hl();
                        Ok(())
                    },
                    Err(()) => Err(()),
                }
            },
            _ => {
                let v = match self.get_r8(&source) {
                    Ok(v) => v,
                    Err(()) => {
                        return Err(());
                    },
                };
                self.set_r8(&target, v)
            },
        }
    }
}


impl Cpu {
    /// Executes one decoded 0xCB-prefixed instruction (both opcode bytes
    /// already consumed) and returns the cycles it took; the whole effect
    /// is `exec_cb_s`.
    #[verifier::rlimit(100)]
    fn execute_cb(&mut self, inst: CBInstruction) -> (r: Result<u64, ()>)
        requires
            cpu_wf(old(self)@),
            cb_wf(inst),
        ensures
            cpu_wf(final(self)@),
            match exec_cb_s(old(self)@, inst) {
                Ok((c, clk)) => r == Ok::<u64, ()>(clk) && final(self)@ == c && clk <= 16,
                Err(()) => r is Err,
            },
    {
        let clock = inst.clock() as u64;
        match inst {
            CBInstruction::RLC(target) => {
                let v = match self.get_r8(&target) {
                    Ok(v) => v,
                    Err(()) => {
                        return Err(());
                    },
                };
                let result = (v << 1u8) | (v >> 7u8);
                self.set_cb_flags(result == 0, v & 0x80 != 0);
                match self.set_r8(&target, result) {
                    Ok(()) => Ok(clock),
                    Err(()) => Err(()),
                }
            },
            CBInstruction::RRC(target) => {
                let v = match self.get_r8(&target) {
                    Ok(v) => v,
                    Err(()) => {
                        return Err(());
                    },
                };
                let result = (v >> 1u8) | (v << 7u8);
                self.set_cb_flags(result == 0, v & 0x01 != 0);
                match self.set_r8(&target, result) {
                    Ok(()) => Ok(clock),
                    Err(()) => Err(()),
                }
            },
            CBInstruction::RL(target) => {
                let v = match self.get_r8(&target) {
                    Ok(v) => v,
                    Err(()) => {
                        return Err(());
                    },
                };
                let cbit: u8 = if self.regs.f.carry {
                    1
                } else {
                    0
                };
                let result = (v << 1u8) | cbit;
                self.set_cb_flags(result == 0, v & 0x80 != 0);
                match self.set_r8(&target, result) {
                    Ok(()) => Ok(clock),
                    Err(()) => Err(()),
                }
            },
            CBInstruction::RR(target) => {
                let v = match self.get_r8(&target) {
                    Ok(v) => v,
                    Err(()) => {
                        return Err(());
                    },
                };
                let cbit: u8 = if self.regs.f.carry {
                    1
                } else {
                    0
                };
                let result = (v >> 1u8) | (cbit << 7u8);
                self.set_cb_flags(result == 0, v & 0x01 != 0);
                match self.set_r8(&target, result) {
                    Ok(()) => Ok(clock),
                    Err(()) => Err(()),
                }
            },
            CBInstruction::SLA(target) => {
                let v = match self.get_r8(&target) {
                    Ok(v) => v,
                    Err(()) => {
                        return Err(());
                    },
                };
                let result = v << 1u8;
                self.set_cb_flags(result == 0, v & 0x80 != 0);
                match self.set_r8(&target, result) {
                    Ok(()) => Ok(clock),
                    Err(()) => Err(()),
                }
            },
            CBInstruction::SRA(target) => {
                let v = match self.get_r8(&target) {
                    Ok(v) => v,
                    Err(()) => {
                        return Err(());
                    },
                };
                let result = (v >> 1u8) | (v & 0x80);
                self.set_cb_flags(result == 0, v & 0x01 != 0);
                match self.set_r8(&target, result) {
                    Ok(()) => Ok(clock),
                    Err(()) => Err(()),
                }
            },
            CBInstruction::SWAP(target) => {
                let v = match self.get_r8(&target) {
                    Ok(v) => v,
                    Err(()) => {
                        return Err(());
                    },
                };
                let result = (v << 4u8) | (v >> 4u8);
                self.set_cb_flags(result == 0, false);
                match self.set_r8(&target, result) {
                    Ok(()) => Ok(clock),
                    Err(()) => Err(()),
                }
            },
            CBInstruction::SRL(target) => {
                let v = match self.get_r8(&target) {
                    Ok(v) => v,
                    Err(()) => {
                        return Err(());
                    },
                };
                let result = v >> 1u8;
                self.set_cb_flags(result == 0, v & 0x01 != 0);
                match self.set_r8(&target, result) {
                    Ok(()) => Ok(clock),
                    Err(()) => Err(()),
                }
            },
            CBInstruction::BIT(target, offset) => {
                let v = match self.get_r8(&target) {
                    Ok(v) => v,
                    Err(()) => {
                        return Err(());
                    },
                };
                self.regs.f.zero = (v >> offset) & 0x01 == 0;
                self.regs.f.subtract = false;
                self.regs.f.half_carry = true;
                Ok(clock)
            },
            CBInstruction::RES(target, offset) => {
                let v = match self.get_r8(&target) {
                    Ok(v) => v,
                    Err(()) => {
                        return Err(());
                    },
                };
                match self.set_r8(&target, v & !(1u8 << offset)) {
                    Ok(()) => Ok(clock),
                    Err(()) => Err(()),
                }
            },
            CBInstruction::SETB(target, offset) => {
                let v = match self.get_r8(&target) {
                    Ok(v) => v,
                    Err(()) => {
                        return Err(());
                    },
                };
                match self.set_r8(&target, v | (1u8 << offset)) {
                    Ok(()) => Ok(clock),
                    Err(()) => Err(()),
                }
            },
        }
    }

    /// Writes the flag pattern shared by the 0xCB shifts and rotates, as
    /// `cb_flags` describes.
    fn set_cb_flags(&mut self, zero: bool, carry: bool)
        ensures
            final(self)@ == cb_flags(old(self)@, zero, carry),
    {
        self.regs.f.zero = zero;
        self.regs.f.subtract = false;
        self.regs.f.half_carry = false;
        self.regs.f.carry = carry;
    }

    /// Fetches, decodes and executes one instruction (following the 0xCB
    /// prefix to the second table) and returns its cycles, as `exec_one_s`
    /// describes.
    fn exec_one_instruction(&mut self) -> (r: Result<u64, ()>)
        requires
            cpu_wf(old(self)@),
        ensures
            cpu_wf(final(self)@),
            match exec_one_s(old(self)@) {
                Ok((c, clk)) => r == Ok::<u64, ()>(clk) && final(self)@ == c && clk <= 24,
                Err(()) => r is Err,
            },
    {
        let byte = match self.fetch() {
            Ok(b) => b as u8,
            Err(()) => {
                return Err(());
            },
        };
        if byte == 0xcb {
            let byte2 = match self.fetch() {
                Ok(b) => b as u8,
                Err(()) => {
                    return Err(());
                },
            };
            let inst = CBInstruction::from_byte(byte2);
            proof {
                lemma_decode_cb_wf(byte2);
            }
            self.execute_cb(inst)
        } else {
            match Instruction::from_byte(byte) {
                Some(inst) => self.execute(inst),
                None => Err(()),
            }
        }
    }

    /// Serves the highest-priority pending-and-enabled interrupt, as
    /// `handle_int_s` describes, and returns the cycles the service took
    /// (0 when nothing was served).
    fn handle_interrupt(&mut self) -> (r: Result<u64, ()>)
        requires
            cpu_wf(old(self)@),
        ensures
            cpu_wf(final(self)@),
            match handle_int_s(old(self)@) {
                Ok((c, clk)) => r == Ok::<u64, ()>(clk) && final(self)@ == c && clk <= 20,
                Err(()) => r is Err,
            },
    {
        if self.bus.interruptenb.vblank && self.bus.gpu.is_interrupt {
            self.bus.gpu.is_interrupt = false;
            self.interrupt_state = InterruptState::IDisable;
            match self.bus.store16(self.sp.wrapping_sub(1), self.pc) {
                Ok(()) => {},
                Err(()) => {
                    return Err(());
                },
            }
            self.sp = self.sp.wrapping_sub(2);
            self.pc = 0x40;
            Ok(20)
        } else if self.bus.interruptenb.timer && self.bus.timer.is_interrupt {
            self.bus.timer.is_interrupt = false;
            self.interrupt_state = InterruptState::IDisable;
            match self.bus.store16(self.sp.wrapping_sub(1), self.pc) {
                Ok(()) => {},
                Err(()) => {
                    return Err(());
                },
            }
            self.sp = self.sp.wrapping_sub(2);
            self.pc = 0x50;
            Ok(20)
        } else {
            Ok(0)
        }
    }

    /// Runs one whole machine step, as `step_s` describes: one
    /// instruction, device time-keeping, interrupt service, and the
    /// deferred EI/DI commit.
    pub fn step(&mut self) -> (r: Result<(), ()>)
        requires
            cpu_wf(old(self)@),
        ensures
            cpu_wf(final(self)@),
            match step_s(old(self)@) {
                Ok(c) => r is Ok && final(self)@ == c,
                Err(()) => r is Err,
            },
    {
        proof {
            reveal(crate::cpu::step_s);
        }
        let clock = match self.exec_one_instruction() {
            Ok(c) => c,
            Err(()) => {
                return Err(());
            },
        };
        self.bus.gpu.update(clock);
        self.bus.timer.update(clock);
        if matches!(self.interrupt_state, InterruptState::IEnable | InterruptState::IDisableNext) {
            let iclock = match self.handle_interrupt() {
                Ok(c) => c,
                Err(()) => {
                    return Err(());
                },
            };
            self.bus.gpu.update(iclock);
            self.bus.timer.update(iclock);
        }
        self.interrupt_state = match self.interrupt_state {
            InterruptState::IDisableNext => InterruptState::IDisable,
            InterruptState::IEnableNext => InterruptState::IEnable,
            _ => self.interrupt_state,
        };
        Ok(())
    }
}


/// Renders the register dump line. Relies on the format! macro of std for
/// hexadecimal formatting; nothing is promised of the text.
#[verifier::external_body]
fn fmt_state(pc: u16, sp: u16, a: u8, f: u8, b: u8, c: u8, d: u8, e: u8, h: u8, l: u8) -> String {
    format!(
        "PC:{:04X} SP:{:04X} AF:{:02X}{:02X} BC:{:02X}{:02X} DE:{:02X}{:02X} HL:{:02X}{:02X}",
        pc, sp, a, f, b, c, d, e, h, l,
    )
}

impl Cpu {
    /// A one-line diagnostic dump of PC, SP and the register pairs.
    pub fn dump(&self) -> String {
        let f = self.regs.f.to_byte();
        fmt_state(
            self.pc,
            self.sp,
            self.regs.a,
            f,
            self.regs.b,
            self.regs.c,
            self.regs.d,
            self.regs.e,
            self.regs.h,
            self.regs.l,
        )
    }
}

} // verus!
