//! Instruction decoder: the primary opcode table, the 0xCB-prefixed table,
//! and the per-instruction length and base cycle cost.
//!
//! The decoded form carries operands structurally. `len` counts the bytes an
//! instruction occupies including its opcode; `clock` is the T-cycle cost of
//! the not-taken path, and the executor adds the extra cycles of taken
//! branches.

use vstd::prelude::*;

verus! {

/// An operand of an 8- or 16-bit operation: a register, a register pair, a
/// pair-addressed memory cell (with post-increment and post-decrement forms
/// for HL), or the immediate byte that follows the opcode.
#[derive(Debug, Clone, Copy, PartialEq, Eq, Structural)]
pub enum Target {
    A,
    B,
    C,
    D,
    E,
    H,
    L,
    AF,
    BC,
    DE,
    HL,
    HLINC,
    HLDEC,
    SP,
    D8,
}

/// A branch condition, evaluated against the Z and C flags.
#[derive(Debug, Clone, Copy, PartialEq, Eq, Structural)]
pub enum Condition {
    NotZero,
    Zero,
    NotCarry,
    Carry,
    Always,
}

/// A decoded primary-table instruction.
#[derive(Debug, Clone, Copy, PartialEq, Eq, Structural)]
pub enum Instruction {
    NOP,
    JP(Condition),
    JPHL,
    DI,
    EI,
    LDIMM16(Target),
    LDIMM8(Target),
    LD16A,
    LDA16,
    LDA16SP,
    LDSPHL,
    LD8A,
    LDA8,
    LDCA,
    LDAC,
    LDRR(Target, Target),
    CALL(Condition),
    RET(Condition),
    RETI,
    PUSH(Target),
    POP(Target),
    JR(Condition),
    INC16(Target),
    DEC16(Target),
    INC8(Target),
    DEC8(Target),
    ADD(Target),
    ADC(Target),
    SUB(Target),
    SBC(Target),
    AND(Target),
    XOR(Target),
    OR(Target),
    CMP(Target),
    RST(u16),
    CPL,
    CCF,
    ADDHL(Target),
    RRA,
    RRCA,
    RLA,
    DAA,
    RLCA,
    SCF,
    HALT,
    STOP,
    ADDSP,
    LDHLSP,
}

/// A decoded 0xCB-prefixed instruction; this table is total. `BIT`, `RES`
/// and `SETB` carry the bit index 0..=7 beside the target.
#[derive(Debug, Clone, Copy, PartialEq, Eq, Structural)]
pub enum CBInstruction {
    RLC(Target),
    RRC(Target),
    RL(Target),
    RR(Target),
    SLA(Target),
    SRA(Target),
    SWAP(Target),
    SRL(Target),
    BIT(Target, u8),
    RES(Target, u8),
    SETB(Target, u8),
}

/// The register operand encoded in the low three bits of a 0xCB opcode.
pub open spec fn spec_cb_target(sel: u8) -> Target {
    if sel == 0 {
        Target::B
    } else if sel == 1 {
        Target::C
    } else if sel == 2 {
        Target::D
    } else if sel == 3 {
        Target::E
    } else if sel == 4 {
        Target::H
    } else if sel == 5 {
        Target::L
    } else if sel == 6 {
        Target::HL
    } else {
        Target::A
    }
}

/// The 0xCB table: the high five bits select the operation (and, for BIT,
/// RES and SETB, the bit index), the low three bits select the target.
pub open spec fn spec_decode_cb(byte: u8) -> CBInstruction {
    let t = spec_cb_target(byte % 8);
    let op = byte / 8;
    if op == 0 {
        CBInstruction::RLC(t)
    } else if op == 1 {
        CBInstruction::RRC(t)
    } else if op == 2 {
        CBInstruction::RL(t)
    } else if op == 3 {
        CBInstruction::RR(t)
    } else if op == 4 {
        CBInstruction::SLA(t)
    } else if op == 5 {
        CBInstruction::SRA(t)
    } else if op == 6 {
        CBInstruction::SWAP(t)
    } else if op == 7 {
        CBInstruction::SRL(t)
    } else if op < 16 {
        CBInstruction::BIT(t, (op - 8) as u8)
    } else if op < 24 {
        CBInstruction::RES(t, (op - 16) as u8)
    } else {
        CBInstruction::SETB(t, (op - 24) as u8)
    }
}

impl CBInstruction {
    /// Decodes a 0xCB-prefixed opcode byte; every byte is a valid entry.
    pub fn from_byte(byte: u8) -> (r: CBInstruction)
        ensures
            r == spec_decode_cb(byte),
    {
        let t = match byte % 8 {
            0 => Target::B,
            1 => Target::C,
            2 => Target::D,
            3 => Target::E,
            4 => Target::H,
            5 => Target::L,
            6 => Target::HL,
            _ => Target::A,
        };
        let op = byte / 8;
        if op < 8 {
            match op {
                0 => CBInstruction::RLC(t),
                1 => CBInstruction::RRC(t),
                2 => CBInstruction::RL(t),
                3 => CBInstruction::RR(t),
                4 => CBInstruction::SLA(t),
                5 => CBInstruction::SRA(t),
                6 => CBInstruction::SWAP(t),
                _ => CBInstruction::SRL(t),
            }
        } else if op < 16 {
            CBInstruction::BIT(t, op - 8)
        } else if op < 24 {
            CBInstruction::RES(t, op - 16)
        } else {
            CBInstruction::SETB(t, op - 24)
        }
    }

    /// The T-cycle cost of a 0xCB-prefixed instruction.
    pub open spec fn spec_clock(self) -> u32 {
        match self {
            CBInstruction::RLC(t) => if t is HL { 16 } else { 8 },
            CBInstruction::RRC(t) => if t is HL { 16 } else { 8 },
            CBInstruction::RL(t) => if t is HL { 16 } else { 8 },
            CBInstruction::RR(t) => if t is HL { 16 } else { 8 },
            CBInstruction::SLA(t) => if t is HL { 16 } else { 8 },
            CBInstruction::SRA(t) => if t is HL { 16 } else { 8 },
            CBInstruction::SWAP(t) => if t is HL { 16 } else { 8 },
            CBInstruction::SRL(t) => if t is HL { 16 } else { 8 },
            CBInstruction::BIT(t, _) => if t is HL { 12 } else { 8 },
            CBInstruction::RES(t, _) => if t is HL { 16 } else { 8 },
            CBInstruction::SETB(t, _) => if t is HL { 16 } else { 8 },
        }
    }

    /// Returns the T-cycle cost: 8 on a register, 16 on (HL), except BIT
    /// which reads (HL) in 12.
    pub fn clock(&self) -> (r: u32)
        ensures
            r == self.spec_clock(),
    {
        match self {
            CBInstruction::BIT(t, _) => if matches!(t, Target::HL) { 12 } else { 8 },
            CBInstruction::RLC(t) | CBInstruction::RRC(t) | CBInstruction::RL(t)
                | CBInstruction::RR(t) | CBInstruction::SLA(t) | CBInstruction::SRA(t)
                | CBInstruction::SWAP(t) | CBInstruction::SRL(t) | CBInstruction::RES(t, _)
                | CBInstruction::SETB(t, _) => if matches!(t, Target::HL) { 16 } else { 8 },
        }
    }
}

/// The primary opcode table; a byte with no entry does not decode and the
/// caller surfaces the failure.
pub open spec fn spec_decode(byte: u8) -> Option<Instruction> {
    match byte {
        0x00 => Some(Instruction::NOP),
        0x01 => Some(Instruction::LDIMM16(Target::BC)),
        0x02 => Some(Instruction::LDRR(Target::A, Target::BC)),
        0x03 => Some(Instruction::INC16(Target::BC)),
        0x04 => Some(Instruction::INC8(Target::B)),
        0x05 => Some(Instruction::DEC8(Target::B)),
        0x06 => Some(Instruction::LDIMM8(Target::B)),
        0x07 => Some(Instruction::RLCA),
        0x08 => Some(Instruction::LDA16SP),
        0x09 => Some(Instruction::ADDHL(Target::BC)),
        0x0a => Some(Instruction::LDRR(Target::BC, Target::A)),
        0x0b => Some(Instruction::DEC16(Target::BC)),
        0x0c => Some(Instruction::INC8(Target::C)),
        0x0d => Some(Instruction::DEC8(Target::C)),
        0x0e => Some(Instruction::LDIMM8(Target::C)),
        0x0f => Some(Instruction::RRCA),
        0x10 => Some(Instruction::STOP),
        0x11 => Some(Instruction::LDIMM16(Target::DE)),
        0x12 => Some(Instruction::LDRR(Target::A, Target::DE)),
        0x13 => Some(Instruction::INC16(Target::DE)),
        0x14 => Some(Instruction::INC8(Target::D)),
        0x15 => Some(Instruction::DEC8(Target::D)),
        0x16 => Some(Instruction::LDIMM8(Target::D)),
        0x17 => Some(Instruction::RLA),
        0x18 => Some(Instruction::JR(Condition::Always)),
        0x19 => Some(Instruction::ADDHL(Target::DE)),
        0x1a => Some(Instruction::LDRR(Target::DE, Target::A)),
        0x1b => Some(Instruction::DEC16(Target::DE)),
        0x1c => Some(Instruction::INC8(Target::E)),
        0x1d => Some(Instruction::DEC8(Target::E)),
        0x1e => Some(Instruction::LDIMM8(Target::E)),
        0x1f => Some(Instruction::RRA),
        0x20 => Some(Instruction::JR(Condition::NotZero)),
        0x21 => Some(Instruction::LDIMM16(Target::HL)),
        0x22 => Some(Instruction::LDRR(Target::A, Target::HLINC)),
        0x23 => Some(Instruction::INC16(Target::HL)),
        0x24 => Some(Instruction::INC8(Target::H)),
        0x25 => Some(Instruction::DEC8(Target::H)),
        0x26 => Some(Instruction::LDIMM8(Target::H)),
        0x27 => Some(Instruction::DAA),
        0x28 => Some(Instruction::JR(Condition::Zero)),
        0x29 => Some(Instruction::ADDHL(Target::HL)),
        0x2a => Some(Instruction::LDRR(Target::HLINC, Target::A)),
        0x2b => Some(Instruction::DEC16(Target::HL)),
        0x2c => Some(Instruction::INC8(Target::L)),
        0x2d => Some(Instruction::DEC8(Target::L)),
        0x2e => Some(Instruction::LDIMM8(Target::L)),
        0x2f => Some(Instruction::CPL),
        0x30 => Some(Instruction::JR(Condition::NotCarry)),
        0x31 => Some(Instruction::LDIMM16(Target::SP)),
        0x32 => Some(Instruction::LDRR(Target::A, Target::HLDEC)),
        0x33 => Some(Instruction::INC16(Target::SP)),
        0x34 => Some(Instruction::INC8(Target::HL)),
        0x35 => Some(Instruction::DEC8(Target::HL)),
        0x36 => Some(Instruction::LDIMM8(Target::HL)),
        0x37 => Some(Instruction::SCF),
        0x38 => Some(Instruction::JR(Condition::Carry)),
        0x39 => Some(Instruction::ADDHL(Target::SP)),
        0x3a => Some(Instruction::LDRR(Target::HLDEC, Target::A)),
        0x3b => Some(Instruction::DEC16(Target::SP)),
        0x3c => Some(Instruction::INC8(Target::A)),
        0x3d => Some(Instruction::DEC8(Target::A)),
        0x3e => Some(Instruction::LDIMM8(Target::A)),
        0x3f => Some(Instruction::CCF),
        0x40 => Some(Instruction::LDRR(Target::B, Target::B)),
        0x41 => Some(Instruction::LDRR(Target::C, Target::B)),
        0x42 => Some(Instruction::LDRR(Target::D, Target::B)),
        0x43 => Some(Instruction::LDRR(Target::E, Target::B)),
        0x44 => Some(Instruction::LDRR(Target::H, Target::B)),
        0x45 => Some(Instruction::LDRR(Target::L, Target::B)),
        0x46 => Some(Instruction::LDRR(Target::HL, Target::B)),
        0x47 => Some(Instruction::LDRR(Target::A, Target::B)),
        0x48 => Some(Instruction::LDRR(Target::B, Target::C)),
        0x49 => Some(Instruction::LDRR(Target::C, Target::C)),
        0x4a => Some(Instruction::LDRR(Target::D, Target::C)),
        0x4b => Some(Instruction::LDRR(Target::E, Target::C)),
        0x4c => Some(Instruction::LDRR(Target::H, Target::C)),
        0x4d => Some(Instruction::LDRR(Target::L, Target::C)),
        0x4e => Some(Instruction::LDRR(Target::HL, Target::C)),
        0x4f => Some(Instruction::LDRR(Target::A, Target::C)),
        0x50 => Some(Instruction::LDRR(Target::B, Target::D)),
        0x51 => Some(Instruction::LDRR(Target::C, Target::D)),
        0x52 => Some(Instruction::LDRR(Target::D, Target::D)),
        0x53 => Some(Instruction::LDRR(Target::E, Target::D)),
        0x54 => Some(Instruction::LDRR(Target::H, Target::D)),
        0x55 => Some(Instruction::LDRR(Target::L, Target::D)),
        0x56 => Some(Instruction::LDRR(Target::HL, Target::D)),
        0x57 => Some(Instruction::LDRR(Target::A, Target::D)),
        0x58 => Some(Instruction::LDRR(Target::B, Target::E)),
        0x59 => Some(Instruction::LDRR(Target::C, Target::E)),
        0x5a => Some(Instruction::LDRR(Target::D, Target::E)),
        0x5b => Some(Instruction::LDRR(Target::E, Target::E)),
        0x5c => Some(Instruction::LDRR(Target::H, Target::E)),
        0x5d => Some(Instruction::LDRR(Target::L, Target::E)),
        0x5e => Some(Instruction::LDRR(Target::HL, Target::E)),
        0x5f => Some(Instruction::LDRR(Target::A, Target::E)),
        0x60 => Some(Instruction::LDRR(Target::B, Target::H)),
        0x61 => Some(Instruction::LDRR(Target::C, Target::H)),
        0x62 => Some(Instruction::LDRR(Target::D, Target::H)),
        0x63 => Some(Instruction::LDRR(Target::E, Target::H)),
        0x64 => Some(Instruction::LDRR(Target::H, Target::H)),
        0x65 => Some(Instruction::LDRR(Target::L, Target::H)),
        0x66 => Some(Instruction::LDRR(Target::HL, Target::H)),
        0x67 => Some(Instruction::LDRR(Target::A, Target::H)),
        0x68 => Some(Instruction::LDRR(Target::B, Target::L)),
        0x69 => Some(Instruction::LDRR(Target::C, Target::L)),
        0x6a => Some(Instruction::LDRR(Target::D, Target::L)),
        0x6b => Some(Instruction::LDRR(Target::E, Target::L)),
        0x6c => Some(Instruction::LDRR(Target::H, Target::L)),
        0x6d => Some(Instruction::LDRR(Target::L, Target::L)),
        0x6e => Some(Instruction::LDRR(Target::HL, Target::L)),
        0x6f => Some(Instruction::LDRR(Target::A, Target::L)),
        0x70 => Some(Instruction::LDRR(Target::B, Target::HL)),
        0x71 => Some(Instruction::LDRR(Target::C, Target::HL)),
        0x72 => Some(Instruction::LDRR(Target::D, Target::HL)),
        0x73 => Some(Instruction::LDRR(Target::E, Target::HL)),
        0x74 => Some(Instruction::LDRR(Target::H, Target::HL)),
        0x75 => Some(Instruction::LDRR(Target::L, Target::HL)),
        0x76 => Some(Instruction::HALT),
        0x77 => Some(Instruction::LDRR(Target::A, Target::HL)),
        0x78 => Some(Instruction::LDRR(Target::B, Target::A)),
        0x79 => Some(Instruction::LDRR(Target::C, Target::A)),
        0x7a => Some(Instruction::LDRR(Target::D, Target::A)),
        0x7b => Some(Instruction::LDRR(Target::E, Target::A)),
        0x7c => Some(Instruction::LDRR(Target::H, Target::A)),
        0x7d => Some(Instruction::LDRR(Target::L, Target::A)),
        0x7e => Some(Instruction::LDRR(Target::HL, Target::A)),
        0x7f => Some(Instruction::LDRR(Target::A, Target::A)),
        0x80 => Some(Instruction::ADD(Target::B)),
        0x81 => Some(Instruction::ADD(Target::C)),
        0x82 => Some(Instruction::ADD(Target::D)),
        0x83 => Some(Instruction::ADD(Target::E)),
        0x84 => Some(Instruction::ADD(Target::H)),
        0x85 => Some(Instruction::ADD(Target::L)),
        0x86 => Some(Instruction::ADD(Target::HL)),
        0x87 => Some(Instruction::ADD(Target::A)),
        0x88 => Some(Instruction::ADC(Target::B)),
        0x89 => Some(Instruction::ADC(Target::C)),
        0x8a => Some(Instruction::ADC(Target::D)),
        0x8b => Some(Instruction::ADC(Target::E)),
        0x8c => Some(Instruction::ADC(Target::H)),
        0x8d => Some(Instruction::ADC(Target::L)),
        0x8e => Some(Instruction::ADC(Target::HL)),
        0x8f => Some(Instruction::ADC(Target::A)),
        0x90 => Some(Instruction::SUB(Target::B)),
        0x91 => Some(Instruction::SUB(Target::C)),
        0x92 => Some(Instruction::SUB(Target::D)),
        0x93 => Some(Instruction::SUB(Target::E)),
        0x94 => Some(Instruction::SUB(Target::H)),
        0x95 => Some(Instruction::SUB(Target::L)),
        0x96 => Some(Instruction::SUB(Target::HL)),
        0x97 => Some(Instruction::SUB(Target::A)),
        0x98 => Some(Instruction::SBC(Target::B)),
        0x99 => Some(Instruction::SBC(Target::C)),
        0x9a => Some(Instruction::SBC(Target::D)),
        0x9b => Some(Instruction::SBC(Target::E)),
        0x9c => Some(Instruction::SBC(Target::H)),
        0x9d => Some(Instruction::SBC(Target::L)),
        0x9e => Some(Instruction::SBC(Target::HL)),
        0x9f => Some(Instruction::SBC(Target::A)),
        0xa0 => Some(Instruction::AND(Target::B)),
        0xa1 => Some(Instruction::AND(Target::C)),
        0xa2 => Some(Instruction::AND(Target::D)),
        0xa3 => Some(Instruction::AND(Target::E)),
        0xa4 => Some(Instruction::AND(Target::H)),
        0xa5 => Some(Instruction::AND(Target::L)),
        0xa6 => Some(Instruction::AND(Target::HL)),
        0xa7 => Some(Instruction::AND(Target::A)),
        0xa8 => Some(Instruction::XOR(Target::B)),
        0xa9 => Some(Instruction::XOR(Target::C)),
        0xaa => Some(Instruction::XOR(Target::D)),
        0xab => Some(Instruction::XOR(Target::E)),
        0xac => Some(Instruction::XOR(Target::H)),
        0xad => Some(Instruction::XOR(Target::L)),
        0xae => Some(Instruction::XOR(Target::HL)),
        0xaf => Some(Instruction::XOR(Target::A)),
        0xb0 => Some(Instruction::OR(Target::B)),
        0xb1 => Some(Instruction::OR(Target::C)),
        0xb2 => Some(Instruction::OR(Target::D)),
        0xb3 => Some(Instruction::OR(Target::E)),
        0xb4 => Some(Instruction::OR(Target::H)),
        0xb5 => Some(Instruction::OR(Target::L)),
        0xb6 => Some(Instruction::OR(Target::HL)),
        0xb7 => Some(Instruction::OR(Target::A)),
        0xb8 => Some(Instruction::CMP(Target::B)),
        0xb9 => Some(Instruction::CMP(Target::C)),
        0xba => Some(Instruction::CMP(Target::D)),
        0xbb => Some(Instruction::CMP(Target::E)),
        0xbc => Some(Instruction::CMP(Target::H)),
        0xbd => Some(Instruction::CMP(Target::L)),
        0xbe => Some(Instruction::CMP(Target::HL)),
        0xbf => Some(Instruction::CMP(Target::A)),
        0xc0 => Some(Instruction::RET(Condition::NotZero)),
        0xc1 => Some(Instruction::POP(Target::BC)),
        0xc2 => Some(Instruction::JP(Condition::NotZero)),
        0xc3 => Some(Instruction::JP(Condition::Always)),
        0xc4 => Some(Instruction::CALL(Condition::NotZero)),
        0xc5 => Some(Instruction::PUSH(Target::BC)),
        0xc6 => Some(Instruction::ADD(Target::D8)),
        0xc7 => Some(Instruction::RST(0x00)),
        0xc8 => Some(Instruction::RET(Condition::Zero)),
        0xc9 => Some(Instruction::RET(Condition::Always)),
        0xca => Some(Instruction::JP(Condition::Zero)),
        0xcc => Some(Instruction::CALL(Condition::Zero)),
        0xcd => Some(Instruction::CALL(Condition::Always)),
        0xce => Some(Instruction::ADC(Target::D8)),
        0xcf => Some(Instruction::RST(0x08)),
        0xd0 => Some(Instruction::RET(Condition::NotCarry)),
        0xd1 => Some(Instruction::POP(Target::DE)),
        0xd2 => Some(Instruction::JP(Condition::NotCarry)),
        0xd4 => Some(Instruction::CALL(Condition::NotCarry)),
        0xd5 => Some(Instruction::PUSH(Target::DE)),
        0xd6 => Some(Instruction::SUB(Target::D8)),
        0xd7 => Some(Instruction::RST(0x10)),
        0xd8 => Some(Instruction::RET(Condition::Carry)),
        0xd9 => Some(Instruction::RETI),
        0xda => Some(Instruction::JP(Condition::Carry)),
        0xdc => Some(Instruction::CALL(Condition::Carry)),
        0xde => Some(Instruction::SBC(Target::D8)),
        0xdf => Some(Instruction::RST(0x18)),
        0xe0 => Some(Instruction::LD8A),
        0xe1 => Some(Instruction::POP(Target::HL)),
        0xe2 => Some(Instruction::LDCA),
        0xe5 => Some(Instruction::PUSH(Target::HL)),
        0xe6 => Some(Instruction::AND(Target::D8)),
        0xe7 => Some(Instruction::RST(0x20)),
        0xe8 => Some(Instruction::ADDSP),
        0xe9 => Some(Instruction::JPHL),
        0xea => Some(Instruction::LD16A),
        0xee => Some(Instruction::XOR(Target::D8)),
        0xef => Some(Instruction::RST(0x28)),
        0xf0 => Some(Instruction::LDA8),
        0xf1 => Some(Instruction::POP(Target::AF)),
        0xf2 => Some(Instruction::LDAC),
        0xf3 => Some(Instruction::DI),
        0xf5 => Some(Instruction::PUSH(Target::AF)),
        0xf6 => Some(Instruction::OR(Target::D8)),
        0xf7 => Some(Instruction::RST(0x30)),
        0xf8 => Some(Instruction::LDHLSP),
        0xf9 => Some(Instruction::LDSPHL),
        0xfa => Some(Instruction::LDA16),
        0xfb => Some(Instruction::EI),
        0xfe => Some(Instruction::CMP(Target::D8)),
        0xff => Some(Instruction::RST(0x38)),
        _ => None,
    }
}

/// The byte length of an instruction, opcode included.
pub open spec fn spec_len(inst: Instruction) -> u16 {
    match inst {
        Instruction::NOP => 1,
        Instruction::JP(_) => 3,
        Instruction::JPHL => 1,
        Instruction::DI => 1,
        Instruction::EI => 1,
        Instruction::LDIMM16(_) => 3,
        Instruction::LDIMM8(_) => 2,
        Instruction::LD16A => 3,
        Instruction::LDA16 => 3,
        Instruction::LDA16SP => 3,
        Instruction::LDSPHL => 1,
        Instruction::LD8A => 2,
        Instruction::LDA8 => 2,
        Instruction::LDCA => 1,
        Instruction::LDAC => 1,
        Instruction::LDRR(_, _) => 1,
        Instruction::CALL(_) => 3,
        Instruction::RET(_) => 1,
        Instruction::RETI => 1,
        Instruction::PUSH(_) => 1,
        Instruction::POP(_) => 1,
        Instruction::JR(_) => 2,
        Instruction::INC16(_) => 1,
        Instruction::DEC16(_) => 1,
        Instruction::INC8(_) => 1,
        Instruction::DEC8(_) => 1,
        Instruction::ADD(t) => if t is D8 { 2 } else { 1 },
        Instruction::ADC(t) => if t is D8 { 2 } else { 1 },
        Instruction::SUB(t) => if t is D8 { 2 } else { 1 },
        Instruction::SBC(t) => if t is D8 { 2 } else { 1 },
        Instruction::AND(t) => if t is D8 { 2 } else { 1 },
        Instruction::XOR(t) => if t is D8 { 2 } else { 1 },
        Instruction::OR(t) => if t is D8 { 2 } else { 1 },
        Instruction::CMP(t) => if t is D8 { 2 } else { 1 },
        Instruction::RST(_) => 1,
        Instruction::CPL => 1,
        Instruction::CCF => 1,
        Instruction::ADDHL(_) => 1,
        Instruction::RRA => 1,
        Instruction::RRCA => 1,
        Instruction::RLA => 1,
        Instruction::DAA => 1,
        Instruction::RLCA => 1,
        Instruction::SCF => 1,
        Instruction::HALT => 1,
        Instruction::STOP => 1,
        Instruction::ADDSP => 2,
        Instruction::LDHLSP => 2,
    }
}

/// Whether a target names a memory operand or the immediate byte, which
/// makes an 8-bit ALU or load step cost 8 T-cycles instead of 4.
pub open spec fn spec_costs_memory(t: Target) -> bool {
    t is D8 || t is HL || t is BC || t is DE || t is HLINC || t is HLDEC
}

/// The base (not-taken) T-cycle cost of an instruction.
pub open spec fn spec_clock(inst: Instruction) -> u32 {
    match inst {
        Instruction::NOP => 4,
        Instruction::JP(_) => 12,
        Instruction::JPHL => 4,
        Instruction::DI => 4,
        Instruction::EI => 4,
        Instruction::LDIMM16(_) => 12,
        Instruction::LDIMM8(t) => if t is HL { 12 } else { 8 },
        Instruction::LD16A => 16,
        Instruction::LDA16 => 16,
        Instruction::LDA16SP => 20,
        Instruction::LDSPHL => 8,
        Instruction::LD8A => 12,
        Instruction::LDA8 => 12,
        Instruction::LDCA => 8,
        Instruction::LDAC => 8,
        Instruction::LDRR(s, t) => if spec_costs_memory(s) || spec_costs_memory(t) { 8 } else { 4 },
        Instruction::CALL(_) => 12,
        Instruction::RET(_) => 8,
        Instruction::RETI => 16,
        Instruction::PUSH(_) => 16,
        Instruction::POP(_) => 12,
        Instruction::JR(_) => 8,
        Instruction::INC16(_) => 8,
        Instruction::DEC16(_) => 8,
        Instruction::INC8(t) => if t is HL { 12 } else { 4 },
        Instruction::DEC8(t) => if t is HL { 12 } else { 4 },
        Instruction::ADD(t) => if spec_costs_memory(t) { 8 } else { 4 },
        Instruction::ADC(t) => if spec_costs_memory(t) { 8 } else { 4 },
        Instruction::SUB(t) => if spec_costs_memory(t) { 8 } else { 4 },
        Instruction::SBC(t) => if spec_costs_memory(t) { 8 } else { 4 },
        Instruction::AND(t) => if spec_costs_memory(t) { 8 } else { 4 },
        Instruction::XOR(t) => if spec_costs_memory(t) { 8 } else { 4 },
        Instruction::OR(t) => if spec_costs_memory(t) { 8 } else { 4 },
        Instruction::CMP(t) => if spec_costs_memory(t) { 8 } else { 4 },
        Instruction::RST(_) => 16,
        Instruction::CPL => 4,
        Instruction::CCF => 4,
        Instruction::ADDHL(_) => 8,
        Instruction::RRA => 4,
        Instruction::RRCA => 4,
        Instruction::RLA => 4,
        Instruction::DAA => 4,
        Instruction::RLCA => 4,
        Instruction::SCF => 4,
        Instruction::HALT => 4,
        Instruction::STOP => 4,
        Instruction::ADDSP => 16,
        Instruction::LDHLSP => 12,
    }
}

/// Whether an instruction can set PC by itself; every other instruction
/// leaves PC to the executor's length-based advance.
pub open spec fn spec_branches(inst: Instruction) -> bool {
    match inst {
        Instruction::JP(_) => true,
        Instruction::JPHL => true,
        Instruction::JR(_) => true,
        Instruction::CALL(_) => true,
        Instruction::RET(_) => true,
        Instruction::RETI => true,
        Instruction::RST(_) => true,
        _ => false,
    }
}
impl Instruction {
    /// Decodes a primary-table opcode byte; an unknown byte yields `None`.
    pub fn from_byte(byte: u8) -> (r: Option<Instruction>)
        ensures
            r == spec_decode(byte),
    {
        match byte {
            0x00 => Some(Instruction::NOP),
            0x01 => Some(Instruction::LDIMM16(Target::BC)),
            0x02 => Some(Instruction::LDRR(Target::A, Target::BC)),
            0x03 => Some(Instruction::INC16(Target::BC)),
            0x04 => Some(Instruction::INC8(Target::B)),
            0x05 => Some(Instruction::DEC8(Target::B)),
            0x06 => Some(Instruction::LDIMM8(Target::B)),
            0x07 => Some(Instruction::RLCA),
            0x08 => Some(Instruction::LDA16SP),
            0x09 => Some(Instruction::ADDHL(Target::BC)),
            0x0a => Some(Instruction::LDRR(Target::BC, Target::A)),
            0x0b => Some(Instruction::DEC16(Target::BC)),
            0x0c => Some(Instruction::INC8(Target::C)),
            0x0d => Some(Instruction::DEC8(Target::C)),
            0x0e => Some(Instruction::LDIMM8(Target::C)),
            0x0f => Some(Instruction::RRCA),
            0x10 => Some(Instruction::STOP),
            0x11 => Some(Instruction::LDIMM16(Target::DE)),
            0x12 => Some(Instruction::LDRR(Target::A, Target::DE)),
            0x13 => Some(Instruction::INC16(Target::DE)),
            0x14 => Some(Instruction::INC8(Target::D)),
            0x15 => Some(Instruction::DEC8(Target::D)),
            0x16 => Some(Instruction::LDIMM8(Target::D)),
            0x17 => Some(Instruction::RLA),
            0x18 => Some(Instruction::JR(Condition::Always)),
            0x19 => Some(Instruction::ADDHL(Target::DE)),
            0x1a => Some(Instruction::LDRR(Target::DE, Target::A)),
            0x1b => Some(Instruction::DEC16(Target::DE)),
            0x1c => Some(Instruction::INC8(Target::E)),
            0x1d => Some(Instruction::DEC8(Target::E)),
            0x1e => Some(Instruction::LDIMM8(Target::E)),
            0x1f => Some(Instruction::RRA),
            0x20 => Some(Instruction::JR(Condition::NotZero)),
            0x21 => Some(Instruction::LDIMM16(Target::HL)),
            0x22 => Some(Instruction::LDRR(Target::A, Target::HLINC)),
            0x23 => Some(Instruction::INC16(Target::HL)),
            0x24 => Some(Instruction::INC8(Target::H)),
            0x25 => Some(Instruction::DEC8(Target::H)),
            0x26 => Some(Instruction::LDIMM8(Target::H)),
            0x27 => Some(Instruction::DAA),
            0x28 => Some(Instruction::JR(Condition::Zero)),
            0x29 => Some(Instruction::ADDHL(Target::HL)),
            0x2a => Some(Instruction::LDRR(Target::HLINC, Target::A)),
            0x2b => Some(Instruction::DEC16(Target::HL)),
            0x2c => Some(Instruction::INC8(Target::L)),
            0x2d => Some(Instruction::DEC8(Target::L)),
            0x2e => Some(Instruction::LDIMM8(Target::L)),
            0x2f => Some(Instruction::CPL),
            0x30 => Some(Instruction::JR(Condition::NotCarry)),
            0x31 => Some(Instruction::LDIMM16(Target::SP)),
            0x32 => Some(Instruction::LDRR(Target::A, Target::HLDEC)),
            0x33 => Some(Instruction::INC16(Target::SP)),
            0x34 => Some(Instruction::INC8(Target::HL)),
            0x35 => Some(Instruction::DEC8(Target::HL)),
            0x36 => Some(Instruction::LDIMM8(Target::HL)),
            0x37 => Some(Instruction::SCF),
            0x38 => Some(Instruction::JR(Condition::Carry)),
            0x39 => Some(Instruction::ADDHL(Target::SP)),
            0x3a => Some(Instruction::LDRR(Target::HLDEC, Target::A)),
            0x3b => Some(Instruction::DEC16(Target::SP)),
            0x3c => Some(Instruction::INC8(Target::A)),
            0x3d => Some(Instruction::DEC8(Target::A)),
            0x3e => Some(Instruction::LDIMM8(Target::A)),
            0x3f => Some(Instruction::CCF),
            0x40 => Some(Instruction::LDRR(Target::B, Target::B)),
            0x41 => Some(Instruction::LDRR(Target::C, Target::B)),
            0x42 => Some(Instruction::LDRR(Target::D, Target::B)),
            0x43 => Some(Instruction::LDRR(Target::E, Target::B)),
            0x44 => Some(Instruction::LDRR(Target::H, Target::B)),
            0x45 => Some(Instruction::LDRR(Target::L, Target::B)),
            0x46 => Some(Instruction::LDRR(Target::HL, Target::B)),
            0x47 => Some(Instruction::LDRR(Target::A, Target::B)),
            0x48 => Some(Instruction::LDRR(Target::B, Target::C)),
            0x49 => Some(Instruction::LDRR(Target::C, Target::C)),
            0x4a => Some(Instruction::LDRR(Target::D, Target::C)),
            0x4b => Some(Instruction::LDRR(Target::E, Target::C)),
            0x4c => Some(Instruction::LDRR(Target::H, Target::C)),
            0x4d => Some(Instruction::LDRR(Target::L, Target::C)),
            0x4e => Some(Instruction::LDRR(Target::HL, Target::C)),
            0x4f => Some(Instruction::LDRR(Target::A, Target::C)),
            0x50 => Some(Instruction::LDRR(Target::B, Target::D)),
            0x51 => Some(Instruction::LDRR(Target::C, Target::D)),
            0x52 => Some(Instruction::LDRR(Target::D, Target::D)),
            0x53 => Some(Instruction::LDRR(Target::E, Target::D)),
            0x54 => Some(Instruction::LDRR(Target::H, Target::D)),
            0x55 => Some(Instruction::LDRR(Target::L, Target::D)),
            0x56 => Some(Instruction::LDRR(Target::HL, Target::D)),
            0x57 => Some(Instruction::LDRR(Target::A, Target::D)),
            0x58 => Some(Instruction::LDRR(Target::B, Target::E)),
            0x59 => Some(Instruction::LDRR(Target::C, Target::E)),
            0x5a => Some(Instruction::LDRR(Target::D, Target::E)),
            0x5b => Some(Instruction::LDRR(Target::E, Target::E)),
            0x5c => Some(Instruction::LDRR(Target::H, Target::E)),
            0x5d => Some(Instruction::LDRR(Target::L, Target::E)),
            0x5e => Some(Instruction::LDRR(Target::HL, Target::E)),
            0x5f => Some(Instruction::LDRR(Target::A, Target::E)),
            0x60 => Some(Instruction::LDRR(Target::B, Target::H)),
            0x61 => Some(Instruction::LDRR(Target::C, Target::H)),
            0x62 => Some(Instruction::LDRR(Target::D, Target::H)),
            0x63 => Some(Instruction::LDRR(Target::E, Target::H)),
            0x64 => Some(Instruction::LDRR(Target::H, Target::H)),
            0x65 => Some(Instruction::LDRR(Target::L, Target::H)),
            0x66 => Some(Instruction::LDRR(Target::HL, Target::H)),
            0x67 => Some(Instruction::LDRR(Target::A, Target::H)),
            0x68 => Some(Instruction::LDRR(Target::B, Target::L)),
            0x69 => Some(Instruction::LDRR(Target::C, Target::L)),
            0x6a => Some(Instruction::LDRR(Target::D, Target::L)),
            0x6b => Some(Instruction::LDRR(Target::E, Target::L)),
            0x6c => Some(Instruction::LDRR(Target::H, Target::L)),
            0x6d => Some(Instruction::LDRR(Target::L, Target::L)),
            0x6e => Some(Instruction::LDRR(Target::HL, Target::L)),
            0x6f => Some(Instruction::LDRR(Target::A, Target::L)),
            0x70 => Some(Instruction::LDRR(Target::B, Target::HL)),
            0x71 => Some(Instruction::LDRR(Target::C, Target::HL)),
            0x72 => Some(Instruction::LDRR(Target::D, Target::HL)),
            0x73 => Some(Instruction::LDRR(Target::E, Target::HL)),
            0x74 => Some(Instruction::LDRR(Target::H, Target::HL)),
            0x75 => Some(Instruction::LDRR(Target::L, Target::HL)),
            0x76 => Some(Instruction::HALT),
            0x77 => Some(Instruction::LDRR(Target::A, Target::HL)),
            0x78 => Some(Instruction::LDRR(Target::B, Target::A)),
            0x79 => Some(Instruction::LDRR(Target::C, Target::A)),
            0x7a => Some(Instruction::LDRR(Target::D, Target::A)),
            0x7b => Some(Instruction::LDRR(Target::E, Target::A)),
            0x7c => Some(Instruction::LDRR(Target::H, Target::A)),
            0x7d => Some(Instruction::LDRR(Target::L, Target::A)),
            0x7e => Some(Instruction::LDRR(Target::HL, Target::A)),
            0x7f => Some(Instruction::LDRR(Target::A, Target::A)),
            0x80 => Some(Instruction::ADD(Target::B)),
            0x81 => Some(Instruction::ADD(Target::C)),
            0x82 => Some(Instruction::ADD(Target::D)),
            0x83 => Some(Instruction::ADD(Target::E)),
            0x84 => Some(Instruction::ADD(Target::H)),
            0x85 => Some(Instruction::ADD(Target::L)),
            0x86 => Some(Instruction::ADD(Target::HL)),
            0x87 => Some(Instruction::ADD(Target::A)),
            0x88 => Some(Instruction::ADC(Target::B)),
            0x89 => Some(Instruction::ADC(Target::C)),
            0x8a => Some(Instruction::ADC(Target::D)),
            0x8b => Some(Instruction::ADC(Target::E)),
            0x8c => Some(Instruction::ADC(Target::H)),
            0x8d => Some(Instruction::ADC(Target::L)),
            0x8e => Some(Instruction::ADC(Target::HL)),
            0x8f => Some(Instruction::ADC(Target::A)),
            0x90 => Some(Instruction::SUB(Target::B)),
            0x91 => Some(Instruction::SUB(Target::C)),
            0x92 => Some(Instruction::SUB(Target::D)),
            0x93 => Some(Instruction::SUB(Target::E)),
            0x94 => Some(Instruction::SUB(Target::H)),
            0x95 => Some(Instruction::SUB(Target::L)),
            0x96 => Some(Instruction::SUB(Target::HL)),
            0x97 => Some(Instruction::SUB(Target::A)),
            0x98 => Some(Instruction::SBC(Target::B)),
            0x99 => Some(Instruction::SBC(Target::C)),
            0x9a => Some(Instruction::SBC(Target::D)),
            0x9b => Some(Instruction::SBC(Target::E)),
            0x9c => Some(Instruction::SBC(Target::H)),
            0x9d => Some(Instruction::SBC(Target::L)),
            0x9e => Some(Instruction::SBC(Target::HL)),
            0x9f => Some(Instruction::SBC(Target::A)),
            0xa0 => Some(Instruction::AND(Target::B)),
            0xa1 => Some(Instruction::AND(Target::C)),
            0xa2 => Some(Instruction::AND(Target::D)),
            0xa3 => Some(Instruction::AND(Target::E)),
            0xa4 => Some(Instruction::AND(Target::H)),
            0xa5 => Some(Instruction::AND(Target::L)),
            0xa6 => Some(Instruction::AND(Target::HL)),
            0xa7 => Some(Instruction::AND(Target::A)),
            0xa8 => Some(Instruction::XOR(Target::B)),
            0xa9 => Some(Instruction::XOR(Target::C)),
            0xaa => Some(Instruction::XOR(Target::D)),
            0xab => Some(Instruction::XOR(Target::E)),
            0xac => Some(Instruction::XOR(Target::H)),
            0xad => Some(Instruction::XOR(Target::L)),
            0xae => Some(Instruction::XOR(Target::HL)),
            0xaf => Some(Instruction::XOR(Target::A)),
            0xb0 => Some(Instruction::OR(Target::B)),
            0xb1 => Some(Instruction::OR(Target::C)),
            0xb2 => Some(Instruction::OR(Target::D)),
            0xb3 => Some(Instruction::OR(Target::E)),
            0xb4 => Some(Instruction::OR(Target::H)),
            0xb5 => Some(Instruction::OR(Target::L)),
            0xb6 => Some(Instruction::OR(Target::HL)),
            0xb7 => Some(Instruction::OR(Target::A)),
            0xb8 => Some(Instruction::CMP(Target::B)),
            0xb9 => Some(Instruction::CMP(Target::C)),
            0xba => Some(Instruction::CMP(Target::D)),
            0xbb => Some(Instruction::CMP(Target::E)),
            0xbc => Some(Instruction::CMP(Target::H)),
            0xbd => Some(Instruction::CMP(Target::L)),
            0xbe => Some(Instruction::CMP(Target::HL)),
            0xbf => Some(Instruction::CMP(Target::A)),
            0xc0 => Some(Instruction::RET(Condition::NotZero)),
            0xc1 => Some(Instruction::POP(Target::BC)),
            0xc2 => Some(Instruction::JP(Condition::NotZero)),
            0xc3 => Some(Instruction::JP(Condition::Always)),
            0xc4 => Some(Instruction::CALL(Condition::NotZero)),
            0xc5 => Some(Instruction::PUSH(Target::BC)),
            0xc6 => Some(Instruction::ADD(Target::D8)),
            0xc7 => Some(Instruction::RST(0x00)),
            0xc8 => Some(Instruction::RET(Condition::Zero)),
            0xc9 => Some(Instruction::RET(Condition::Always)),
            0xca => Some(Instruction::JP(Condition::Zero)),
            0xcc => Some(Instruction::CALL(Condition::Zero)),
            0xcd => Some(Instruction::CALL(Condition::Always)),
            0xce => Some(Instruction::ADC(Target::D8)),
            0xcf => Some(Instruction::RST(0x08)),
            0xd0 => Some(Instruction::RET(Condition::NotCarry)),
            0xd1 => Some(Instruction::POP(Target::DE)),
            0xd2 => Some(Instruction::JP(Condition::NotCarry)),
            0xd4 => Some(Instruction::CALL(Condition::NotCarry)),
            0xd5 => Some(Instruction::PUSH(Target::DE)),
            0xd6 => Some(Instruction::SUB(Target::D8)),
            0xd7 => Some(Instruction::RST(0x10)),
            0xd8 => Some(Instruction::RET(Condition::Carry)),
            0xd9 => Some(Instruction::RETI),
            0xda => Some(Instruction::JP(Condition::Carry)),
            0xdc => Some(Instruction::CALL(Condition::Carry)),
            0xde => Some(Instruction::SBC(Target::D8)),
            0xdf => Some(Instruction::RST(0x18)),
            0xe0 => Some(Instruction::LD8A),
            0xe1 => Some(Instruction::POP(Target::HL)),
            0xe2 => Some(Instruction::LDCA),
            0xe5 => Some(Instruction::PUSH(Target::HL)),
            0xe6 => Some(Instruction::AND(Target::D8)),
            0xe7 => Some(Instruction::RST(0x20)),
            0xe8 => Some(Instruction::ADDSP),
            0xe9 => Some(Instruction::JPHL),
            0xea => Some(Instruction::LD16A),
            0xee => Some(Instruction::XOR(Target::D8)),
            0xef => Some(Instruction::RST(0x28)),
            0xf0 => Some(Instruction::LDA8),
            0xf1 => Some(Instruction::POP(Target::AF)),
            0xf2 => Some(Instruction::LDAC),
            0xf3 => Some(Instruction::DI),
            0xf5 => Some(Instruction::PUSH(Target::AF)),
            0xf6 => Some(Instruction::OR(Target::D8)),
            0xf7 => Some(Instruction::RST(0x30)),
            0xf8 => Some(Instruction::LDHLSP),
            0xf9 => Some(Instruction::LDSPHL),
            0xfa => Some(Instruction::LDA16),
            0xfb => Some(Instruction::EI),
            0xfe => Some(Instruction::CMP(Target::D8)),
            0xff => Some(Instruction::RST(0x38)),
            _ => None,
        }
    }

    /// Returns the instruction's byte length: 1, 2 or 3, opcode included.
    pub fn len(&self) -> (r: u16)
        ensures
            r == spec_len(*self),
    {
        match self {
            Instruction::JP(_) => 3,
            Instruction::LDIMM16(_) => 3,
            Instruction::LD16A => 3,
            Instruction::LDA16 => 3,
            Instruction::LDA16SP => 3,
            Instruction::CALL(_) => 3,
            Instruction::LDIMM8(_) => 2,
            Instruction::LD8A => 2,
            Instruction::LDA8 => 2,
            Instruction::JR(_) => 2,
            Instruction::ADDSP => 2,
            Instruction::LDHLSP => 2,
            Instruction::ADD(t) | Instruction::ADC(t) | Instruction::SUB(t) | Instruction::SBC(t)
                | Instruction::AND(t) | Instruction::XOR(t) | Instruction::OR(t)
                | Instruction::CMP(t) => if matches!(t, Target::D8) { 2 } else { 1 },
            _ => 1,
        }
    }

    /// Returns the base T-cycle cost of the not-taken path; the executor
    /// adds the extra cycles of a taken branch.
    pub fn clock(&self) -> (r: u32)
        ensures
            r == spec_clock(*self),
    {
        match self {
            Instruction::NOP => 4,
            Instruction::JP(_) => 12,
            Instruction::JPHL => 4,
            Instruction::DI => 4,
            Instruction::EI => 4,
            Instruction::LDIMM16(_) => 12,
            Instruction::LDIMM8(t) => if matches!(t, Target::HL) { 12 } else { 8 },
            Instruction::LD16A => 16,
            Instruction::LDA16 => 16,
            Instruction::LDA16SP => 20,
            Instruction::LDSPHL => 8,
            Instruction::LD8A => 12,
            Instruction::LDA8 => 12,
            Instruction::LDCA => 8,
            Instruction::LDAC => 8,
            Instruction::LDRR(s, t) => {
                if Self::costs_memory(s) || Self::costs_memory(t) {
                    8
                } else {
                    4
                }
            },
            Instruction::CALL(_) => 12,
            Instruction::RET(_) => 8,
            Instruction::RETI => 16,
            Instruction::PUSH(_) => 16,
            Instruction::POP(_) => 12,
            Instruction::JR(_) => 8,
            Instruction::INC16(_) => 8,
            Instruction::DEC16(_) => 8,
            Instruction::INC8(t) | Instruction::DEC8(t) => {
                if matches!(t, Target::HL) {
                    12
                } else {
                    4
                }
            },
            Instruction::ADD(t) | Instruction::ADC(t) | Instruction::SUB(t) | Instruction::SBC(t)
                | Instruction::AND(t) | Instruction::XOR(t) | Instruction::OR(t)
                | Instruction::CMP(t) => {
                if Self::costs_memory(t) {
                    8
                } else {
                    4
                }
            },
            Instruction::RST(_) => 16,
            Instruction::CPL => 4,
            Instruction::CCF => 4,
            Instruction::ADDHL(_) => 8,
            Instruction::RRA => 4,
            Instruction::RRCA => 4,
            Instruction::RLA => 4,
            Instruction::DAA => 4,
            Instruction::RLCA => 4,
            Instruction::SCF => 4,
            Instruction::HALT => 4,
            Instruction::STOP => 4,
            Instruction::ADDSP => 16,
            Instruction::LDHLSP => 12,
        }
    }

    fn costs_memory(t: &Target) -> (r: bool)
        ensures
            r == spec_costs_memory(*t),
    {
        matches!(
            t,
            Target::D8 | Target::HL | Target::BC | Target::DE | Target::HLINC | Target::HLDEC
        )
    }
}

} // verus!
