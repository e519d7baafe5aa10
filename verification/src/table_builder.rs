//! The decode tables: two fixed 256-entry tables mapping an opcode byte to
//! an instruction and its base cycle count. Base cycles are the untaken
//! counts for conditional flow instructions; the executor adds the taken
//! penalty. The eleven undefined opcodes decode to the illegal marker with
//! zero cycles.

use vstd::prelude::*;

use crate::opcodes::{Instruction, InstrucionTarget};

verus! {

pub const TABLE_SIZE: usize = 0xFF + 1;

/// The 8-bit operand encoded by the low three bits of a register-row opcode:
/// B, C, D, E, H, L, (HL), A in that order.
pub open spec fn spec_reg_operand(i: u8) -> InstrucionTarget {
    if i == 0 {
        InstrucionTarget::B
    } else if i == 1 {
        InstrucionTarget::C
    } else if i == 2 {
        InstrucionTarget::D
    } else if i == 3 {
        InstrucionTarget::E
    } else if i == 4 {
        InstrucionTarget::H
    } else if i == 5 {
        InstrucionTarget::L
    } else if i == 6 {
        InstrucionTarget::HLMem
    } else {
        InstrucionTarget::A
    }
}

fn reg_operand(i: u8) -> (r: InstrucionTarget)
    ensures
        r == spec_reg_operand(i),
{
    if i == 0 {
        InstrucionTarget::B
    } else if i == 1 {
        InstrucionTarget::C
    } else if i == 2 {
        InstrucionTarget::D
    } else if i == 3 {
        InstrucionTarget::E
    } else if i == 4 {
        InstrucionTarget::H
    } else if i == 5 {
        InstrucionTarget::L
    } else if i == 6 {
        InstrucionTarget::HLMem
    } else {
        InstrucionTarget::A
    }
}

/// The 8-bit arithmetic/logic family encoded by bits 5..3 of an opcode in
/// the 0x80..0xBF row: ADD, ADC, SUB, SBC, AND, XOR, OR, CP on A.
pub open spec fn spec_alu_family(sel: u8, from: InstrucionTarget) -> Instruction {
    if sel == 0 {
        Instruction::ADD(InstrucionTarget::A, from)
    } else if sel == 1 {
        Instruction::ADC(InstrucionTarget::A, from)
    } else if sel == 2 {
        Instruction::SUB(InstrucionTarget::A, from)
    } else if sel == 3 {
        Instruction::SBC(InstrucionTarget::A, from)
    } else if sel == 4 {
        Instruction::AND(InstrucionTarget::A, from)
    } else if sel == 5 {
        Instruction::XOR(InstrucionTarget::A, from)
    } else if sel == 6 {
        Instruction::OR(InstrucionTarget::A, from)
    } else {
        Instruction::CP(InstrucionTarget::A, from)
    }
}

fn alu_family(sel: u8, from: InstrucionTarget) -> (r: Instruction)
    ensures
        r == spec_alu_family(sel, from),
{
    if sel == 0 {
        Instruction::ADD(InstrucionTarget::A, from)
    } else if sel == 1 {
        Instruction::ADC(InstrucionTarget::A, from)
    } else if sel == 2 {
        Instruction::SUB(InstrucionTarget::A, from)
    } else if sel == 3 {
        Instruction::SBC(InstrucionTarget::A, from)
    } else if sel == 4 {
        Instruction::AND(InstrucionTarget::A, from)
    } else if sel == 5 {
        Instruction::XOR(InstrucionTarget::A, from)
    } else if sel == 6 {
        Instruction::OR(InstrucionTarget::A, from)
    } else {
        Instruction::CP(InstrucionTarget::A, from)
    }
}

/// What the primary table holds for each opcode. The rows 0x40..0x7F
/// (register-to-register loads around HALT) and 0x80..0xBF (8-bit ALU on A)
/// follow the regular encoding; the rest of the map is listed slot by slot.
pub open spec fn spec_decode(op: u8) -> (Instruction, i32) {
    if 0x40 <= op && op <= 0x7F {
        if op == 0x76 {
            (Instruction::HALT, 4)
        } else {
            let to = spec_reg_operand((op >> 3) & 7);
            let from = spec_reg_operand(op & 7);
            (
                Instruction::LD(to, from),
                if to is HLMem || from is HLMem {
                    8
                } else {
                    4
                },
            )
        }
    } else if 0x80 <= op && op <= 0xBF {
        let from = spec_reg_operand(op & 7);
        (
            spec_alu_family((op >> 3) & 7, from),
            if from is HLMem {
                8
            } else {
                4
            },
        )
    } else {
        spec_decode_irregular(op)
    }
}

/// The slots of the primary table outside the two regular rows.
pub open spec fn spec_decode_irregular(op: u8) -> (Instruction, i32) {
    match op {
        0x00 => (Instruction::NOP, 4),
        0x01 => (Instruction::LD(InstrucionTarget::BC, InstrucionTarget::U16), 12),
        0x02 => (Instruction::LD(InstrucionTarget::BCMem, InstrucionTarget::A), 8),
        0x03 => (Instruction::INC(InstrucionTarget::BC), 8),
        0x04 => (Instruction::INC(InstrucionTarget::B), 4),
        0x05 => (Instruction::DEC(InstrucionTarget::B), 4),
        0x06 => (Instruction::LD(InstrucionTarget::B, InstrucionTarget::U8), 8),
        0x07 => (Instruction::RLCA, 4),
        0x08 => (Instruction::LD(InstrucionTarget::A16, InstrucionTarget::SP), 20),
        0x09 => (Instruction::ADD(InstrucionTarget::HL, InstrucionTarget::BC), 8),
        0x0A => (Instruction::LD(InstrucionTarget::A, InstrucionTarget::BCMem), 8),
        0x0B => (Instruction::DEC(InstrucionTarget::BC), 8),
        0x0C => (Instruction::INC(InstrucionTarget::C), 4),
        0x0D => (Instruction::DEC(InstrucionTarget::C), 4),
        0x0E => (Instruction::LD(InstrucionTarget::C, InstrucionTarget::U8), 8),
        0x0F => (Instruction::RRCA, 4),
        0x10 => (Instruction::STOP, 4),
        0x11 => (Instruction::LD(InstrucionTarget::DE, InstrucionTarget::U16), 12),
        0x12 => (Instruction::LD(InstrucionTarget::DEMem, InstrucionTarget::A), 8),
        0x13 => (Instruction::INC(InstrucionTarget::DE), 8),
        0x14 => (Instruction::INC(InstrucionTarget::D), 4),
        0x15 => (Instruction::DEC(InstrucionTarget::D), 4),
        0x16 => (Instruction::LD(InstrucionTarget::D, InstrucionTarget::U8), 8),
        0x17 => (Instruction::RLA, 4),
        0x18 => (Instruction::JR(InstrucionTarget::Blank, InstrucionTarget::I8), 12),
        0x19 => (Instruction::ADD(InstrucionTarget::HL, InstrucionTarget::DE), 8),
        0x1A => (Instruction::LD(InstrucionTarget::A, InstrucionTarget::DEMem), 8),
        0x1B => (Instruction::DEC(InstrucionTarget::DE), 8),
        0x1C => (Instruction::INC(InstrucionTarget::E), 4),
        0x1D => (Instruction::DEC(InstrucionTarget::E), 4),
        0x1E => (Instruction::LD(InstrucionTarget::E, InstrucionTarget::U8), 8),
        0x1F => (Instruction::RRA, 4),
        0x20 => (Instruction::JR(InstrucionTarget::NZCond, InstrucionTarget::I8), 8),
        0x21 => (Instruction::LD(InstrucionTarget::HL, InstrucionTarget::U16), 12),
        0x22 => (Instruction::LDI(InstrucionTarget::HLMem, InstrucionTarget::A), 8),
        0x23 => (Instruction::INC(InstrucionTarget::HL), 8),
        0x24 => (Instruction::INC(InstrucionTarget::H), 4),
        0x25 => (Instruction::DEC(InstrucionTarget::H), 4),
        0x26 => (Instruction::LD(InstrucionTarget::H, InstrucionTarget::U8), 8),
        0x27 => (Instruction::DAA, 4),
        0x28 => (Instruction::JR(InstrucionTarget::ZCond, InstrucionTarget::I8), 8),
        0x29 => (Instruction::ADD(InstrucionTarget::HL, InstrucionTarget::HL), 8),
        0x2A => (Instruction::LDI(InstrucionTarget::A, InstrucionTarget::HLMem), 8),
        0x2B => (Instruction::DEC(InstrucionTarget::HL), 8),
        0x2C => (Instruction::INC(InstrucionTarget::L), 4),
        0x2D => (Instruction::DEC(InstrucionTarget::L), 4),
        0x2E => (Instruction::LD(InstrucionTarget::L, InstrucionTarget::U8), 8),
        0x2F => (Instruction::CPL, 4),
        0x30 => (Instruction::JR(InstrucionTarget::NCCond, InstrucionTarget::I8), 8),
        0x31 => (Instruction::LD(InstrucionTarget::SP, InstrucionTarget::U16), 12),
        0x32 => (Instruction::LDD(InstrucionTarget::HLMem, InstrucionTarget::A), 8),
        0x33 => (Instruction::INC(InstrucionTarget::SP), 8),
        0x34 => (Instruction::INC(InstrucionTarget::HLMem), 12),
        0x35 => (Instruction::DEC(InstrucionTarget::HLMem), 12),
        0x36 => (Instruction::LD(InstrucionTarget::HLMem, InstrucionTarget::U8), 12),
        0x37 => (Instruction::SCF, 4),
        0x38 => (Instruction::JR(InstrucionTarget::CCond, InstrucionTarget::I8), 8),
        0x39 => (Instruction::ADD(InstrucionTarget::HL, InstrucionTarget::SP), 8),
        0x3A => (Instruction::LDD(InstrucionTarget::A, InstrucionTarget::HLMem), 8),
        0x3B => (Instruction::DEC(InstrucionTarget::SP), 8),
        0x3C => (Instruction::INC(InstrucionTarget::A), 4),
        0x3D => (Instruction::DEC(InstrucionTarget::A), 4),
        0x3E => (Instruction::LD(InstrucionTarget::A, InstrucionTarget::U8), 8),
        0x3F => (Instruction::CCF, 4),
        0xC0 => (Instruction::RET(InstrucionTarget::NZCond), 8),
        0xC1 => (Instruction::POP(InstrucionTarget::BC), 12),
        0xC2 => (Instruction::JP(InstrucionTarget::NZCond, InstrucionTarget::U16), 12),
        0xC3 => (Instruction::JP(InstrucionTarget::Blank, InstrucionTarget::U16), 16),
        0xC4 => (Instruction::CALL(InstrucionTarget::NZCond, InstrucionTarget::U16), 12),
        0xC5 => (Instruction::PUSH(InstrucionTarget::BC), 16),
        0xC6 => (Instruction::ADD(InstrucionTarget::A, InstrucionTarget::U8), 8),
        0xC7 => (Instruction::RST(0x00), 16),
        0xC8 => (Instruction::RET(InstrucionTarget::ZCond), 8),
        0xC9 => (Instruction::RET(InstrucionTarget::Blank), 16),
        0xCA => (Instruction::JP(InstrucionTarget::ZCond, InstrucionTarget::U16), 12),
        0xCB => (Instruction::PREFIX, 4),
        0xCC => (Instruction::CALL(InstrucionTarget::ZCond, InstrucionTarget::U16), 12),
        0xCD => (Instruction::CALL(InstrucionTarget::Blank, InstrucionTarget::U16), 24),
        0xCE => (Instruction::ADC(InstrucionTarget::A, InstrucionTarget::U8), 8),
        0xCF => (Instruction::RST(0x08), 16),
        0xD0 => (Instruction::RET(InstrucionTarget::NCCond), 8),
        0xD1 => (Instruction::POP(InstrucionTarget::DE), 12),
        0xD2 => (Instruction::JP(InstrucionTarget::NCCond, InstrucionTarget::U16), 12),
        0xD3 => (Instruction::XXX, 0),
        0xD4 => (Instruction::CALL(InstrucionTarget::NCCond, InstrucionTarget::U16), 12),
        0xD5 => (Instruction::PUSH(InstrucionTarget::DE), 16),
        0xD6 => (Instruction::SUB(InstrucionTarget::A, InstrucionTarget::U8), 8),
        0xD7 => (Instruction::RST(0x10), 16),
        0xD8 => (Instruction::RET(InstrucionTarget::CCond), 8),
        0xD9 => (Instruction::RETI, 16),
        0xDA => (Instruction::JP(InstrucionTarget::CCond, InstrucionTarget::U16), 12),
        0xDB => (Instruction::XXX, 0),
        0xDC => (Instruction::CALL(InstrucionTarget::CCond, InstrucionTarget::U16), 12),
        0xDD => (Instruction::XXX, 0),
        0xDE => (Instruction::SBC(InstrucionTarget::A, InstrucionTarget::U8), 8),
        0xDF => (Instruction::RST(0x18), 16),
        0xE0 => (Instruction::LD(InstrucionTarget::A8, InstrucionTarget::A), 12),
        0xE1 => (Instruction::POP(InstrucionTarget::HL), 12),
        0xE2 => (Instruction::LD(InstrucionTarget::CMem, InstrucionTarget::A), 8),
        0xE3 => (Instruction::XXX, 0),
        0xE4 => (Instruction::XXX, 0),
        0xE5 => (Instruction::PUSH(InstrucionTarget::HL), 16),
        0xE6 => (Instruction::AND(InstrucionTarget::A, InstrucionTarget::U8), 8),
        0xE7 => (Instruction::RST(0x20), 16),
        0xE8 => (Instruction::ADD(InstrucionTarget::SP, InstrucionTarget::I8), 16),
        0xE9 => (Instruction::JP(InstrucionTarget::Blank, InstrucionTarget::HL), 4),
        0xEA => (Instruction::LD(InstrucionTarget::A16, InstrucionTarget::A), 16),
        0xEB => (Instruction::XXX, 0),
        0xEC => (Instruction::XXX, 0),
        0xED => (Instruction::XXX, 0),
        0xEE => (Instruction::XOR(InstrucionTarget::A, InstrucionTarget::U8), 8),
        0xEF => (Instruction::RST(0x28), 16),
        0xF0 => (Instruction::LD(InstrucionTarget::A, InstrucionTarget::A8), 12),
        0xF1 => (Instruction::POP(InstrucionTarget::AF), 12),
        0xF2 => (Instruction::LD(InstrucionTarget::A, InstrucionTarget::CMem), 8),
        0xF3 => (Instruction::DI, 4),
        0xF4 => (Instruction::XXX, 0),
        0xF5 => (Instruction::PUSH(InstrucionTarget::AF), 16),
        0xF6 => (Instruction::OR(InstrucionTarget::A, InstrucionTarget::U8), 8),
        0xF7 => (Instruction::RST(0x30), 16),
        0xF8 => (Instruction::LD(InstrucionTarget::HL, InstrucionTarget::SPi8), 8),
        0xF9 => (Instruction::LD(InstrucionTarget::SP, InstrucionTarget::HL), 8),
        0xFA => (Instruction::LD(InstrucionTarget::A, InstrucionTarget::A16), 16),
        0xFB => (Instruction::EI, 4),
        0xFC => (Instruction::XXX, 0),
        0xFD => (Instruction::XXX, 0),
        0xFE => (Instruction::CP(InstrucionTarget::A, InstrucionTarget::U8), 8),
        0xFF => (Instruction::RST(0x38), 16),
        _ => (Instruction::TODO, 0),
    }
}

/// Decodes one opcode through the primary table.
pub fn decode(op: u8) -> (r: (Instruction, i32))
    ensures
        r == spec_decode(op),
{
    proof {
        lemma_low_bits(op);
    }
    if 0x40 <= op && op <= 0x7F {
        if op == 0x76 {
            (Instruction::HALT, 4)
        } else {
            let to = reg_operand((op >> 3) & 7);
            let from = reg_operand(op & 7);
            let hl_cost = match (to, from) {
                (InstrucionTarget::HLMem, _) => true,
                (_, InstrucionTarget::HLMem) => true,
                _ => false,
            };
            (Instruction::LD(to, from), if hl_cost { 8 } else { 4 })
        }
    } else if 0x80 <= op && op <= 0xBF {
        let from = reg_operand(op & 7);
        let instr = alu_family((op >> 3) & 7, from);
        let hl_cost = match from {
            InstrucionTarget::HLMem => true,
            _ => false,
        };
        (instr, if hl_cost { 8 } else { 4 })
    } else {
        decode_irregular(op)
    }
}

fn decode_irregular(op: u8) -> (r: (Instruction, i32))
    ensures
        r == spec_decode_irregular(op),
{
    match op {
        0x00 => (Instruction::NOP, 4),
        0x01 => (Instruction::LD(InstrucionTarget::BC, InstrucionTarget::U16), 12),
        0x02 => (Instruction::LD(InstrucionTarget::BCMem, InstrucionTarget::A), 8),
        0x03 => (Instruction::INC(InstrucionTarget::BC), 8),
        0x04 => (Instruction::INC(InstrucionTarget::B), 4),
        0x05 => (Instruction::DEC(InstrucionTarget::B), 4),
        0x06 => (Instruction::LD(InstrucionTarget::B, InstrucionTarget::U8), 8),
        0x07 => (Instruction::RLCA, 4),
        0x08 => (Instruction::LD(InstrucionTarget::A16, InstrucionTarget::SP), 20),
        0x09 => (Instruction::ADD(InstrucionTarget::HL, InstrucionTarget::BC), 8),
        0x0A => (Instruction::LD(InstrucionTarget::A, InstrucionTarget::BCMem), 8),
        0x0B => (Instruction::DEC(InstrucionTarget::BC), 8),
        0x0C => (Instruction::INC(InstrucionTarget::C), 4),
        0x0D => (Instruction::DEC(InstrucionTarget::C), 4),
        0x0E => (Instruction::LD(InstrucionTarget::C, InstrucionTarget::U8), 8),
        0x0F => (Instruction::RRCA, 4),
        0x10 => (Instruction::STOP, 4),
        0x11 => (Instruction::LD(InstrucionTarget::DE, InstrucionTarget::U16), 12),
        0x12 => (Instruction::LD(InstrucionTarget::DEMem, InstrucionTarget::A), 8),
        0x13 => (Instruction::INC(InstrucionTarget::DE), 8),
        0x14 => (Instruction::INC(InstrucionTarget::D), 4),
        0x15 => (Instruction::DEC(InstrucionTarget::D), 4),
        0x16 => (Instruction::LD(InstrucionTarget::D, InstrucionTarget::U8), 8),
        0x17 => (Instruction::RLA, 4),
        0x18 => (Instruction::JR(InstrucionTarget::Blank, InstrucionTarget::I8), 12),
        0x19 => (Instruction::ADD(InstrucionTarget::HL, InstrucionTarget::DE), 8),
        0x1A => (Instruction::LD(InstrucionTarget::A, InstrucionTarget::DEMem), 8),
        0x1B => (Instruction::DEC(InstrucionTarget::DE), 8),
        0x1C => (Instruction::INC(InstrucionTarget::E), 4),
        0x1D => (Instruction::DEC(InstrucionTarget::E), 4),
        0x1E => (Instruction::LD(InstrucionTarget::E, InstrucionTarget::U8), 8),
        0x1F => (Instruction::RRA, 4),
        0x20 => (Instruction::JR(InstrucionTarget::NZCond, InstrucionTarget::I8), 8),
        0x21 => (Instruction::LD(InstrucionTarget::HL, InstrucionTarget::U16), 12),
        0x22 => (Instruction::LDI(InstrucionTarget::HLMem, InstrucionTarget::A), 8),
        0x23 => (Instruction::INC(InstrucionTarget::HL), 8),
        0x24 => (Instruction::INC(InstrucionTarget::H), 4),
        0x25 => (Instruction::DEC(InstrucionTarget::H), 4),
        0x26 => (Instruction::LD(InstrucionTarget::H, InstrucionTarget::U8), 8),
        0x27 => (Instruction::DAA, 4),
        0x28 => (Instruction::JR(InstrucionTarget::ZCond, InstrucionTarget::I8), 8),
        0x29 => (Instruction::ADD(InstrucionTarget::HL, InstrucionTarget::HL), 8),
        0x2A => (Instruction::LDI(InstrucionTarget::A, InstrucionTarget::HLMem), 8),
        0x2B => (Instruction::DEC(InstrucionTarget::HL), 8),
        0x2C => (Instruction::INC(InstrucionTarget::L), 4),
        0x2D => (Instruction::DEC(InstrucionTarget::L), 4),
        0x2E => (Instruction::LD(InstrucionTarget::L, InstrucionTarget::U8), 8),
        0x2F => (Instruction::CPL, 4),
        0x30 => (Instruction::JR(InstrucionTarget::NCCond, InstrucionTarget::I8), 8),
        0x31 => (Instruction::LD(InstrucionTarget::SP, InstrucionTarget::U16), 12),
        0x32 => (Instruction::LDD(InstrucionTarget::HLMem, InstrucionTarget::A), 8),
        0x33 => (Instruction::INC(InstrucionTarget::SP), 8),
        0x34 => (Instruction::INC(InstrucionTarget::HLMem), 12),
        0x35 => (Instruction::DEC(InstrucionTarget::HLMem), 12),
        0x36 => (Instruction::LD(InstrucionTarget::HLMem, InstrucionTarget::U8), 12),
        0x37 => (Instruction::SCF, 4),
        0x38 => (Instruction::JR(InstrucionTarget::CCond, InstrucionTarget::I8), 8),
        0x39 => (Instruction::ADD(InstrucionTarget::HL, InstrucionTarget::SP), 8),
        0x3A => (Instruction::LDD(InstrucionTarget::A, InstrucionTarget::HLMem), 8),
        0x3B => (Instruction::DEC(InstrucionTarget::SP), 8),
        0x3C => (Instruction::INC(InstrucionTarget::A), 4),
        0x3D => (Instruction::DEC(InstrucionTarget::A), 4),
        0x3E => (Instruction::LD(InstrucionTarget::A, InstrucionTarget::U8), 8),
        0x3F => (Instruction::CCF, 4),
        0xC0 => (Instruction::RET(InstrucionTarget::NZCond), 8),
        0xC1 => (Instruction::POP(InstrucionTarget::BC), 12),
        0xC2 => (Instruction::JP(InstrucionTarget::NZCond, InstrucionTarget::U16), 12),
        0xC3 => (Instruction::JP(InstrucionTarget::Blank, InstrucionTarget::U16), 16),
        0xC4 => (Instruction::CALL(InstrucionTarget::NZCond, InstrucionTarget::U16), 12),
        0xC5 => (Instruction::PUSH(InstrucionTarget::BC), 16),
        0xC6 => (Instruction::ADD(InstrucionTarget::A, InstrucionTarget::U8), 8),
        0xC7 => (Instruction::RST(0x00), 16),
        0xC8 => (Instruction::RET(InstrucionTarget::ZCond), 8),
        0xC9 => (Instruction::RET(InstrucionTarget::Blank), 16),
        0xCA => (Instruction::JP(InstrucionTarget::ZCond, InstrucionTarget::U16), 12),
        0xCB => (Instruction::PREFIX, 4),
        0xCC => (Instruction::CALL(InstrucionTarget::ZCond, InstrucionTarget::U16), 12),
        0xCD => (Instruction::CALL(InstrucionTarget::Blank, InstrucionTarget::U16), 24),
        0xCE => (Instruction::ADC(InstrucionTarget::A, InstrucionTarget::U8), 8),
        0xCF => (Instruction::RST(0x08), 16),
        0xD0 => (Instruction::RET(InstrucionTarget::NCCond), 8),
        0xD1 => (Instruction::POP(InstrucionTarget::DE), 12),
        0xD2 => (Instruction::JP(InstrucionTarget::NCCond, InstrucionTarget::U16), 12),
        0xD3 => (Instruction::XXX, 0),
        0xD4 => (Instruction::CALL(InstrucionTarget::NCCond, InstrucionTarget::U16), 12),
        0xD5 => (Instruction::PUSH(InstrucionTarget::DE), 16),
        0xD6 => (Instruction::SUB(InstrucionTarget::A, InstrucionTarget::U8), 8),
        0xD7 => (Instruction::RST(0x10), 16),
        0xD8 => (Instruction::RET(InstrucionTarget::CCond), 8),
        0xD9 => (Instruction::RETI, 16),
        0xDA => (Instruction::JP(InstrucionTarget::CCond, InstrucionTarget::U16), 12),
        0xDB => (Instruction::XXX, 0),
        0xDC => (Instruction::CALL(InstrucionTarget::CCond, InstrucionTarget::U16), 12),
        0xDD => (Instruction::XXX, 0),
        0xDE => (Instruction::SBC(InstrucionTarget::A, InstrucionTarget::U8), 8),
        0xDF => (Instruction::RST(0x18), 16),
        0xE0 => (Instruction::LD(InstrucionTarget::A8, InstrucionTarget::A), 12),
        0xE1 => (Instruction::POP(InstrucionTarget::HL), 12),
        0xE2 => (Instruction::LD(InstrucionTarget::CMem, InstrucionTarget::A), 8),
        0xE3 => (Instruction::XXX, 0),
        0xE4 => (Instruction::XXX, 0),
        0xE5 => (Instruction::PUSH(InstrucionTarget::HL), 16),
        0xE6 => (Instruction::AND(InstrucionTarget::A, InstrucionTarget::U8), 8),
        0xE7 => (Instruction::RST(0x20), 16),
        0xE8 => (Instruction::ADD(InstrucionTarget::SP, InstrucionTarget::I8), 16),
        0xE9 => (Instruction::JP(InstrucionTarget::Blank, InstrucionTarget::HL), 4),
        0xEA => (Instruction::LD(InstrucionTarget::A16, InstrucionTarget::A), 16),
        0xEB => (Instruction::XXX, 0),
        0xEC => (Instruction::XXX, 0),
        0xED => (Instruction::XXX, 0),
        0xEE => (Instruction::XOR(InstrucionTarget::A, InstrucionTarget::U8), 8),
        0xEF => (Instruction::RST(0x28), 16),
        0xF0 => (Instruction::LD(InstrucionTarget::A, InstrucionTarget::A8), 12),
        0xF1 => (Instruction::POP(InstrucionTarget::AF), 12),
        0xF2 => (Instruction::LD(InstrucionTarget::A, InstrucionTarget::CMem), 8),
        0xF3 => (Instruction::DI, 4),
        0xF4 => (Instruction::XXX, 0),
        0xF5 => (Instruction::PUSH(InstrucionTarget::AF), 16),
        0xF6 => (Instruction::OR(InstrucionTarget::A, InstrucionTarget::U8), 8),
        0xF7 => (Instruction::RST(0x30), 16),
        0xF8 => (Instruction::LD(InstrucionTarget::HL, InstrucionTarget::SPi8), 8),
        0xF9 => (Instruction::LD(InstrucionTarget::SP, InstrucionTarget::HL), 8),
        0xFA => (Instruction::LD(InstrucionTarget::A, InstrucionTarget::A16), 16),
        0xFB => (Instruction::EI, 4),
        0xFC => (Instruction::XXX, 0),
        0xFD => (Instruction::XXX, 0),
        0xFE => (Instruction::CP(InstrucionTarget::A, InstrucionTarget::U8), 8),
        0xFF => (Instruction::RST(0x38), 16),
        _ => (Instruction::TODO, 0),
    }
}

/// Bits masked to three stay below eight.
pub proof fn lemma_low_bits(op: u8)
    by (bit_vector)
    ensures
        op & 7 < 8,
        (op >> 3) & 7 < 8,
{
}

/// What the prefixed table holds for each opcode of the second plane: the
/// whole plane is regular. Bits 7..6 select the group (rotate/shift, BIT,
/// RES, SET), bits 5..3 the operation or bit index, bits 2..0 the operand.
pub open spec fn spec_prefix_decode(op: u8) -> (Instruction, i32) {
    let operand = spec_reg_operand(op & 7);
    let sel = (op >> 3) & 7;
    let cycles: i32 = if operand is HLMem {
        16
    } else {
        8
    };
    if op < 0x40 {
        (spec_rotate_family(sel, operand), cycles)
    } else if op < 0x80 {
        (Instruction::BIT(sel, operand), cycles)
    } else if op < 0xC0 {
        (Instruction::RES(sel, operand), cycles)
    } else {
        (Instruction::SET(sel, operand), cycles)
    }
}

/// The rotate/shift family encoded by bits 5..3 of a prefixed opcode below
/// 0x40: RLC, RRC, RL, RR, SLA, SRA, SWAP, SRL.
pub open spec fn spec_rotate_family(sel: u8, operand: InstrucionTarget) -> Instruction {
    if sel == 0 {
        Instruction::RLC(operand)
    } else if sel == 1 {
        Instruction::RRC(operand)
    } else if sel == 2 {
        Instruction::RL(operand)
    } else if sel == 3 {
        Instruction::RR(operand)
    } else if sel == 4 {
        Instruction::SLA(operand)
    } else if sel == 5 {
        Instruction::SRA(operand)
    } else if sel == 6 {
        Instruction::SWAP(operand)
    } else {
        Instruction::SRL(operand)
    }
}

fn rotate_family(sel: u8, operand: InstrucionTarget) -> (r: Instruction)
    ensures
        r == spec_rotate_family(sel, operand),
{
    if sel == 0 {
        Instruction::RLC(operand)
    } else if sel == 1 {
        Instruction::RRC(operand)
    } else if sel == 2 {
        Instruction::RL(operand)
    } else if sel == 3 {
        Instruction::RR(operand)
    } else if sel == 4 {
        Instruction::SLA(operand)
    } else if sel == 5 {
        Instruction::SRA(operand)
    } else if sel == 6 {
        Instruction::SWAP(operand)
    } else {
        Instruction::SRL(operand)
    }
}

/// Decodes one opcode through the prefixed table.
pub fn prefix_decode(op: u8) -> (r: (Instruction, i32))
    ensures
        r == spec_prefix_decode(op),
{
    proof {
        lemma_low_bits(op);
    }
    let operand = reg_operand(op & 7);
    let sel = (op >> 3) & 7;
    let hl_cost = match operand {
        InstrucionTarget::HLMem => true,
        _ => false,
    };
    let cycles: i32 = if hl_cost {
        16
    } else {
        8
    };
    if op < 0x40 {
        (rotate_family(sel, operand), cycles)
    } else if op < 0x80 {
        (Instruction::BIT(sel, operand), cycles)
    } else if op < 0xC0 {
        (Instruction::RES(sel, operand), cycles)
    } else {
        (Instruction::SET(sel, operand), cycles)
    }
}

/// Builds the primary decode table, populating all 256 slots.
pub fn build_table() -> (t: Vec<(Instruction, i32)>)
    ensures
        t@.len() == 256,
        forall|i: int| 0 <= i < 256 ==> t@[i] == spec_decode(i as u8),
{
    let mut t: Vec<(Instruction, i32)> = Vec::new();
    let mut op: usize = 0;
    while op < TABLE_SIZE
        invariant
            op == t@.len(),
            op <= TABLE_SIZE,
            forall|i: int| 0 <= i < op ==> t@[i] == spec_decode(i as u8),
        decreases 256 - op,
    {
        t.push(decode(op as u8));
        op = op + 1;
    }
    t
}

/// Builds the prefixed decode table, populating all 256 slots.
pub fn build_prefix() -> (t: Vec<(Instruction, i32)>)
    ensures
        t@.len() == 256,
        forall|i: int| 0 <= i < 256 ==> t@[i] == spec_prefix_decode(i as u8),
{
    let mut t: Vec<(Instruction, i32)> = Vec::new();
    let mut op: usize = 0;
    while op < TABLE_SIZE
        invariant
            op == t@.len(),
            op <= TABLE_SIZE,
            forall|i: int| 0 <= i < op ==> t@[i] == spec_prefix_decode(i as u8),
        decreases 256 - op,
    {
        t.push(prefix_decode(op as u8));
        op = op + 1;
    }
    t
}

/// Both decode tables are fully populated: no opcode of either plane decodes
/// to the unpopulated marker.
pub proof fn lemma_tables_complete()
    ensures
        forall|op: u8| !((#[trigger] spec_decode(op)).0 is TODO),
        forall|op: u8| !((#[trigger] spec_prefix_decode(op)).0 is TODO),
{
}

} // verus!
