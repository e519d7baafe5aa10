//! The instruction model: a closed set of mnemonic families, each naming one
//! or two operand descriptors, plus the pretty-printer that renders a single
//! instruction.

use vstd::prelude::*;
use vstd::string::*;

use crate::hexfmt::{spec_hex, hex_u16, spec_dec, dec_u8};

verus! {

/// An operand descriptor: every addressing mode an instruction can name.
#[derive(Clone, Copy, Debug, PartialEq, Eq, Structural)]
pub enum InstrucionTarget {
    A,
    B,
    C,
    D,
    E,
    H,
    L,
    HLMem,
    CMem,
    U8,
    A8,
    I8,
    AF,
    BC,
    DE,
    HL,
    SP,
    BCMem,
    DEMem,
    U16,
    A16,
    SPi8,
    PC,
    ZCond,
    CCond,
    NZCond,
    NCCond,
    Blank,
}

/// An instruction: a mnemonic family with its operand descriptors.
#[derive(Clone, Copy, Debug, PartialEq, Eq, Structural)]
pub enum Instruction {
    LD(InstrucionTarget, InstrucionTarget),
    LDI(InstrucionTarget, InstrucionTarget),
    LDD(InstrucionTarget, InstrucionTarget),
    PUSH(InstrucionTarget),
    POP(InstrucionTarget),
    ADD(InstrucionTarget, InstrucionTarget),
    ADC(InstrucionTarget, InstrucionTarget),
    SUB(InstrucionTarget, InstrucionTarget),
    SBC(InstrucionTarget, InstrucionTarget),
    INC(InstrucionTarget),
    DEC(InstrucionTarget),
    AND(InstrucionTarget, InstrucionTarget),
    XOR(InstrucionTarget, InstrucionTarget),
    OR(InstrucionTarget, InstrucionTarget),
    CP(InstrucionTarget, InstrucionTarget),
    DAA,
    CPL,
    RLCA,
    RLA,
    RRCA,
    RRA,
    RLC(InstrucionTarget),
    RL(InstrucionTarget),
    RRC(InstrucionTarget),
    RR(InstrucionTarget),
    SLA(InstrucionTarget),
    SWAP(InstrucionTarget),
    SRA(InstrucionTarget),
    SRL(InstrucionTarget),
    BIT(u8, InstrucionTarget),
    SET(u8, InstrucionTarget),
    RES(u8, InstrucionTarget),
    CCF,
    SCF,
    NOP,
    HALT,
    STOP,
    DI,
    EI,
    JP(InstrucionTarget, InstrucionTarget),
    JR(InstrucionTarget, InstrucionTarget),
    CALL(InstrucionTarget, InstrucionTarget),
    RET(InstrucionTarget),
    RETI,
    RST(u16),
    PREFIX,
    /// An opcode with no defined instruction.
    XXX,
    /// An unpopulated decode-table slot.
    TODO,
}

impl InstrucionTarget {
    /// How an operand prints inside an instruction line.
    pub open spec fn spec_text(self) -> Seq<char> {
        match self {
            InstrucionTarget::A => "A"@,
            InstrucionTarget::B => "B"@,
            InstrucionTarget::C => "C"@,
            InstrucionTarget::D => "D"@,
            InstrucionTarget::E => "E"@,
            InstrucionTarget::H => "H"@,
            InstrucionTarget::L => "L"@,
            InstrucionTarget::HLMem => "[HL]"@,
            InstrucionTarget::CMem => "[$FF00+C]"@,
            InstrucionTarget::U8 => "u8"@,
            InstrucionTarget::A8 => "[$FF00+u8]"@,
            InstrucionTarget::AF => "AF"@,
            InstrucionTarget::BC => "BC"@,
            InstrucionTarget::DE => "DE"@,
            InstrucionTarget::HL => "HL"@,
            InstrucionTarget::SP => "SP"@,
            InstrucionTarget::BCMem => "[BC]"@,
            InstrucionTarget::DEMem => "[DE]"@,
            InstrucionTarget::U16 => "u16"@,
            InstrucionTarget::A16 => "a16"@,
            InstrucionTarget::I8 => "i8"@,
            InstrucionTarget::SPi8 => "SP+i8"@,
            InstrucionTarget::PC => "pc"@,
            InstrucionTarget::Blank => "blank"@,
            InstrucionTarget::ZCond => "Z"@,
            InstrucionTarget::CCond => "C"@,
            InstrucionTarget::NZCond => "NZ"@,
            InstrucionTarget::NCCond => "NC"@,
        }
    }

    /// Renders the operand.
    pub fn text(&self) -> (r: &'static str)
        ensures
            r@ == self.spec_text(),
    {
        match self {
            InstrucionTarget::A => "A",
            InstrucionTarget::B => "B",
            InstrucionTarget::C => "C",
            InstrucionTarget::D => "D",
            InstrucionTarget::E => "E",
            InstrucionTarget::H => "H",
            InstrucionTarget::L => "L",
            InstrucionTarget::HLMem => "[HL]",
            InstrucionTarget::CMem => "[$FF00+C]",
            InstrucionTarget::U8 => "u8",
            InstrucionTarget::A8 => "[$FF00+u8]",
            InstrucionTarget::AF => "AF",
            InstrucionTarget::BC => "BC",
            InstrucionTarget::DE => "DE",
            InstrucionTarget::HL => "HL",
            InstrucionTarget::SP => "SP",
            InstrucionTarget::BCMem => "[BC]",
            InstrucionTarget::DEMem => "[DE]",
            InstrucionTarget::U16 => "u16",
            InstrucionTarget::A16 => "a16",
            InstrucionTarget::I8 => "i8",
            InstrucionTarget::SPi8 => "SP+i8",
            InstrucionTarget::PC => "pc",
            InstrucionTarget::Blank => "blank",
            InstrucionTarget::ZCond => "Z",
            InstrucionTarget::CCond => "C",
            InstrucionTarget::NZCond => "NZ",
            InstrucionTarget::NCCond => "NC",
        }
    }
}

/// A mnemonic followed by one operand.
pub open spec fn spec_line1(mn: Seq<char>, op: InstrucionTarget) -> Seq<char> {
    mn + " "@ + op.spec_text()
}

/// A mnemonic followed by two operands.
pub open spec fn spec_line2(
    mn: Seq<char>,
    op1: InstrucionTarget,
    op2: InstrucionTarget,
) -> Seq<char> {
    mn + " "@ + op1.spec_text() + " "@ + op2.spec_text()
}

/// A flow mnemonic: the condition operand is omitted when absent.
pub open spec fn spec_flow_line(
    mn: Seq<char>,
    cond: InstrucionTarget,
    dest: InstrucionTarget,
) -> Seq<char> {
    if cond is Blank {
        spec_line1(mn, dest)
    } else {
        spec_line2(mn, cond, dest)
    }
}

fn line1(mn: &'static str, op: InstrucionTarget) -> (r: String)
    ensures
        r@ == spec_line1(mn@, op),
{
    let mut s = String::from_str(mn);
    s.append(" ");
    s.append(op.text());
    s
}

fn line2(mn: &'static str, op1: InstrucionTarget, op2: InstrucionTarget) -> (r: String)
    ensures
        r@ == spec_line2(mn@, op1, op2),
{
    let mut s = String::from_str(mn);
    s.append(" ");
    s.append(op1.text());
    s.append(" ");
    s.append(op2.text());
    s
}

fn flow_line(mn: &'static str, cond: InstrucionTarget, dest: InstrucionTarget) -> (r: String)
    ensures
        r@ == spec_flow_line(mn@, cond, dest),
{
    if let InstrucionTarget::Blank = cond {
        line1(mn, dest)
    } else {
        line2(mn, cond, dest)
    }
}

impl Instruction {
    /// How the instruction prints: the mnemonic, then its operands; flow
    /// instructions omit an absent condition, and a single-bit instruction
    /// prints its bit index in decimal.
    pub open spec fn spec_text(self) -> Seq<char> {
        match self {
            Instruction::LD(a, b) => spec_line2("LD"@, a, b),
            Instruction::LDI(a, b) => spec_line2("LDI"@, a, b),
            Instruction::LDD(a, b) => spec_line2("LDD"@, a, b),
            Instruction::PUSH(op) => spec_line1("PUSH"@, op),
            Instruction::POP(op) => spec_line1("POP"@, op),
            Instruction::ADD(a, b) => spec_line2("ADD"@, a, b),
            Instruction::ADC(a, b) => spec_line2("ADC"@, a, b),
            Instruction::SUB(a, b) => spec_line2("SUB"@, a, b),
            Instruction::SBC(a, b) => spec_line2("SBC"@, a, b),
            Instruction::INC(op) => spec_line1("INC"@, op),
            Instruction::DEC(op) => spec_line1("DEC"@, op),
            Instruction::AND(a, b) => spec_line2("AND"@, a, b),
            Instruction::XOR(a, b) => spec_line2("XOR"@, a, b),
            Instruction::OR(a, b) => spec_line2("OR"@, a, b),
            Instruction::CP(a, b) => spec_line2("CP"@, a, b),
            Instruction::DAA => "DAA"@,
            Instruction::CPL => "CPL"@,
            Instruction::RLCA => "RLCA"@,
            Instruction::RLA => "RLA"@,
            Instruction::RRCA => "RRCA"@,
            Instruction::RRA => "RRA"@,
            Instruction::RLC(op) => spec_line1("RLC"@, op),
            Instruction::RL(op) => spec_line1("RL"@, op),
            Instruction::RRC(op) => spec_line1("RRC"@, op),
            Instruction::RR(op) => spec_line1("RR"@, op),
            Instruction::SLA(op) => spec_line1("SLA"@, op),
            Instruction::SWAP(op) => spec_line1("SWAP"@, op),
            Instruction::SRA(op) => spec_line1("SRA"@, op),
            Instruction::SRL(op) => spec_line1("SRL"@, op),
            Instruction::BIT(n, op) => "BIT "@ + spec_dec(n as int) + " "@ + op.spec_text(),
            Instruction::SET(n, op) => "SET "@ + spec_dec(n as int) + " "@ + op.spec_text(),
            Instruction::RES(n, op) => "RES "@ + spec_dec(n as int) + " "@ + op.spec_text(),
            Instruction::CCF => "CCF"@,
            Instruction::SCF => "SCF"@,
            Instruction::NOP => "NOP"@,
            Instruction::HALT => "HALT"@,
            Instruction::STOP => "STOP"@,
            Instruction::DI => "DI"@,
            Instruction::EI => "EI"@,
            Instruction::JP(c, d) => spec_flow_line("JP"@, c, d),
            Instruction::JR(c, d) => spec_flow_line("JR"@, c, d),
            Instruction::CALL(c, d) => spec_flow_line("CALL"@, c, d),
            Instruction::RET(c) => if c is Blank {
                "RET"@
            } else {
                spec_line1("RET"@, c)
            },
            Instruction::RETI => "RETI"@,
            Instruction::RST(n) => "RST 0x"@ + spec_hex(n as int),
            Instruction::PREFIX => "PREFIX"@,
            Instruction::XXX => "???"@,
            Instruction::TODO => "TODO"@,
        }
    }

    /// Renders the instruction as its mnemonic and operands.
    pub fn to_string(&self) -> (r: String)
        ensures
            r@ == self.spec_text(),
    {
        match *self {
            Instruction::LD(a, b) => line2("LD", a, b),
            Instruction::LDI(a, b) => line2("LDI", a, b),
            Instruction::LDD(a, b) => line2("LDD", a, b),
            Instruction::PUSH(op) => line1("PUSH", op),
            Instruction::POP(op) => line1("POP", op),
            Instruction::ADD(a, b) => line2("ADD", a, b),
            Instruction::ADC(a, b) => line2("ADC", a, b),
            Instruction::SUB(a, b) => line2("SUB", a, b),
            Instruction::SBC(a, b) => line2("SBC", a, b),
            Instruction::INC(op) => line1("INC", op),
            Instruction::DEC(op) => line1("DEC", op),
            Instruction::AND(a, b) => line2("AND", a, b),
            Instruction::XOR(a, b) => line2("XOR", a, b),
            Instruction::OR(a, b) => line2("OR", a, b),
            Instruction::CP(a, b) => line2("CP", a, b),
            Instruction::DAA => String::from_str("DAA"),
            Instruction::CPL => String::from_str("CPL"),
            Instruction::RLCA => String::from_str("RLCA"),
            Instruction::RLA => String::from_str("RLA"),
            Instruction::RRCA => String::from_str("RRCA"),
            Instruction::RRA => String::from_str("RRA"),
            Instruction::RLC(op) => line1("RLC", op),
            Instruction::RL(op) => line1("RL", op),
            Instruction::RRC(op) => line1("RRC", op),
            Instruction::RR(op) => line1("RR", op),
            Instruction::SLA(op) => line1("SLA", op),
            Instruction::SWAP(op) => line1("SWAP", op),
            Instruction::SRA(op) => line1("SRA", op),
            Instruction::SRL(op) => line1("SRL", op),
            Instruction::BIT(n, op) => {
                let mut s = String::from_str("BIT ");
                let d = dec_u8(n);
                s.append(d.as_str());
                s.append(" ");
                s.append(op.text());
                s
            },
            Instruction::SET(n, op) => {
                let mut s = String::from_str("SET ");
                let d = dec_u8(n);
                s.append(d.as_str());
                s.append(" ");
                s.append(op.text());
                s
            },
            Instruction::RES(n, op) => {
                let mut s = String::from_str("RES ");
                let d = dec_u8(n);
                s.append(d.as_str());
                s.append(" ");
                s.append(op.text());
                s
            },
            Instruction::CCF => String::from_str("CCF"),
            Instruction::SCF => String::from_str("SCF"),
            Instruction::NOP => String::from_str("NOP"),
            Instruction::HALT => String::from_str("HALT"),
            Instruction::STOP => String::from_str("STOP"),
            Instruction::DI => String::from_str("DI"),
            Instruction::EI => String::from_str("EI"),
            Instruction::JP(c, d) => flow_line("JP", c, d),
            Instruction::JR(c, d) => flow_line("JR", c, d),
            Instruction::CALL(c, d) => flow_line("CALL", c, d),
            Instruction::RET(c) => {
                if let InstrucionTarget::Blank = c {
                    String::from_str("RET")
                } else {
                    line1("RET", c)
                }
            },
            Instruction::RETI => String::from_str("RETI"),
            Instruction::RST(n) => {
                let mut s = String::from_str("RST 0x");
                let d = hex_u16(n);
                s.append(d.as_str());
                s
            },
            Instruction::PREFIX => String::from_str("PREFIX"),
            Instruction::XXX => String::from_str("???"),
            Instruction::TODO => String::from_str("TODO"),
        }
    }
}

} // verus!
