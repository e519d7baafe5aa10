//! The disassembler: walks memory linearly, renders each position as an
//! address followed by the decoded instruction with its immediate operands
//! spliced in, and collects the lines in an insertion-ordered map. Addresses
//! below 0x0100 (the boot-ROM region) are rendered opaque.

use vstd::prelude::*;
use vstd::string::*;

use indexmap::IndexMap;
use std::collections::hash_map::RandomState;

use crate::arith::{wrap16, lemma_wrap16};
use crate::cpu::CPU;
use crate::hexfmt::{spec_hex, hex_u16, spec_hex2, hex2, spec_hex4, hex4, spec_dec, dec_u8};
use crate::memory::Memory;
use crate::opcodes::{Instruction, InstrucionTarget};
use crate::table_builder::spec_decode;

verus! {

#[verifier::external_type_specification]
#[verifier::external_body]
#[verifier::reject_recursive_types(K)]
#[verifier::reject_recursive_types(V)]
#[verifier::reject_recursive_types(S)]
pub struct ExIndexMap<K, V, S>(IndexMap<K, V, S>);

/// The entries a disassembly map holds, in insertion order: an address and
/// the line rendered for it.
pub uninterp spec fn index_entries(m: IndexMap<u16, String, RandomState>) -> Seq<(u16, Seq<char>)>;

/// Relies on indexmap's IndexMap::new: a freshly created map holds no
/// entries.
#[verifier::external_body]
fn indexmap_new() -> (r: IndexMap<u16, String, RandomState>)
    ensures
        index_entries(r) == Seq::<(u16, Seq<char>)>::empty(),
{
    IndexMap::new()
}

/// Relies on indexmap's IndexMap::insert: inserting a key the map does not
/// yet hold appends the pair at the end, keeping the existing entries and
/// their order.
#[verifier::external_body]
fn indexmap_insert(m: &mut IndexMap<u16, String, RandomState>, k: u16, v: String)
    requires
        forall|i: int|
            0 <= i < index_entries(*old(m)).len() ==> (#[trigger] index_entries(*old(m))[i]).0
                != k,
    ensures
        index_entries(*final(m)) == index_entries(*old(m)).push((k, v@)),
{
    m.insert(k, v);
}

/// How many immediate bytes an operand consumes in a rendered line.
pub open spec fn imm_len_t(t: InstrucionTarget) -> nat {
    match t {
        InstrucionTarget::U8 => 1,
        InstrucionTarget::I8 => 1,
        InstrucionTarget::A8 => 1,
        InstrucionTarget::SPi8 => 1,
        InstrucionTarget::U16 => 2,
        InstrucionTarget::A16 => 2,
        _ => 0,
    }
}

fn imm_len(t: InstrucionTarget) -> (r: usize)
    ensures
        r as int == imm_len_t(t),
{
    match t {
        InstrucionTarget::U8 => 1,
        InstrucionTarget::I8 => 1,
        InstrucionTarget::A8 => 1,
        InstrucionTarget::SPi8 => 1,
        InstrucionTarget::U16 => 2,
        InstrucionTarget::A16 => 2,
        _ => 0,
    }
}

/// How an operand renders at position `j` of memory: an immediate byte
/// displays as `$HH` (within its addressing decoration), a 16-bit immediate
/// little-endian as `$HHHH`, an absolute address as `[$HHHH]`, and every
/// other operand by its plain text.
pub open spec fn sub_target_text(t: InstrucionTarget, mem: Seq<u8>, j: u16) -> Seq<char> {
    match t {
        InstrucionTarget::U8 => "$"@ + spec_hex2(mem[j as int]),
        InstrucionTarget::I8 => "$"@ + spec_hex2(mem[j as int]),
        InstrucionTarget::A8 => "[$FF00+$"@ + spec_hex2(mem[j as int]) + "]"@,
        InstrucionTarget::SPi8 => "SP+$"@ + spec_hex2(mem[j as int]),
        InstrucionTarget::U16 => "$"@ + spec_hex4(
            crate::register::word_of(mem[wrap16(j + 1) as int], mem[j as int]),
        ),
        InstrucionTarget::A16 => "[$"@ + spec_hex4(
            crate::register::word_of(mem[wrap16(j + 1) as int], mem[j as int]),
        ) + "]"@,
        _ => t.spec_text(),
    }
}

#[verifier::rlimit(100)]
fn sub_target(t: InstrucionTarget, mem: &Memory, j: u16) -> (r: String)
    requires
        mem.wf(),
    ensures
        r@ == sub_target_text(t, mem@, j),
{
    proof {
        lemma_wrap16(j + 1);
    }
    match t {
        InstrucionTarget::U8 | InstrucionTarget::I8 => {
            let mut s = String::from_str("$");
            let h = hex2(mem.read(j as usize));
            s.append(h.as_str());
            s
        },
        InstrucionTarget::A8 => {
            let mut s = String::from_str("[$FF00+$");
            let h = hex2(mem.read(j as usize));
            s.append(h.as_str());
            s.append("]");
            s
        },
        InstrucionTarget::SPi8 => {
            let mut s = String::from_str("SP+$");
            let h = hex2(mem.read(j as usize));
            s.append(h.as_str());
            s
        },
        InstrucionTarget::U16 => {
            let lo = mem.read(j as usize);
            let hi = mem.read(j.wrapping_add(1) as usize);
            let mut s = String::from_str("$");
            let h = hex4(((hi as u16) << 8) | (lo as u16));
            s.append(h.as_str());
            s
        },
        InstrucionTarget::A16 => {
            let lo = mem.read(j as usize);
            let hi = mem.read(j.wrapping_add(1) as usize);
            let mut s = String::from_str("[$");
            let h = hex4(((hi as u16) << 8) | (lo as u16));
            s.append(h.as_str());
            s.append("]");
            s
        },
        _ => String::from_str(t.text()),
    }
}

/// How many immediate bytes an instruction's rendering consumes.
pub open spec fn spec_imm_count(i: Instruction) -> nat {
    match i {
        Instruction::LD(a, b) => imm_len_t(a) + imm_len_t(b),
        Instruction::LDI(a, b) => imm_len_t(a) + imm_len_t(b),
        Instruction::LDD(a, b) => imm_len_t(a) + imm_len_t(b),
        Instruction::ADD(a, b) => imm_len_t(a) + imm_len_t(b),
        Instruction::ADC(a, b) => imm_len_t(a) + imm_len_t(b),
        Instruction::SUB(a, b) => imm_len_t(a) + imm_len_t(b),
        Instruction::SBC(a, b) => imm_len_t(a) + imm_len_t(b),
        Instruction::AND(a, b) => imm_len_t(a) + imm_len_t(b),
        Instruction::XOR(a, b) => imm_len_t(a) + imm_len_t(b),
        Instruction::OR(a, b) => imm_len_t(a) + imm_len_t(b),
        Instruction::CP(a, b) => imm_len_t(a) + imm_len_t(b),
        Instruction::PUSH(op) => imm_len_t(op),
        Instruction::POP(op) => imm_len_t(op),
        Instruction::INC(op) => imm_len_t(op),
        Instruction::DEC(op) => imm_len_t(op),
        Instruction::RLC(op) => imm_len_t(op),
        Instruction::RL(op) => imm_len_t(op),
        Instruction::RRC(op) => imm_len_t(op),
        Instruction::RR(op) => imm_len_t(op),
        Instruction::SLA(op) => imm_len_t(op),
        Instruction::SWAP(op) => imm_len_t(op),
        Instruction::SRA(op) => imm_len_t(op),
        Instruction::SRL(op) => imm_len_t(op),
        Instruction::BIT(_n, op) => imm_len_t(op),
        Instruction::SET(_n, op) => imm_len_t(op),
        Instruction::RES(_n, op) => imm_len_t(op),
        Instruction::JP(_c, d) => imm_len_t(d),
        Instruction::JR(_c, d) => imm_len_t(d),
        Instruction::CALL(_c, d) => imm_len_t(d),
        _ => 0,
    }
}

/// A mnemonic with two rendered operands, the second taking its immediates
/// after the first's.
pub open spec fn spec_two_line(
    mn: Seq<char>,
    a: InstrucionTarget,
    b: InstrucionTarget,
    mem: Seq<u8>,
    j: u16,
) -> Seq<char> {
    mn + " "@ + sub_target_text(a, mem, j) + " "@ + sub_target_text(
        b,
        mem,
        wrap16(j + imm_len_t(a)),
    )
}

/// A mnemonic with one rendered operand.
pub open spec fn spec_one_line(
    mn: Seq<char>,
    op: InstrucionTarget,
    mem: Seq<u8>,
    j: u16,
) -> Seq<char> {
    mn + " "@ + sub_target_text(op, mem, j)
}

/// A single-bit mnemonic: the bit index in decimal, then the operand.
pub open spec fn spec_bit_line(
    mn: Seq<char>,
    n: u8,
    op: InstrucionTarget,
    mem: Seq<u8>,
    j: u16,
) -> Seq<char> {
    mn + " "@ + spec_dec(n as int) + " "@ + sub_target_text(op, mem, j)
}

/// A flow mnemonic: the condition is omitted when absent, then the rendered
/// destination.
pub open spec fn spec_cond_line(
    mn: Seq<char>,
    c: InstrucionTarget,
    d: InstrucionTarget,
    mem: Seq<u8>,
    j: u16,
) -> Seq<char> {
    if c is Blank {
        mn + " "@ + sub_target_text(d, mem, j)
    } else {
        mn + " "@ + c.spec_text() + " "@ + sub_target_text(d, mem, j)
    }
}

#[verifier::rlimit(100)]
fn two_op_line(
    mn: &'static str,
    a: InstrucionTarget,
    b: InstrucionTarget,
    mem: &Memory,
    j: u16,
) -> (r: (String, usize))
    requires
        mem.wf(),
    ensures
        r.0@ == spec_two_line(mn@, a, b, mem@, j),
        r.1 as int == imm_len_t(a) + imm_len_t(b),
        r.1 <= 4,
{
    let mut s = String::from_str(mn);
    s.append(" ");
    let t1 = sub_target(a, mem, j);
    s.append(t1.as_str());
    s.append(" ");
    let i1 = imm_len(a);
    let t2 = sub_target(b, mem, j.wrapping_add(i1 as u16));
    s.append(t2.as_str());
    (s, i1 + imm_len(b))
}

#[verifier::rlimit(100)]
fn one_op_line(mn: &'static str, op: InstrucionTarget, mem: &Memory, j: u16) -> (r: (
    String,
    usize,
))
    requires
        mem.wf(),
    ensures
        r.0@ == spec_one_line(mn@, op, mem@, j),
        r.1 as int == imm_len_t(op),
        r.1 <= 4,
{
    let mut s = String::from_str(mn);
    s.append(" ");
    let t1 = sub_target(op, mem, j);
    s.append(t1.as_str());
    (s, imm_len(op))
}

#[verifier::rlimit(100)]
fn bit_op_line(mn: &'static str, n: u8, op: InstrucionTarget, mem: &Memory, j: u16) -> (r: (
    String,
    usize,
))
    requires
        mem.wf(),
    ensures
        r.0@ == spec_bit_line(mn@, n, op, mem@, j),
        r.1 as int == imm_len_t(op),
        r.1 <= 4,
{
    let mut s = String::from_str(mn);
    s.append(" ");
    let d = dec_u8(n);
    s.append(d.as_str());
    s.append(" ");
    let t1 = sub_target(op, mem, j);
    s.append(t1.as_str());
    (s, imm_len(op))
}

#[verifier::rlimit(100)]
fn cond_op_line(
    mn: &'static str,
    c: InstrucionTarget,
    d: InstrucionTarget,
    mem: &Memory,
    j: u16,
) -> (r: (String, usize))
    requires
        mem.wf(),
    ensures
        r.0@ == spec_cond_line(mn@, c, d, mem@, j),
        r.1 as int == imm_len_t(d),
        r.1 <= 4,
{
    let mut s = String::from_str(mn);
    s.append(" ");
    if let InstrucionTarget::Blank = c {
    } else {
        s.append(c.text());
        s.append(" ");
    }
    let t1 = sub_target(d, mem, j);
    s.append(t1.as_str());
    (s, imm_len(d))
}

/// The rendered body of one instruction at position `j`: its mnemonic and
/// operands, with immediates spliced in from memory.
pub open spec fn spec_instr_line(i: Instruction, mem: Seq<u8>, j: u16) -> Seq<char> {
    match i {
        Instruction::LD(a, b) => spec_two_line("LD"@, a, b, mem, j),
        Instruction::LDI(a, b) => spec_two_line("LDI"@, a, b, mem, j),
        Instruction::LDD(a, b) => spec_two_line("LDD"@, a, b, mem, j),
        Instruction::ADD(a, b) => spec_two_line("ADD"@, a, b, mem, j),
        Instruction::ADC(a, b) => spec_two_line("ADC"@, a, b, mem, j),
        Instruction::SUB(a, b) => spec_two_line("SUB"@, a, b, mem, j),
        Instruction::SBC(a, b) => spec_two_line("SBC"@, a, b, mem, j),
        Instruction::AND(a, b) => spec_two_line("AND"@, a, b, mem, j),
        Instruction::XOR(a, b) => spec_two_line("XOR"@, a, b, mem, j),
        Instruction::OR(a, b) => spec_two_line("OR"@, a, b, mem, j),
        Instruction::CP(a, b) => spec_two_line("CP"@, a, b, mem, j),
        Instruction::PUSH(op) => spec_one_line("PUSH"@, op, mem, j),
        Instruction::POP(op) => spec_one_line("POP"@, op, mem, j),
        Instruction::INC(op) => spec_one_line("INC"@, op, mem, j),
        Instruction::DEC(op) => spec_one_line("DEC"@, op, mem, j),
        Instruction::RLC(op) => spec_one_line("RLC"@, op, mem, j),
        Instruction::RL(op) => spec_one_line("RL"@, op, mem, j),
        Instruction::RRC(op) => spec_one_line("RRC"@, op, mem, j),
        Instruction::RR(op) => spec_one_line("RR"@, op, mem, j),
        Instruction::SLA(op) => spec_one_line("SLA"@, op, mem, j),
        Instruction::SWAP(op) => spec_one_line("SWAP"@, op, mem, j),
        Instruction::SRA(op) => spec_one_line("SRA"@, op, mem, j),
        Instruction::SRL(op) => spec_one_line("SRL"@, op, mem, j),
        Instruction::BIT(n, op) => spec_bit_line("BIT"@, n, op, mem, j),
        Instruction::SET(n, op) => spec_bit_line("SET"@, n, op, mem, j),
        Instruction::RES(n, op) => spec_bit_line("RES"@, n, op, mem, j),
        Instruction::JP(c, d) => spec_cond_line("JP"@, c, d, mem, j),
        Instruction::JR(c, d) => spec_cond_line("JR"@, c, d, mem, j),
        Instruction::CALL(c, d) => spec_cond_line("CALL"@, c, d, mem, j),
        Instruction::RET(c) => if c is Blank {
            "RET"@
        } else {
            "RET "@ + c.spec_text()
        },
        Instruction::RST(n) => "RST 0x"@ + spec_hex(n as int),
        Instruction::DAA => "DAA"@,
        Instruction::CPL => "CPL"@,
        Instruction::RLCA => "RLCA"@,
        Instruction::RLA => "RLA"@,
        Instruction::RRCA => "RRCA"@,
        Instruction::RRA => "RRA"@,
        Instruction::CCF => "CCF"@,
        Instruction::SCF => "SCF"@,
        Instruction::NOP => "NOP"@,
        Instruction::HALT => "HALT"@,
        Instruction::STOP => "STOP"@,
        Instruction::DI => "DI"@,
        Instruction::EI => "EI"@,
        Instruction::RETI => "RETI"@,
        Instruction::PREFIX => "PREFIX"@,
        Instruction::XXX => "???"@,
        Instruction::TODO => "TODO"@,
    }
}

/// Renders one instruction whose immediates start at position `j`, and
/// returns the line body together with the count of immediate bytes it
/// consumed.
#[verifier::rlimit(100)]
fn instr_line(i: Instruction, mem: &Memory, j: u16) -> (r: (String, usize))
    requires
        mem.wf(),
    ensures
        r.0@ == spec_instr_line(i, mem@, j),
        r.1 as int == spec_imm_count(i),
        r.1 <= 4,
{
    match i {
        Instruction::LD(a, b) => {
            return two_op_line("LD", a, b, mem, j);
        },
        Instruction::LDI(a, b) => {
            return two_op_line("LDI", a, b, mem, j);
        },
        Instruction::LDD(a, b) => {
            return two_op_line("LDD", a, b, mem, j);
        },
        Instruction::ADD(a, b) => {
            return two_op_line("ADD", a, b, mem, j);
        },
        Instruction::ADC(a, b) => {
            return two_op_line("ADC", a, b, mem, j);
        },
        Instruction::SUB(a, b) => {
            return two_op_line("SUB", a, b, mem, j);
        },
        Instruction::SBC(a, b) => {
            return two_op_line("SBC", a, b, mem, j);
        },
        Instruction::AND(a, b) => {
            return two_op_line("AND", a, b, mem, j);
        },
        Instruction::XOR(a, b) => {
            return two_op_line("XOR", a, b, mem, j);
        },
        Instruction::OR(a, b) => {
            return two_op_line("OR", a, b, mem, j);
        },
        Instruction::CP(a, b) => {
            return two_op_line("CP", a, b, mem, j);
        },
        Instruction::PUSH(op) => {
            return one_op_line("PUSH", op, mem, j);
        },
        Instruction::POP(op) => {
            return one_op_line("POP", op, mem, j);
        },
        Instruction::INC(op) => {
            return one_op_line("INC", op, mem, j);
        },
        Instruction::DEC(op) => {
            return one_op_line("DEC", op, mem, j);
        },
        Instruction::RLC(op) => {
            return one_op_line("RLC", op, mem, j);
        },
        Instruction::RL(op) => {
            return one_op_line("RL", op, mem, j);
        },
        Instruction::RRC(op) => {
            return one_op_line("RRC", op, mem, j);
        },
        Instruction::RR(op) => {
            return one_op_line("RR", op, mem, j);
        },
        Instruction::SLA(op) => {
            return one_op_line("SLA", op, mem, j);
        },
        Instruction::SWAP(op) => {
            return one_op_line("SWAP", op, mem, j);
        },
        Instruction::SRA(op) => {
            return one_op_line("SRA", op, mem, j);
        },
        Instruction::SRL(op) => {
            return one_op_line("SRL", op, mem, j);
        },
        Instruction::BIT(n, op) => {
            return bit_op_line("BIT", n, op, mem, j);
        },
        Instruction::SET(n, op) => {
            return bit_op_line("SET", n, op, mem, j);
        },
        Instruction::RES(n, op) => {
            return bit_op_line("RES", n, op, mem, j);
        },
        Instruction::JP(c, d) => {
            return cond_op_line("JP", c, d, mem, j);
        },
        Instruction::JR(c, d) => {
            return cond_op_line("JR", c, d, mem, j);
        },
        Instruction::CALL(c, d) => {
            return cond_op_line("CALL", c, d, mem, j);
        },
        Instruction::RET(c) => {
            if let InstrucionTarget::Blank = c {
                return (String::from_str("RET"), 0);
            } else {
                let mut s = String::from_str("RET ");
                s.append(c.text());
                return (s, 0);
            }
        },
        Instruction::RST(n) => {
            let mut s = String::from_str("RST 0x");
            let d = hex_u16(n);
            s.append(d.as_str());
            return (s, 0);
        },
        Instruction::DAA => {
            return (String::from_str("DAA"), 0);
        },
        Instruction::CPL => {
            return (String::from_str("CPL"), 0);
        },
        Instruction::RLCA => {
            return (String::from_str("RLCA"), 0);
        },
        Instruction::RLA => {
            return (String::from_str("RLA"), 0);
        },
        Instruction::RRCA => {
            return (String::from_str("RRCA"), 0);
        },
        Instruction::RRA => {
            return (String::from_str("RRA"), 0);
        },
        Instruction::CCF => {
            return (String::from_str("CCF"), 0);
        },
        Instruction::SCF => {
            return (String::from_str("SCF"), 0);
        },
        Instruction::NOP => {
            return (String::from_str("NOP"), 0);
        },
        Instruction::HALT => {
            return (String::from_str("HALT"), 0);
        },
        Instruction::STOP => {
            return (String::from_str("STOP"), 0);
        },
        Instruction::DI => {
            return (String::from_str("DI"), 0);
        },
        Instruction::EI => {
            return (String::from_str("EI"), 0);
        },
        Instruction::RETI => {
            return (String::from_str("RETI"), 0);
        },
        Instruction::PREFIX => {
            return (String::from_str("PREFIX"), 0);
        },
        Instruction::XXX => {
            return (String::from_str("???"), 0);
        },
        Instruction::TODO => {
            return (String::from_str("TODO"), 0);
        },
    }
}


/// The disassembly of memory from position `i` up to 0xFFFF: one entry per
/// rendered position, in increasing address order. A position below 0x0100
/// renders opaque and advances by one byte; any other position renders its
/// decoded instruction and advances past the opcode and its immediates.
pub open spec fn spec_disassembly_from(mem: Seq<u8>, i: int) -> Seq<(u16, Seq<char>)>
    decreases (if i >= 0xFFFF {
        0int
    } else {
        0xFFFF - i
    }),
{
    if i < 0 || i >= 0xFFFF {
        Seq::empty()
    } else if i < 0x100 {
        seq![((i as u16), "$"@ + spec_hex4(i as u16) + " ???"@)] + spec_disassembly_from(
            mem,
            i + 1,
        )
    } else {
        let instr = spec_decode(mem[i]).0;
        let line = "$"@ + spec_hex4(i as u16) + " "@ + spec_instr_line(instr, mem, wrap16(i + 1));
        seq![((i as u16), line)] + spec_disassembly_from(mem, i + 1 + spec_imm_count(instr))
    }
}

/// The disassembly of the whole memory map.
pub open spec fn spec_disassembly(mem: Seq<u8>) -> Seq<(u16, Seq<char>)> {
    spec_disassembly_from(mem, 0)
}

impl CPU {
    /// Walks memory from address 0 and renders each position: addresses
    /// below 0x0100 as opaque boot-ROM lines, every other position as its
    /// decoded instruction with immediates spliced in, collected in
    /// increasing address order.
    pub fn disassemble(&self) -> (r: IndexMap<u16, String>)
        requires
            self.wf(),
        ensures
            index_entries(r) == spec_disassembly(self@.mem),
    {
        let mut disas: IndexMap<u16, String> = indexmap_new();
        let mut i: usize = 0;
        while i < 0xFFFF
            invariant
                self.wf(),
                i <= 0x10003,
                forall|k: int|
                    0 <= k < index_entries(disas).len() ==> (#[trigger] index_entries(disas)[k]).0
                        < i,
                index_entries(disas) + spec_disassembly_from(self@.mem, i as int)
                    == spec_disassembly(self@.mem),
            decreases (if i >= 0xFFFF {
                0int
            } else {
                0xFFFF - i
            }),
        {
            let ghost d0 = index_entries(disas);
            let ghost i0 = i as int;
            if i < 0x100 {
                let mut line = String::from_str("$");
                let h = hex4(i as u16);
                line.append(h.as_str());
                line.append(" ???");
                indexmap_insert(&mut disas, i as u16, line);
                i = i + 1;
                proof {
                    let e = ((i0 as u16), "$"@ + spec_hex4(i0 as u16) + " ???"@);
                    assert(index_entries(disas) =~= d0.push(e));
                    assert(spec_disassembly_from(self@.mem, i0) == seq![e]
                        + spec_disassembly_from(self@.mem, i as int));
                    assert(index_entries(disas) + spec_disassembly_from(self@.mem, i as int)
                        =~= spec_disassembly(self@.mem));
                }
            } else {
                let op = self.memory.read(i);
                let entry = self.opcode_table[op as usize];
                proof {
                    lemma_wrap16(i0 + 1);
                }
                let pair = instr_line(entry.0, &self.memory, (i as u16).wrapping_add(1));
                let mut line = String::from_str("$");
                let h = hex4(i as u16);
                line.append(h.as_str());
                line.append(" ");
                line.append(pair.0.as_str());
                indexmap_insert(&mut disas, i as u16, line);
                i = i + 1 + pair.1;
                proof {
                    let instr = spec_decode(self@.mem[i0]).0;
                    let e = (
                        (i0 as u16),
                        "$"@ + spec_hex4(i0 as u16) + " "@ + spec_instr_line(
                            instr,
                            self@.mem,
                            wrap16(i0 + 1),
                        ),
                    );
                    assert(index_entries(disas) =~= d0.push(e));
                    assert(spec_disassembly_from(self@.mem, i0) == seq![e]
                        + spec_disassembly_from(self@.mem, i as int));
                    assert(index_entries(disas) + spec_disassembly_from(self@.mem, i as int)
                        =~= spec_disassembly(self@.mem));
                }
            }
        }
        disas
    }
}

} // verus!
