//! The fetch-decode-execute engine. The architectural state (registers,
//! flags, memory, interrupt-master latch, halt/stop latches, cycle countdown)
//! is modelled by [`MachineState`], and every executor method states exactly
//! how it transforms that model.

use vstd::prelude::*;

use crate::arith::{wrap8, wrap16, lemma_wrap8, lemma_wrap16};
use crate::memory::{Memory, write_policy};
use crate::opcodes::{Instruction, InstrucionTarget};
use crate::register::{Register, hi_byte, lo_byte, word_of, lemma_word_of_bytes};
use crate::table_builder::{spec_decode, spec_prefix_decode, build_table, build_prefix, lemma_low_bits};
use crate::CpuError;

verus! {

/// The mathematical model of the whole machine: register pairs, special
/// registers, the three latches, the cycle countdown, and memory as a
/// sequence of 65536 bytes.
#[verifier::ext_equal]
pub struct MachineState {
    pub af: u16,
    pub bc: u16,
    pub de: u16,
    pub hl: u16,
    pub sp: u16,
    pub pc: u16,
    pub ime: bool,
    pub halted: bool,
    pub stopped: bool,
    pub cycles: int,
    pub mem: Seq<u8>,
}

/// One of the four condition flags held in the low byte of AF.
pub enum Flag {
    Z,
    N,
    C,
    H,
}

/// The flag byte: bit 7 = Z, bit 6 = N, bit 5 = H, bit 4 = C; the low nibble
/// is always zero.
pub open spec fn flags_byte(z: bool, n: bool, h: bool, c: bool) -> u8 {
    (if z {
        0x80u8
    } else {
        0u8
    }) | (if n {
        0x40u8
    } else {
        0u8
    }) | (if h {
        0x20u8
    } else {
        0u8
    }) | (if c {
        0x10u8
    } else {
        0u8
    })
}

/// The Z flag of an AF value.
pub open spec fn zf(af: u16) -> bool {
    af & 0x80 != 0
}

/// The N flag of an AF value.
pub open spec fn nf(af: u16) -> bool {
    af & 0x40 != 0
}

/// The H flag of an AF value.
pub open spec fn hf(af: u16) -> bool {
    af & 0x20 != 0
}

/// The C flag of an AF value.
pub open spec fn cf(af: u16) -> bool {
    af & 0x10 != 0
}

/// The AF low nibble is zero: the invariant of the flag register.
pub open spec fn af_wf(af: u16) -> bool {
    af & 0xF == 0
}

/// Replacing the low byte of AF by a flag byte built from four flags yields
/// an AF whose flags read back as those four, and keeps the low nibble zero.
pub proof fn lemma_flags_byte(hi: u8, z: bool, n: bool, h: bool, c: bool)
    ensures
        ({
            let f = flags_byte(z, n, h, c);
            let af = word_of(hi, f);
            zf(af) == z && nf(af) == n && hf(af) == h && cf(af) == c && af_wf(af) && f & 0x0F == 0
                && zf(af) == (f & 0x80 != 0) && nf(af) == (f & 0x40 != 0) && hf(af) == (f & 0x20
                != 0) && cf(af) == (f & 0x10 != 0)
        }),
{
    let f = flags_byte(z, n, h, c);
    let af = word_of(hi, f);
    assert(f == (if z {
        0x80u8
    } else {
        0u8
    }) | (if n {
        0x40u8
    } else {
        0u8
    }) | (if h {
        0x20u8
    } else {
        0u8
    }) | (if c {
        0x10u8
    } else {
        0u8
    }));
    assert(af == (((hi as u16) << 8) | (f as u16)) as u16);
    assert((af & 0x80 != 0) == (f & 0x80 != 0) && (af & 0x40 != 0) == (f & 0x40 != 0) && (af & 0x20
        != 0) == (f & 0x20 != 0) && (af & 0x10 != 0) == (f & 0x10 != 0) && af & 0xF == f & 0xF)
        by (bit_vector)
        requires
            af == (((hi as u16) << 8) | (f as u16)) as u16,
    ;
    assert((f & 0x80 != 0) == z && (f & 0x40 != 0) == n && (f & 0x20 != 0) == h && (f & 0x10 != 0)
        == c && f & 0x0F == 0) by (bit_vector)
        requires
            f == (if z {
                0x80u8
            } else {
                0u8
            }) | (if n {
                0x40u8
            } else {
                0u8
            }) | (if h {
                0x20u8
            } else {
                0u8
            }) | (if c {
                0x10u8
            } else {
                0u8
            }),
    ;
}

/// A flag test on the low byte of AF reads the same bit as the test on the
/// 16-bit AF value, and replacing the high byte keeps every flag.
pub proof fn lemma_af_byte_flags(af: u16)
    ensures
        (lo_byte(af) & 0x80 != 0) == zf(af),
        (lo_byte(af) & 0x40 != 0) == nf(af),
        (lo_byte(af) & 0x20 != 0) == hf(af),
        (lo_byte(af) & 0x10 != 0) == cf(af),
        lo_byte(af) & 0xF == af & 0xF,
        forall|v: u8| zf(#[trigger] word_of(v, lo_byte(af))) == zf(af),
        forall|v: u8| nf(#[trigger] word_of(v, lo_byte(af))) == nf(af),
        forall|v: u8| hf(#[trigger] word_of(v, lo_byte(af))) == hf(af),
        forall|v: u8| cf(#[trigger] word_of(v, lo_byte(af))) == cf(af),
        forall|v: u8| (#[trigger] word_of(v, lo_byte(af))) & 0xF == af & 0xF,
{
    let lo = lo_byte(af);
    assert((lo & 0x80 != 0) == (af & 0x80 != 0) && (lo & 0x40 != 0) == (af & 0x40 != 0) && (lo
        & 0x20 != 0) == (af & 0x20 != 0) && (lo & 0x10 != 0) == (af & 0x10 != 0) && lo & 0xF == af
        & 0xF) by (bit_vector)
        requires
            lo == (af & 0xFF) as u8,
    ;
    assert forall|v: u8| true implies {
        &&& zf(#[trigger] word_of(v, lo)) == zf(af)
        &&& nf(word_of(v, lo)) == nf(af)
        &&& hf(word_of(v, lo)) == hf(af)
        &&& cf(word_of(v, lo)) == cf(af)
        &&& word_of(v, lo) & 0xF == af & 0xF
    } by {
        let w = word_of(v, lo);
        assert((w & 0x80 != 0) == (lo & 0x80 != 0) && (w & 0x40 != 0) == (lo & 0x40 != 0) && (w
            & 0x20 != 0) == (lo & 0x20 != 0) && (w & 0x10 != 0) == (lo & 0x10 != 0) && w & 0xF == lo
            & 0xF) by (bit_vector)
            requires
                w == (((v as u16) << 8) | (lo as u16)) as u16,
        ;
    }
}

/// Sign extension of a byte into a 16-bit value.
pub open spec fn sext8(b: u8) -> u16 {
    if b >= 0x80 {
        ((b as u16) | 0xFF00) as u16
    } else {
        b as u16
    }
}

/// The byte of memory at a 16-bit address.
pub open spec fn mem_at(s: MachineState, addr: u16) -> u8 {
    s.mem[addr as int]
}

/// The immediate byte at the program counter.
pub open spec fn imm8(s: MachineState) -> u8 {
    mem_at(s, s.pc)
}

/// The little-endian immediate 16-bit value at the program counter.
pub open spec fn imm16(s: MachineState) -> u16 {
    word_of(mem_at(s, wrap16(s.pc + 1)), mem_at(s, s.pc))
}

/// The state after consuming `k` immediate bytes.
pub open spec fn after_imm(s: MachineState, k: int) -> MachineState {
    MachineState { pc: wrap16(s.pc + k), ..s }
}

/// The state with the flag byte `f` stored into the low byte of AF.
pub open spec fn with_flag_byte(s: MachineState, f: u8) -> MachineState {
    MachineState { af: word_of(hi_byte(s.af), f), ..s }
}

/// The result and flag byte of `ADD SP, i8` (shared with `LD HL, SP+i8`):
/// the flags come from the low-byte arithmetic.
pub open spec fn alu_addsp(sp: u16, imm: u16) -> (u16, u8) {
    (
        wrap16(sp + imm),
        flags_byte(false, false, (sp % 16) + (imm % 16) > 0xF, (sp % 0x100) + (imm % 0x100) > 0xFF),
    )
}

/// Reading an operand: the value (zero-extended to 16 bits) and the state
/// after the read. Immediate forms consume bytes at PC; `SP+i8` also sets
/// the flags by the `ADD SP, i8` rule; a condition reads 1 when it holds;
/// the absent operand reads 0.
pub open spec fn t_read(s: MachineState, t: InstrucionTarget) -> (u16, MachineState) {
    match t {
        InstrucionTarget::A => (hi_byte(s.af) as u16, s),
        InstrucionTarget::B => (hi_byte(s.bc) as u16, s),
        InstrucionTarget::C => (lo_byte(s.bc) as u16, s),
        InstrucionTarget::D => (hi_byte(s.de) as u16, s),
        InstrucionTarget::E => (lo_byte(s.de) as u16, s),
        InstrucionTarget::H => (hi_byte(s.hl) as u16, s),
        InstrucionTarget::L => (lo_byte(s.hl) as u16, s),
        InstrucionTarget::HLMem => (mem_at(s, s.hl) as u16, s),
        InstrucionTarget::CMem => (mem_at(s, (0xFF00 + lo_byte(s.bc) as u16) as u16) as u16, s),
        InstrucionTarget::U8 => (imm8(s) as u16, after_imm(s, 1)),
        InstrucionTarget::A8 => (
            mem_at(s, (0xFF00 + imm8(s) as u16) as u16) as u16,
            after_imm(s, 1),
        ),
        InstrucionTarget::I8 => (sext8(imm8(s)), after_imm(s, 1)),
        InstrucionTarget::AF => (s.af, s),
        InstrucionTarget::BC => (s.bc, s),
        InstrucionTarget::DE => (s.de, s),
        InstrucionTarget::HL => (s.hl, s),
        InstrucionTarget::SP => (s.sp, s),
        InstrucionTarget::PC => (s.pc, s),
        InstrucionTarget::BCMem => (mem_at(s, s.bc) as u16, s),
        InstrucionTarget::DEMem => (mem_at(s, s.de) as u16, s),
        InstrucionTarget::U16 => (imm16(s), after_imm(s, 2)),
        InstrucionTarget::A16 => (mem_at(s, imm16(s)) as u16, after_imm(s, 2)),
        InstrucionTarget::SPi8 => {
            let imm = sext8(imm8(s));
            let s1 = after_imm(s, 1);
            let (r, f) = alu_addsp(s.sp, imm);
            (r, with_flag_byte(s1, f))
        },
        InstrucionTarget::ZCond => (
            if zf(s.af) {
                1
            } else {
                0
            },
            s,
        ),
        InstrucionTarget::CCond => (
            if cf(s.af) {
                1
            } else {
                0
            },
            s,
        ),
        InstrucionTarget::NZCond => (
            if !zf(s.af) {
                1
            } else {
                0
            },
            s,
        ),
        InstrucionTarget::NCCond => (
            if !cf(s.af) {
                1
            } else {
                0
            },
            s,
        ),
        InstrucionTarget::Blank => (0, s),
    }
}

/// Which operands an instruction may write to.
pub open spec fn writable_target(t: InstrucionTarget) -> bool {
    match t {
        InstrucionTarget::U8 => false,
        InstrucionTarget::I8 => false,
        InstrucionTarget::U16 => false,
        InstrucionTarget::SPi8 => false,
        InstrucionTarget::ZCond => false,
        InstrucionTarget::CCond => false,
        InstrucionTarget::NZCond => false,
        InstrucionTarget::NCCond => false,
        InstrucionTarget::Blank => false,
        _ => true,
    }
}

/// Writing an operand: the state after the store. An 8-bit operand stores
/// the low byte of the value; a memory operand stores through the region
/// write policy; a store to AF masks the low nibble to zero.
pub open spec fn t_write(s: MachineState, t: InstrucionTarget, v: u16) -> MachineState {
    match t {
        InstrucionTarget::A => MachineState { af: word_of(lo_byte(v), lo_byte(s.af)), ..s },
        InstrucionTarget::B => MachineState { bc: word_of(lo_byte(v), lo_byte(s.bc)), ..s },
        InstrucionTarget::C => MachineState { bc: word_of(hi_byte(s.bc), lo_byte(v)), ..s },
        InstrucionTarget::D => MachineState { de: word_of(lo_byte(v), lo_byte(s.de)), ..s },
        InstrucionTarget::E => MachineState { de: word_of(hi_byte(s.de), lo_byte(v)), ..s },
        InstrucionTarget::H => MachineState { hl: word_of(lo_byte(v), lo_byte(s.hl)), ..s },
        InstrucionTarget::L => MachineState { hl: word_of(hi_byte(s.hl), lo_byte(v)), ..s },
        InstrucionTarget::HLMem => MachineState {
            mem: write_policy(s.mem, s.hl as int, lo_byte(v)),
            ..s
        },
        InstrucionTarget::CMem => MachineState {
            mem: write_policy(s.mem, 0xFF00 + lo_byte(s.bc) as int, lo_byte(v)),
            ..s
        },
        InstrucionTarget::A8 => {
            let addr = 0xFF00 + imm8(s) as int;
            let s1 = after_imm(s, 1);
            MachineState { mem: write_policy(s1.mem, addr, lo_byte(v)), ..s1 }
        },
        InstrucionTarget::AF => MachineState { af: (v & 0xFFF0) as u16, ..s },
        InstrucionTarget::BC => MachineState { bc: v, ..s },
        InstrucionTarget::DE => MachineState { de: v, ..s },
        InstrucionTarget::HL => MachineState { hl: v, ..s },
        InstrucionTarget::SP => MachineState { sp: v, ..s },
        InstrucionTarget::PC => MachineState { pc: v, ..s },
        InstrucionTarget::BCMem => MachineState {
            mem: write_policy(s.mem, s.bc as int, lo_byte(v)),
            ..s
        },
        InstrucionTarget::DEMem => MachineState {
            mem: write_policy(s.mem, s.de as int, lo_byte(v)),
            ..s
        },
        InstrucionTarget::A16 => {
            let addr = imm16(s) as int;
            let s1 = after_imm(s, 2);
            MachineState { mem: write_policy(s1.mem, addr, lo_byte(v)), ..s1 }
        },
        _ => s,
    }
}

/// The width an operand reads and writes: 8 or 16 bits, 1 for a condition,
/// 0 for the absent operand. Only INC and DEC consult this, to decide
/// whether the flags are updated.
pub open spec fn spec_bitness(t: InstrucionTarget) -> i32 {
    match t {
        InstrucionTarget::A => 8,
        InstrucionTarget::B => 8,
        InstrucionTarget::C => 8,
        InstrucionTarget::D => 8,
        InstrucionTarget::E => 8,
        InstrucionTarget::H => 8,
        InstrucionTarget::L => 8,
        InstrucionTarget::HLMem => 8,
        InstrucionTarget::CMem => 8,
        InstrucionTarget::U8 => 8,
        InstrucionTarget::A8 => 8,
        InstrucionTarget::I8 => 8,
        InstrucionTarget::A16 => 8,
        InstrucionTarget::BCMem => 8,
        InstrucionTarget::DEMem => 8,
        InstrucionTarget::AF => 16,
        InstrucionTarget::BC => 16,
        InstrucionTarget::DE => 16,
        InstrucionTarget::HL => 16,
        InstrucionTarget::SP => 16,
        InstrucionTarget::SPi8 => 16,
        InstrucionTarget::PC => 16,
        InstrucionTarget::U16 => 16,
        InstrucionTarget::ZCond => 1,
        InstrucionTarget::CCond => 1,
        InstrucionTarget::NZCond => 1,
        InstrucionTarget::NCCond => 1,
        InstrucionTarget::Blank => 0,
    }
}

/// An 8-bit operand reads as a byte; a condition reads as 0 or 1.
pub proof fn lemma_t_read_small(s: MachineState, t: InstrucionTarget)
    ensures
        spec_bitness(t) == 8 && !(t is I8) ==> t_read(s, t).0 <= 0xFF,
        spec_bitness(t) == 1 ==> t_read(s, t).0 <= 1,
        spec_bitness(t) == 0 ==> t_read(s, t).0 == 0,
{
}

/// The fetch-decode-execute engine and its architectural state.
pub struct CPU {
    pub reg_af: Register,
    pub reg_bc: Register,
    pub reg_de: Register,
    pub reg_hl: Register,
    pub stack_pointer: Register,
    pub pc: Register,
    pub ime: bool,
    pub halted: bool,
    pub stopped: bool,
    pub memory: Memory,
    pub cycles: i32,
    pub opcode_table: Vec<(Instruction, i32)>,
    pub prefix_table: Vec<(Instruction, i32)>,
}

impl View for CPU {
    type V = MachineState;

    open spec fn view(&self) -> MachineState {
        MachineState {
            af: self.reg_af.value,
            bc: self.reg_bc.value,
            de: self.reg_de.value,
            hl: self.reg_hl.value,
            sp: self.stack_pointer.value,
            pc: self.pc.value,
            ime: self.ime,
            halted: self.halted,
            stopped: self.stopped,
            cycles: self.cycles as int,
            mem: self.memory@,
        }
    }
}

/// The memory contents right after reset: all zero, then the hardware
/// registers applied (DIV=0xAB, TIMA=0, TMA=0, TAC=0xF8, IF=0xE1, IE=0).
pub open spec fn spec_reset_mem() -> Seq<u8> {
    Seq::new(0x10000, |i: int| 0u8).update(0xFF04, 0xAB).update(0xFF05, 0).update(0xFF06, 0).update(
        0xFF07,
        0xF8,
    ).update(0xFF0F, 0xE1).update(0xFFFF, 0)
}

/// The architectural post-reset state: AF=0x01B0, BC=0x0013, DE=0x00D8,
/// HL=0x014D, SP=0xFFFE, PC=0x0100, interrupts enabled, both latches clear,
/// no cycles pending.
pub open spec fn spec_reset_state() -> MachineState {
    MachineState {
        af: 0x01B0,
        bc: 0x0013,
        de: 0x00D8,
        hl: 0x014D,
        sp: 0xFFFE,
        pc: 0x0100,
        ime: true,
        halted: false,
        stopped: false,
        cycles: 0,
        mem: spec_reset_mem(),
    }
}

impl CPU {
    /// Well-formedness: the AF low nibble is zero, memory has 65536 cells,
    /// the cycle countdown is not negative, and both decode tables hold
    /// exactly what the decode functions specify.
    pub open spec fn wf(&self) -> bool {
        &&& self.memory.wf()
        &&& af_wf(self@.af)
        &&& self.cycles >= 0
        &&& self.opcode_table@.len() == 256
        &&& (forall|i: int| 0 <= i < 256 ==> self.opcode_table@[i] == spec_decode(i as u8))
        &&& self.prefix_table@.len() == 256
        &&& (forall|i: int| 0 <= i < 256 ==> self.prefix_table@[i] == spec_prefix_decode(i as u8))
    }

    /// Constructs the CPU in the post-reset state, with both decode tables
    /// built.
    pub fn new() -> (r: CPU)
        ensures
            r.wf(),
            r@ == spec_reset_state(),
    {
        let mut memory = Memory::new();
        proof {
            assert(memory@ =~= Seq::new(0x10000, |i: int| 0u8));
        }
        memory.reset_hardware_registers();
        let cpu = CPU {
            reg_af: Register::new(0x01B0),
            reg_bc: Register::new(0x0013),
            reg_de: Register::new(0x00D8),
            reg_hl: Register::new(0x014D),
            pc: Register::new(0x0100),
            stack_pointer: Register::new(0xFFFE),
            ime: true,
            memory,
            cycles: 0,
            opcode_table: build_table(),
            prefix_table: build_prefix(),
            halted: false,
            stopped: false,
        };
        proof {
            assert(0x01B0u16 & 0xF == 0) by (bit_vector);
            assert(cpu@ =~= spec_reset_state());
        }
        cpu
    }

    /// Whether the given flag is set in the flag register.
    pub fn get_flag(&self, target: Flag) -> (r: bool)
        ensures
            r == match target {
                Flag::Z => zf(self@.af),
                Flag::N => nf(self@.af),
                Flag::C => cf(self@.af),
                Flag::H => hf(self@.af),
            },
    {
        proof {
            lemma_af_byte_flags(self.reg_af.value);
        }
        let flag = self.reg_af.lo();
        let v = match target {
            Flag::Z => flag & 0x80,
            Flag::N => flag & 0x40,
            Flag::C => flag & 0x10,
            Flag::H => flag & 0x20,
        };
        v != 0
    }

    /// Sets the given flag, leaving the others unchanged.
    pub fn set_flag(&mut self, target: Flag)
        requires
            old(self).wf(),
        ensures
            final(self).wf(),
            final(self)@ == (MachineState {
                af: word_of(
                    hi_byte(old(self)@.af),
                    lo_byte(old(self)@.af) | match target {
                        Flag::Z => 0x80u8,
                        Flag::N => 0x40u8,
                        Flag::C => 0x10u8,
                        Flag::H => 0x20u8,
                    },
                ),
                ..old(self)@
            }),
    {
        let f = self.reg_af.lo();
        let ghost af0 = self.reg_af.value;
        match target {
            Flag::Z => self.reg_af.write_lo(f | 0x80),
            Flag::N => self.reg_af.write_lo(f | 0x40),
            Flag::C => self.reg_af.write_lo(f | 0x10),
            Flag::H => self.reg_af.write_lo(f | 0x20),
        }
        proof {
            let m: u8 = match target {
                Flag::Z => 0x80u8,
                Flag::N => 0x40u8,
                Flag::C => 0x10u8,
                Flag::H => 0x20u8,
            };
            let lo = lo_byte(af0);
            assert((lo | m) & 0xF == lo & 0xF) by (bit_vector)
                requires
                    m == 0x80 || m == 0x40 || m == 0x20 || m == 0x10,
            ;
            lemma_af_byte_flags(af0);
            lemma_word_of_bytes(hi_byte(af0), (lo | m) as u8);
            assert((word_of(hi_byte(af0), (lo | m) as u8)) & 0xF == af0 & 0xF) by (bit_vector)
                requires
                    lo_byte(word_of(hi_byte(af0), (lo | m) as u8)) == (lo | m) as u8,
                    (lo | m) & 0xF == lo & 0xF,
                    lo == (af0 & 0xFF) as u8,
            ;
            assert(final(self)@ =~= (MachineState {
                af: word_of(hi_byte(old(self)@.af), lo_byte(old(self)@.af) | m),
                ..old(self)@
            }));
        }
    }

    /// Builds a flag byte from the four conditions: bit 7 = Z, bit 6 = N,
    /// bit 5 = H, bit 4 = C, low nibble zero.
    fn build_flag(&self, z: bool, n: bool, h: bool, c: bool) -> (r: u8)
        ensures
            r == flags_byte(z, n, h, c),
    {
        let flag: u8 = (if z {
            0x80u8
        } else {
            0u8
        }) | (if n {
            0x40u8
        } else {
            0u8
        }) | (if h {
            0x20u8
        } else {
            0u8
        }) | (if c {
            0x10u8
        } else {
            0u8
        });
        flag
    }

    /// Consumes and returns the unsigned immediate byte at PC.
    pub fn get_imm_u8(&mut self) -> (r: u8)
        requires
            old(self).wf(),
        ensures
            final(self).wf(),
            r == imm8(old(self)@),
            final(self)@ == after_imm(old(self)@, 1),
    {
        let v = self.memory.read(self.pc.value as usize);
        self.pc.inc();
        proof {
            assert(final(self)@ =~= after_imm(old(self)@, 1));
        }
        v
    }

    /// Consumes and returns the signed immediate byte at PC.
    pub fn get_imm_i8(&mut self) -> (r: i8)
        requires
            old(self).wf(),
        ensures
            final(self).wf(),
            r as u8 == imm8(old(self)@),
            final(self)@ == after_imm(old(self)@, 1),
    {
        let v = self.get_imm_u8();
        proof {
            assert(v as i8 as u8 == v) by (bit_vector);
        }
        v as i8
    }

    /// Consumes and returns the little-endian immediate 16-bit value at PC.
    pub fn get_imm_16(&mut self) -> (r: u16)
        requires
            old(self).wf(),
        ensures
            final(self).wf(),
            r == imm16(old(self)@),
            final(self)@ == after_imm(old(self)@, 2),
    {
        let lo = self.memory.read(self.pc.value as usize);
        self.pc.inc();
        let hi = self.memory.read(self.pc.value as usize);
        self.pc.inc();
        let r: u16 = ((hi as u16) << 8) | (lo as u16);
        proof {
            lemma_wrap16(old(self)@.pc + 1);
            lemma_wrap16(wrap16(old(self)@.pc + 1) + 1);
            lemma_wrap16(old(self)@.pc + 2);
            assert(final(self)@ =~= after_imm(old(self)@, 2));
        }
        r
    }
}


/// The targets an 8-bit arithmetic or logic instruction reads its source
/// from: a register, (HL), or an immediate byte.
pub open spec fn src8(t: InstrucionTarget) -> bool {
    match t {
        InstrucionTarget::A => true,
        InstrucionTarget::B => true,
        InstrucionTarget::C => true,
        InstrucionTarget::D => true,
        InstrucionTarget::E => true,
        InstrucionTarget::H => true,
        InstrucionTarget::L => true,
        InstrucionTarget::HLMem => true,
        InstrucionTarget::U8 => true,
        _ => false,
    }
}

/// An 8-bit register or (HL): the operands of the prefixed plane.
pub open spec fn reg8_mem(t: InstrucionTarget) -> bool {
    match t {
        InstrucionTarget::A => true,
        InstrucionTarget::B => true,
        InstrucionTarget::C => true,
        InstrucionTarget::D => true,
        InstrucionTarget::E => true,
        InstrucionTarget::H => true,
        InstrucionTarget::L => true,
        InstrucionTarget::HLMem => true,
        _ => false,
    }
}

/// A condition operand, or the absent operand of an unconditional form.
pub open spec fn cond_or_blank(t: InstrucionTarget) -> bool {
    match t {
        InstrucionTarget::ZCond => true,
        InstrucionTarget::CCond => true,
        InstrucionTarget::NZCond => true,
        InstrucionTarget::NCCond => true,
        InstrucionTarget::Blank => true,
        _ => false,
    }
}

/// A 16-bit pair that PUSH and POP move.
pub open spec fn reg16_stack(t: InstrucionTarget) -> bool {
    match t {
        InstrucionTarget::AF => true,
        InstrucionTarget::BC => true,
        InstrucionTarget::DE => true,
        InstrucionTarget::HL => true,
        _ => false,
    }
}

/// The state after pushing a 16-bit value: the high byte is stored at SP-1,
/// the low byte at SP-2, each through the write policy, and SP ends two
/// lower (wrapping).
pub open spec fn spec_push(s: MachineState, v: u16) -> MachineState {
    let sp1 = wrap16(s.sp - 1);
    let m1 = write_policy(s.mem, sp1 as int, hi_byte(v));
    let sp2 = wrap16(s.sp - 2);
    let m2 = write_policy(m1, sp2 as int, lo_byte(v));
    MachineState { sp: sp2, mem: m2, ..s }
}

/// The 16-bit value a pop reads: the low byte at SP, the high byte at SP+1.
pub open spec fn spec_pop_value(s: MachineState) -> u16 {
    word_of(s.mem[wrap16(s.sp + 1) as int], s.mem[s.sp as int])
}

/// The state after a pop: SP ends two higher (wrapping); memory unchanged.
pub open spec fn spec_pop(s: MachineState) -> MachineState {
    MachineState { sp: wrap16(s.sp + 2), ..s }
}

impl CPU {
    /// Reads the operand `target`, returning its value zero-extended to 16
    /// bits; immediate forms consume bytes at PC, and `SP+i8` sets the flags
    /// by the `ADD SP, i8` rule.
    pub fn read_target(&mut self, target: InstrucionTarget) -> (r: u16)
        requires
            old(self).wf(),
        ensures
            final(self).wf(),
            r == t_read(old(self)@, target).0,
            final(self)@ == t_read(old(self)@, target).1,
    {
        match target {
            InstrucionTarget::A => self.reg_af.hi() as u16,
            InstrucionTarget::B => self.reg_bc.hi() as u16,
            InstrucionTarget::C => self.reg_bc.lo() as u16,
            InstrucionTarget::D => self.reg_de.hi() as u16,
            InstrucionTarget::E => self.reg_de.lo() as u16,
            InstrucionTarget::H => self.reg_hl.hi() as u16,
            InstrucionTarget::L => self.reg_hl.lo() as u16,
            InstrucionTarget::HLMem => self.memory.read(self.reg_hl.value as usize) as u16,
            InstrucionTarget::CMem => {
                let addr: u16 = 0xFF00 + (self.reg_bc.lo() as u16);
                self.memory.read(addr as usize) as u16
            },
            InstrucionTarget::U8 => self.get_imm_u8() as u16,
            InstrucionTarget::A8 => {
                let offset = self.get_imm_u8();
                let addr: u16 = 0xFF00 + (offset as u16);
                self.memory.read(addr as usize) as u16
            },
            InstrucionTarget::I8 => {
                let b = self.get_imm_u8();
                if b >= 0x80 {
                    (b as u16) | 0xFF00
                } else {
                    b as u16
                }
            },
            InstrucionTarget::AF => self.reg_af.value,
            InstrucionTarget::BC => self.reg_bc.value,
            InstrucionTarget::DE => self.reg_de.value,
            InstrucionTarget::HL => self.reg_hl.value,
            InstrucionTarget::SP => self.stack_pointer.value,
            InstrucionTarget::PC => self.pc.value,
            InstrucionTarget::BCMem => self.memory.read(self.reg_bc.value as usize) as u16,
            InstrucionTarget::DEMem => self.memory.read(self.reg_de.value as usize) as u16,
            InstrucionTarget::U16 => self.get_imm_16(),
            InstrucionTarget::A16 => {
                let addr = self.get_imm_16();
                self.memory.read(addr as usize) as u16
            },
            InstrucionTarget::SPi8 => {
                let b = self.get_imm_u8();
                let imm: u16 = if b >= 0x80 {
                    (b as u16) | 0xFF00
                } else {
                    b as u16
                };
                let sp = self.stack_pointer.value;
                let h = (sp % 16) + (imm % 16) > 0xF;
                let c = (sp % 0x100) + (imm % 0x100) > 0xFF;
                let f = self.build_flag(false, false, h, c);
                self.reg_af.write_lo(f);
                proof {
                    lemma_wrap16(sp + imm);
                    lemma_flags_byte(hi_byte(self.reg_af.value), false, false, h, c);
                    lemma_af_byte_flags(old(self)@.af);
                    assert(final(self)@ =~= t_read(old(self)@, InstrucionTarget::SPi8).1);
                }
                sp.wrapping_add(imm)
            },
            InstrucionTarget::ZCond => {
                if self.get_flag(Flag::Z) {
                    1
                } else {
                    0
                }
            },
            InstrucionTarget::CCond => {
                if self.get_flag(Flag::C) {
                    1
                } else {
                    0
                }
            },
            InstrucionTarget::NZCond => {
                if !self.get_flag(Flag::Z) {
                    1
                } else {
                    0
                }
            },
            InstrucionTarget::NCCond => {
                if !self.get_flag(Flag::C) {
                    1
                } else {
                    0
                }
            },
            InstrucionTarget::Blank => 0,
        }
    }

    /// The low byte of a 16-bit value: what an 8-bit store keeps.
    fn low8(&self, v: u16) -> (r: u8)
        ensures
            r == lo_byte(v),
    {
        proof {
            crate::register::lemma_word_halves(v);
        }
        (v % 0x100) as u8
    }

    /// Writes `value` to the operand `target`; an 8-bit operand stores the
    /// low byte, a memory operand stores through the write policy, and a
    /// store to AF masks the low nibble.
    pub fn write_target(&mut self, target: InstrucionTarget, value: u16)
        requires
            old(self).wf(),
            writable_target(target),
        ensures
            final(self).wf(),
            final(self)@ == t_write(old(self)@, target, value),
    {
        proof {
            lemma_af_byte_flags(old(self)@.af);
        }
        match target {
            InstrucionTarget::A => {
                let b = self.low8(value);
                self.reg_af.write_hi(b);
            },
            InstrucionTarget::B => {
                let b = self.low8(value);
                self.reg_bc.write_hi(b);
            },
            InstrucionTarget::C => {
                let b = self.low8(value);
                self.reg_bc.write_lo(b);
            },
            InstrucionTarget::D => {
                let b = self.low8(value);
                self.reg_de.write_hi(b);
            },
            InstrucionTarget::E => {
                let b = self.low8(value);
                self.reg_de.write_lo(b);
            },
            InstrucionTarget::H => {
                let b = self.low8(value);
                self.reg_hl.write_hi(b);
            },
            InstrucionTarget::L => {
                let b = self.low8(value);
                self.reg_hl.write_lo(b);
            },
            InstrucionTarget::HLMem => {
                let b = self.low8(value);
                self.memory.write(self.reg_hl.value as usize, b);
            },
            InstrucionTarget::CMem => {
                let b = self.low8(value);
                let addr: u16 = 0xFF00 + (self.reg_bc.lo() as u16);
                self.memory.write(addr as usize, b);
            },
            InstrucionTarget::A8 => {
                let offset = self.get_imm_u8();
                let addr: u16 = 0xFF00 + (offset as u16);
                let b = self.low8(value);
                self.memory.write(addr as usize, b);
                proof {
                    assert(final(self)@ =~= t_write(old(self)@, InstrucionTarget::A8, value));
                }
            },
            InstrucionTarget::AF => {
                self.reg_af.value = value & 0xFFF0;
                proof {
                    assert((value & 0xFFF0) & 0xF == 0) by (bit_vector);
                }
            },
            InstrucionTarget::BC => {
                self.reg_bc.value = value;
            },
            InstrucionTarget::DE => {
                self.reg_de.value = value;
            },
            InstrucionTarget::HL => {
                self.reg_hl.value = value;
            },
            InstrucionTarget::SP => {
                self.stack_pointer.value = value;
            },
            InstrucionTarget::PC => {
                self.pc.value = value;
            },
            InstrucionTarget::BCMem => {
                let b = self.low8(value);
                self.memory.write(self.reg_bc.value as usize, b);
            },
            InstrucionTarget::DEMem => {
                let b = self.low8(value);
                self.memory.write(self.reg_de.value as usize, b);
            },
            InstrucionTarget::A16 => {
                let addr = self.get_imm_16();
                let b = self.low8(value);
                self.memory.write(addr as usize, b);
                proof {
                    assert(final(self)@ =~= t_write(old(self)@, InstrucionTarget::A16, value));
                }
            },
            _ => {
                proof {
                    assert(false);
                }
            },
        }
    }

    /// The width of an operand: 8 or 16 bits, 1 for a condition, 0 for the
    /// absent operand.
    pub fn target_bitness(&mut self, target: InstrucionTarget) -> (r: i32)
        ensures
            *final(self) == *old(self),
            r == spec_bitness(target),
    {
        match target {
            InstrucionTarget::A => 8,
            InstrucionTarget::B => 8,
            InstrucionTarget::C => 8,
            InstrucionTarget::D => 8,
            InstrucionTarget::E => 8,
            InstrucionTarget::H => 8,
            InstrucionTarget::L => 8,
            InstrucionTarget::HLMem => 8,
            InstrucionTarget::CMem => 8,
            InstrucionTarget::U8 => 8,
            InstrucionTarget::A8 => 8,
            InstrucionTarget::I8 => 8,
            InstrucionTarget::A16 => 8,
            InstrucionTarget::BCMem => 8,
            InstrucionTarget::DEMem => 8,
            InstrucionTarget::AF => 16,
            InstrucionTarget::BC => 16,
            InstrucionTarget::DE => 16,
            InstrucionTarget::HL => 16,
            InstrucionTarget::SP => 16,
            InstrucionTarget::SPi8 => 16,
            InstrucionTarget::PC => 16,
            InstrucionTarget::U16 => 16,
            InstrucionTarget::ZCond => 1,
            InstrucionTarget::CCond => 1,
            InstrucionTarget::NZCond => 1,
            InstrucionTarget::NCCond => 1,
            InstrucionTarget::Blank => 0,
        }
    }

    /// Pushes a 16-bit value: SP is decremented before each of the two
    /// stores, high byte first.
    fn _push(&mut self, value: Register)
        requires
            old(self).wf(),
        ensures
            final(self).wf(),
            final(self)@ == spec_push(old(self)@, value.value),
    {
        proof {
            lemma_wrap16(old(self)@.sp - 1);
            lemma_wrap16(wrap16(old(self)@.sp - 1) - 1);
            lemma_wrap16(old(self)@.sp - 2);
        }
        self.stack_pointer.dec();
        let hi = value.hi();
        self.memory.write(self.stack_pointer.value as usize, hi);
        self.stack_pointer.dec();
        let lo = value.lo();
        self.memory.write(self.stack_pointer.value as usize, lo);
        proof {
            assert(final(self)@ =~= spec_push(old(self)@, value.value));
        }
    }

    /// Pops a 16-bit value: the low byte is read at SP, the high byte at
    /// SP+1, and SP is incremented after each read.
    fn _pop(&mut self) -> (r: Register)
        requires
            old(self).wf(),
        ensures
            final(self).wf(),
            final(self)@ == spec_pop(old(self)@),
            r.value == spec_pop_value(old(self)@),
    {
        proof {
            lemma_wrap16(old(self)@.sp + 1);
            lemma_wrap16(wrap16(old(self)@.sp + 1) + 1);
            lemma_wrap16(old(self)@.sp + 2);
        }
        let lo = self.memory.read(self.stack_pointer.value as usize);
        self.stack_pointer.inc();
        let hi = self.memory.read(self.stack_pointer.value as usize);
        self.stack_pointer.inc();
        let r = Register::new(((hi as u16) << 8) | (lo as u16));
        proof {
            assert(final(self)@ =~= spec_pop(old(self)@));
        }
        r
    }
}


/// 8-bit add: result modulo 2^8; Z from the result, N clear, H from the low
/// nibbles, C from the full byte sum.
pub open spec fn alu_add8(t: u16, v: u16, cin: u16) -> (u16, u8) {
    let r = wrap8(t + v + cin);
    (
        r as u16,
        flags_byte(r == 0, false, (t % 16) + (v % 16) + cin > 0xF, t + v + cin > 0xFF),
    )
}

/// 16-bit add onto HL: result modulo 2^16; Z preserved, N clear, H from
/// bit 11, C from bit 15.
pub open spec fn alu_add16(hl: u16, rr: u16, oldz: bool) -> (u16, u8) {
    (
        wrap16(hl + rr),
        flags_byte(oldz, false, (hl % 0x1000) + (rr % 0x1000) > 0xFFF, hl + rr > 0xFFFF),
    )
}

/// 8-bit subtract: result modulo 2^8; Z from the result, N set, H and C from
/// the borrows.
pub open spec fn alu_sub8(t: u16, v: u16, cin: u16) -> (u16, u8) {
    let r = wrap8(t - v - cin);
    (r as u16, flags_byte(r == 0, true, (t % 16) < (v % 16) + cin, t < v + cin))
}

/// Decimal adjust of A after a BCD add or subtract, driven by N, H and C.
pub open spec fn alu_daa(a: u8, n: bool, h: bool, c: bool) -> (u8, u8) {
    if n {
        let a1 = if c {
            wrap8(a - 0x60)
        } else {
            a
        };
        let a2 = if h {
            wrap8(a1 - 0x06)
        } else {
            a1
        };
        (a2, flags_byte(a2 == 0, true, false, c))
    } else {
        let c1 = c || a > 0x99;
        let a1 = if c1 {
            wrap8(a + 0x60)
        } else {
            a
        };
        let a2 = if h || (a1 % 16) > 0x09 {
            wrap8(a1 + 0x06)
        } else {
            a1
        };
        (a2, flags_byte(a2 == 0, false, false, c1))
    }
}

/// Rotate left by one; C takes the old bit 7. For the accumulator form
/// (RLCA) Z is cleared; for the prefixed form Z follows the result.
pub open spec fn alu_rlc(v: u8, acc: bool) -> (u8, u8) {
    let r = (v << 1) | (v >> 7);
    (
        r,
        flags_byte(
            if acc {
                false
            } else {
                r == 0
            },
            false,
            false,
            v >> 7 == 1,
        ),
    )
}

/// Rotate left through carry; C takes the old bit 7.
pub open spec fn alu_rl(v: u8, cin: bool, acc: bool) -> (u8, u8) {
    let r = (v << 1) | (if cin {
        1u8
    } else {
        0u8
    });
    (
        r,
        flags_byte(
            if acc {
                false
            } else {
                r == 0
            },
            false,
            false,
            v >> 7 == 1,
        ),
    )
}

/// Rotate right by one; C takes the old bit 0.
pub open spec fn alu_rrc(v: u8, acc: bool) -> (u8, u8) {
    let r = (v >> 1) | (v << 7);
    (
        r,
        flags_byte(
            if acc {
                false
            } else {
                r == 0
            },
            false,
            false,
            v & 1 == 1,
        ),
    )
}

/// Rotate right through carry; C takes the old bit 0.
pub open spec fn alu_rr(v: u8, cin: bool, acc: bool) -> (u8, u8) {
    let r = (v >> 1) | (if cin {
        0x80u8
    } else {
        0u8
    });
    (
        r,
        flags_byte(
            if acc {
                false
            } else {
                r == 0
            },
            false,
            false,
            v & 1 == 1,
        ),
    )
}

/// Shift left; bit 0 becomes 0; C takes the old bit 7.
pub open spec fn alu_sla(v: u8) -> (u8, u8) {
    let r = v << 1;
    (r, flags_byte(r == 0, false, false, v >> 7 == 1))
}

/// Arithmetic shift right: bit 7 is preserved; C takes the old bit 0.
pub open spec fn alu_sra(v: u8) -> (u8, u8) {
    let r = (v >> 1) | (v & 0x80);
    (r, flags_byte(r == 0, false, false, v & 1 == 1))
}

/// Logical shift right: bit 7 becomes 0; C takes the old bit 0.
pub open spec fn alu_srl(v: u8) -> (u8, u8) {
    let r = v >> 1;
    (r, flags_byte(r == 0, false, false, v & 1 == 1))
}

/// Exchange the two nibbles; Z follows the result, N, H and C clear.
pub open spec fn alu_swap(v: u8) -> (u8, u8) {
    let r = (v << 4) | (v >> 4);
    (r, flags_byte(r == 0, false, false, false))
}

/// The state transform of `LD to, from`: a read followed by a write; the
/// flags are untouched (except through the `SP+i8` pseudo-operand, whose
/// read sets them).
pub open spec fn step_load(
    s: MachineState,
    to: InstrucionTarget,
    from: InstrucionTarget,
) -> MachineState {
    let (v, s1) = t_read(s, from);
    t_write(s1, to, v)
}

/// The state transform of ADD, ADC (with `carry`), ADD HL, rr and
/// ADD SP, i8, selected by the destination.
pub open spec fn step_add(
    s: MachineState,
    to: InstrucionTarget,
    from: InstrucionTarget,
    carry: bool,
) -> MachineState {
    let cin: u16 = if carry && cf(s.af) {
        1
    } else {
        0
    };
    let (t, s1) = t_read(s, to);
    let (v, s2) = t_read(s1, from);
    if to is HL {
        let (r, f) = alu_add16(t, v, zf(s.af));
        with_flag_byte(t_write(s2, to, r), f)
    } else if to is SP {
        let (r, f) = alu_addsp(t, v);
        with_flag_byte(t_write(s2, to, r), f)
    } else {
        let (r, f) = alu_add8(t, v, cin);
        with_flag_byte(t_write(s2, to, r), f)
    }
}

/// The state transform of SUB and SBC (with `carry`).
pub open spec fn step_sub(
    s: MachineState,
    to: InstrucionTarget,
    from: InstrucionTarget,
    carry: bool,
) -> MachineState {
    let cin: u16 = if carry && cf(s.af) {
        1
    } else {
        0
    };
    let (t, s1) = t_read(s, to);
    let (v, s2) = t_read(s1, from);
    let (r, f) = alu_sub8(t, v, cin);
    with_flag_byte(t_write(s2, to, r), f)
}

/// The state transform of AND: Z from the result, N clear, H set, C clear.
pub open spec fn step_and(
    s: MachineState,
    to: InstrucionTarget,
    from: InstrucionTarget,
) -> MachineState {
    let (t, s1) = t_read(s, to);
    let (v, s2) = t_read(s1, from);
    let r = wrap8(t as int) & wrap8(v as int);
    with_flag_byte(t_write(s2, to, r as u16), flags_byte(r == 0, false, true, false))
}

/// The state transform of XOR: Z from the result, N, H and C clear.
pub open spec fn step_xor(
    s: MachineState,
    to: InstrucionTarget,
    from: InstrucionTarget,
) -> MachineState {
    let (t, s1) = t_read(s, to);
    let (v, s2) = t_read(s1, from);
    let r = wrap8(t as int) ^ wrap8(v as int);
    with_flag_byte(t_write(s2, to, r as u16), flags_byte(r == 0, false, false, false))
}

/// The state transform of OR: Z from the result, N, H and C clear.
pub open spec fn step_or(
    s: MachineState,
    to: InstrucionTarget,
    from: InstrucionTarget,
) -> MachineState {
    let (t, s1) = t_read(s, to);
    let (v, s2) = t_read(s1, from);
    let r = wrap8(t as int) | wrap8(v as int);
    with_flag_byte(t_write(s2, to, r as u16), flags_byte(r == 0, false, false, false))
}

/// The state transform of CP: the flags of the subtraction, result discarded.
pub open spec fn step_cp(
    s: MachineState,
    op1: InstrucionTarget,
    op2: InstrucionTarget,
) -> MachineState {
    let (t, s1) = t_read(s, op1);
    let (v, s2) = t_read(s1, op2);
    with_flag_byte(s2, alu_sub8(t, v, 0).1)
}

/// The state transform of INC: an 8-bit operand gains Z, N=0, H from the low
/// nibble and keeps C; a 16-bit operand wraps with no flag effect.
pub open spec fn step_inc(s: MachineState, op: InstrucionTarget) -> MachineState {
    let (v, s1) = t_read(s, op);
    if spec_bitness(op) == 8 {
        let r = wrap8(v + 1);
        let s2 = t_write(s1, op, r as u16);
        with_flag_byte(s2, flags_byte(r == 0, false, v % 16 == 0xF, cf(s2.af)))
    } else {
        t_write(s1, op, wrap16(v + 1))
    }
}

/// The state transform of DEC: an 8-bit operand gains Z, N=1, H from the low
/// nibble and keeps C; a 16-bit operand wraps with no flag effect.
pub open spec fn step_dec(s: MachineState, op: InstrucionTarget) -> MachineState {
    let (v, s1) = t_read(s, op);
    if spec_bitness(op) == 8 {
        let r = wrap8(v - 1);
        let s2 = t_write(s1, op, r as u16);
        with_flag_byte(s2, flags_byte(r == 0, true, v % 16 == 0, cf(s2.af)))
    } else {
        t_write(s1, op, wrap16(v - 1))
    }
}

/// The state transform of CPL: A is complemented; Z and C preserved, N and H
/// set.
pub open spec fn step_cpl(s: MachineState) -> MachineState {
    let a = !hi_byte(s.af);
    let s1 = MachineState { af: word_of(a, lo_byte(s.af)), ..s };
    with_flag_byte(s1, flags_byte(zf(s.af), true, true, cf(s.af)))
}

/// The state transform of DAA.
pub open spec fn step_daa(s: MachineState) -> MachineState {
    let (a, f) = alu_daa(hi_byte(s.af), nf(s.af), hf(s.af), cf(s.af));
    let s1 = MachineState { af: word_of(a, lo_byte(s.af)), ..s };
    with_flag_byte(s1, f)
}

/// The state transform of a prefixed rotate/shift or its accumulator form:
/// read the operand, apply the 8-bit operation, write it back, set the flag
/// byte it produced.
pub open spec fn step_rot(s: MachineState, op: InstrucionTarget, rf: (u8, u8)) -> MachineState {
    let s1 = t_read(s, op).1;
    with_flag_byte(t_write(s1, op, rf.0 as u16), rf.1)
}

/// The operand byte a rotate reads.
pub open spec fn rot_operand(s: MachineState, op: InstrucionTarget) -> u8 {
    wrap8(t_read(s, op).0 as int)
}

/// The state transform of BIT n: Z is set when bit n of the operand is
/// clear; N clear, H set, C preserved.
pub open spec fn step_bit(s: MachineState, n: u8, op: InstrucionTarget) -> MachineState {
    let (v, s1) = t_read(s, op);
    with_flag_byte(
        s1,
        flags_byte((wrap8(v as int) >> n) & 1 == 0, false, true, cf(s.af)),
    )
}

/// The state transform of RES n: bit n of the operand is cleared; flags
/// untouched.
pub open spec fn step_res(s: MachineState, n: u8, op: InstrucionTarget) -> MachineState {
    let (v, s1) = t_read(s, op);
    t_write(s1, op, (wrap8(v as int) & !(1u8 << n)) as u16)
}

/// The state transform of SET n: bit n of the operand is set; flags
/// untouched.
pub open spec fn step_set(s: MachineState, n: u8, op: InstrucionTarget) -> MachineState {
    let (v, s1) = t_read(s, op);
    t_write(s1, op, (wrap8(v as int) | (1u8 << n)) as u16)
}

/// The state transform of PUSH rr.
pub open spec fn step_push(s: MachineState, from: InstrucionTarget) -> MachineState {
    let (v, s1) = t_read(s, from);
    spec_push(s1, v)
}

/// The state transform of POP rr; POP AF masks the low nibble through the
/// AF write rule.
pub open spec fn step_pop(s: MachineState, to: InstrucionTarget) -> MachineState {
    t_write(spec_pop(s), to, spec_pop_value(s))
}

/// The state transform and taken-branch penalty of JP and JR: the
/// destination is read first (JR adds the signed offset to the
/// post-immediate PC); an unconditional form always branches with no
/// penalty; a conditional form branches, with penalty 4, exactly when the
/// condition holds.
pub open spec fn step_jp(
    s: MachineState,
    cond: InstrucionTarget,
    dest: InstrucionTarget,
    relative: bool,
) -> (MachineState, int) {
    let (d0, s1) = t_read(s, dest);
    let dst = if relative {
        wrap16(s1.pc + d0)
    } else {
        d0
    };
    if cond is Blank {
        (MachineState { pc: dst, ..s1 }, 0)
    } else if t_read(s1, cond).0 == 1 {
        (MachineState { pc: dst, ..s1 }, 4)
    } else {
        (s1, 0)
    }
}

/// The state transform and taken-branch penalty of CALL: on the taken path
/// the post-immediate PC is pushed and PC is set to the destination; the
/// conditional taken penalty is 12.
pub open spec fn step_call(
    s: MachineState,
    cond: InstrucionTarget,
    dest: InstrucionTarget,
) -> (MachineState, int) {
    let (d, s1) = t_read(s, dest);
    if cond is Blank {
        (MachineState { pc: d, ..spec_push(s1, s1.pc) }, 0)
    } else if t_read(s1, cond).0 == 1 {
        (MachineState { pc: d, ..spec_push(s1, s1.pc) }, 12)
    } else {
        (s1, 0)
    }
}

/// The state transform of RST: PC is pushed and set to the fixed offset.
pub open spec fn step_rst(s: MachineState, offset: u16) -> MachineState {
    MachineState { pc: offset, ..spec_push(s, s.pc) }
}

/// The state transform and taken penalty of RET, RET cc and RETI: the
/// return address is popped only when the condition holds (always, for the
/// unconditional forms); RETI also enables interrupts; the conditional taken
/// penalty is 12.
pub open spec fn step_ret(
    s: MachineState,
    cond: InstrucionTarget,
    ei: bool,
) -> (MachineState, int) {
    let taken = cond is Blank || t_read(s, cond).0 == 1;
    if taken {
        let s1 = MachineState { pc: spec_pop_value(s), ..spec_pop(s) };
        let s2 = if ei {
            MachineState { ime: true, ..s1 }
        } else {
            s1
        };
        (
            s2,
            if cond is Blank {
                0
            } else {
                12
            },
        )
    } else {
        let s2 = if ei {
            MachineState { ime: true, ..s }
        } else {
            s
        };
        (s2, 0)
    }
}

/// The state transform of SCF: C set, N and H clear, Z preserved.
pub open spec fn step_scf(s: MachineState) -> MachineState {
    with_flag_byte(s, flags_byte(zf(s.af), false, false, true))
}

/// The state transform of CCF: C inverted, N and H clear, Z preserved.
pub open spec fn step_ccf(s: MachineState) -> MachineState {
    with_flag_byte(s, flags_byte(zf(s.af), false, false, !cf(s.af)))
}


/// The operand pairs ADD and ADC accept: 8-bit sources onto A, a 16-bit
/// pair onto HL, or the signed immediate onto SP.
pub open spec fn add_targets(to: InstrucionTarget, from: InstrucionTarget) -> bool {
    ||| (to is A && src8(from))
    ||| (to is HL && (from is BC || from is DE || from is HL || from is SP))
    ||| (to is SP && from is I8)
}

/// The operands INC and DEC accept: an 8-bit register, (HL), or a 16-bit
/// pair.
pub open spec fn inc_target(op: InstrucionTarget) -> bool {
    reg8_mem(op) || op is BC || op is DE || op is HL || op is SP
}

/// The destinations a jump can name.
pub open spec fn jp_dest(d: InstrucionTarget) -> bool {
    d is U16 || d is HL || d is I8
}

impl CPU {
    /// Writes the four flags into the flag register.
    fn apply_flags(&mut self, z: bool, n: bool, h: bool, c: bool)
        requires
            old(self).wf(),
        ensures
            final(self).wf(),
            final(self)@ == with_flag_byte(old(self)@, flags_byte(z, n, h, c)),
    {
        let f = self.build_flag(z, n, h, c);
        self.reg_af.write_lo(f);
        proof {
            lemma_flags_byte(hi_byte(old(self)@.af), z, n, h, c);
            assert(final(self)@ =~= with_flag_byte(old(self)@, flags_byte(z, n, h, c)));
        }
    }

    /// LD: loads the operand `from` into the operand `to`; flags untouched
    /// (the `SP+i8` pseudo-operand sets them as part of its read).
    pub fn load(&mut self, to: InstrucionTarget, from: InstrucionTarget)
        requires
            old(self).wf(),
            writable_target(to),
        ensures
            final(self).wf(),
            final(self)@ == step_load(old(self)@, to, from),
    {
        let value = self.read_target(from);
        self.write_target(to, value);
    }

    /// ADD and ADC (`carry` selects ADC): 8-bit onto A, 16-bit onto HL, or
    /// signed immediate onto SP, with the flag rule of each form.
    pub fn add(&mut self, to: InstrucionTarget, from: InstrucionTarget, carry: bool)
        requires
            old(self).wf(),
            add_targets(to, from),
        ensures
            final(self).wf(),
            final(self)@ == step_add(old(self)@, to, from, carry),
    {
        let cin: u16 = if carry && self.get_flag(Flag::C) {
            1
        } else {
            0
        };
        let target = self.read_target(to);
        let source = self.read_target(from);
        match to {
            InstrucionTarget::HL => {
                let z = self.get_flag(Flag::Z);
                let h = (target % 0x1000) + (source % 0x1000) > 0xFFF;
                let c = (target as u32) + (source as u32) > 0xFFFF;
                proof {
                    lemma_wrap16(target + source);
                }
                let r = target.wrapping_add(source);
                self.write_target(to, r);
                self.apply_flags(z, false, h, c);
            },
            InstrucionTarget::SP => {
                let h = (target % 16) + (source % 16) > 0xF;
                let c = (target % 0x100) + (source % 0x100) > 0xFF;
                proof {
                    lemma_wrap16(target + source);
                }
                let r = target.wrapping_add(source);
                self.write_target(to, r);
                self.apply_flags(false, false, h, c);
            },
            _ => {
                proof {
                    lemma_t_read_small(old(self)@, to);
                    lemma_t_read_small(t_read(old(self)@, to).1, from);
                    lemma_wrap8(target + source + cin);
                }
                let total: u16 = target + source + cin;
                let r: u16 = total % 0x100;
                self.write_target(to, r);
                self.apply_flags(
                    r == 0,
                    false,
                    (target % 16) + (source % 16) + cin > 0xF,
                    total > 0xFF,
                );
            },
        }
        proof {
            assert(final(self)@ =~= step_add(old(self)@, to, from, carry));
        }
    }

    /// SUB and SBC (`carry` selects SBC): 8-bit subtraction from A with the
    /// borrow flags.
    pub fn sub(&mut self, to: InstrucionTarget, from: InstrucionTarget, carry: bool)
        requires
            old(self).wf(),
            to is A,
            src8(from),
        ensures
            final(self).wf(),
            final(self)@ == step_sub(old(self)@, to, from, carry),
    {
        let cin: u16 = if carry && self.get_flag(Flag::C) {
            1
        } else {
            0
        };
        let target = self.read_target(to);
        let source = self.read_target(from);
        proof {
            lemma_t_read_small(old(self)@, to);
            lemma_t_read_small(t_read(old(self)@, to).1, from);
            lemma_wrap8(target - source - cin);
            vstd::arithmetic::div_mod::lemma_mod_multiples_vanish(
                1,
                target - source - cin,
                0x100,
            );
        }
        let total: u16 = 0x100 + target - source - cin;
        let r: u16 = total % 0x100;
        self.write_target(to, r);
        self.apply_flags(
            r == 0,
            true,
            (target % 16) < (source % 16) + cin,
            target < source + cin,
        );
        proof {
            assert(final(self)@ =~= step_sub(old(self)@, to, from, carry));
        }
    }

    /// AND: bitwise and into A; Z from the result, N clear, H set, C clear.
    pub fn and(&mut self, to: InstrucionTarget, from: InstrucionTarget)
        requires
            old(self).wf(),
            to is A,
            src8(from),
        ensures
            final(self).wf(),
            final(self)@ == step_and(old(self)@, to, from),
    {
        let target = self.read_target(to);
        let source = self.read_target(from);
        let r: u8 = ((target % 0x100) as u8) & ((source % 0x100) as u8);
        self.write_target(to, r as u16);
        self.apply_flags(r == 0, false, true, false);
        proof {
            assert(final(self)@ =~= step_and(old(self)@, to, from));
        }
    }

    /// XOR: bitwise exclusive or into A; Z from the result, N, H, C clear.
    pub fn xor(&mut self, to: InstrucionTarget, from: InstrucionTarget)
        requires
            old(self).wf(),
            to is A,
            src8(from),
        ensures
            final(self).wf(),
            final(self)@ == step_xor(old(self)@, to, from),
    {
        let target = self.read_target(to);
        let source = self.read_target(from);
        let r: u8 = ((target % 0x100) as u8) ^ ((source % 0x100) as u8);
        self.write_target(to, r as u16);
        self.apply_flags(r == 0, false, false, false);
        proof {
            assert(final(self)@ =~= step_xor(old(self)@, to, from));
        }
    }

    /// OR: bitwise or into A; Z from the result, N, H, C clear.
    pub fn or(&mut self, to: InstrucionTarget, from: InstrucionTarget)
        requires
            old(self).wf(),
            to is A,
            src8(from),
        ensures
            final(self).wf(),
            final(self)@ == step_or(old(self)@, to, from),
    {
        let target = self.read_target(to);
        let source = self.read_target(from);
        let r: u8 = ((target % 0x100) as u8) | ((source % 0x100) as u8);
        self.write_target(to, r as u16);
        self.apply_flags(r == 0, false, false, false);
        proof {
            assert(final(self)@ =~= step_or(old(self)@, to, from));
        }
    }

    /// CP: compares A with the operand; the flags of SUB, result discarded.
    pub fn cp(&mut self, op1: InstrucionTarget, op2: InstrucionTarget)
        requires
            old(self).wf(),
            op1 is A,
            src8(op2),
        ensures
            final(self).wf(),
            final(self)@ == step_cp(old(self)@, op1, op2),
    {
        let first = self.read_target(op1);
        let second = self.read_target(op2);
        proof {
            lemma_t_read_small(old(self)@, op1);
            lemma_t_read_small(t_read(old(self)@, op1).1, op2);
            lemma_wrap8(first - second);
        }
        self.apply_flags(
            first == second,
            true,
            (first % 16) < (second % 16),
            first < second,
        );
        proof {
            assert(final(self)@ =~= step_cp(old(self)@, op1, op2));
        }
    }

    /// PUSH rr: stores the pair on the stack, high byte at SP-1, low byte at
    /// SP-2; flags untouched.
    pub fn push(&mut self, from: InstrucionTarget)
        requires
            old(self).wf(),
            reg16_stack(from),
        ensures
            final(self).wf(),
            final(self)@ == step_push(old(self)@, from),
    {
        let r = Register::new(self.read_target(from));
        self._push(r);
    }

    /// POP rr: loads the pair from the stack, low byte first; POP AF masks
    /// the low nibble to zero.
    pub fn pop(&mut self, to: InstrucionTarget)
        requires
            old(self).wf(),
            reg16_stack(to),
        ensures
            final(self).wf(),
            final(self)@ == step_pop(old(self)@, to),
    {
        let v = self._pop();
        self.write_target(to, v.value);
    }

    /// INC: adds one to the operand; an 8-bit form sets Z, clears N, sets H
    /// on low-nibble carry and preserves C; a 16-bit form has no flag
    /// effect.
    pub fn inc(&mut self, op: InstrucionTarget)
        requires
            old(self).wf(),
            inc_target(op),
        ensures
            final(self).wf(),
            final(self)@ == step_inc(old(self)@, op),
    {
        let v = self.read_target(op);
        let bits = self.target_bitness(op);
        if bits == 8 {
            proof {
                lemma_t_read_small(old(self)@, op);
                lemma_wrap8(v + 1);
            }
            let r: u16 = (v + 1) % 0x100;
            self.write_target(op, r);
            let c = self.get_flag(Flag::C);
            self.apply_flags(r == 0, false, v % 16 == 0xF, c);
        } else {
            proof {
                lemma_wrap16(v + 1);
            }
            let r = v.wrapping_add(1);
            self.write_target(op, r);
        }
        proof {
            assert(final(self)@ =~= step_inc(old(self)@, op));
        }
    }

    /// DEC: subtracts one from the operand; an 8-bit form sets Z, sets N,
    /// sets H on low-nibble borrow and preserves C; a 16-bit form has no
    /// flag effect.
    pub fn dec(&mut self, op: InstrucionTarget)
        requires
            old(self).wf(),
            inc_target(op),
        ensures
            final(self).wf(),
            final(self)@ == step_dec(old(self)@, op),
    {
        let v = self.read_target(op);
        let bits = self.target_bitness(op);
        if bits == 8 {
            proof {
                lemma_t_read_small(old(self)@, op);
                lemma_wrap8(v - 1);
                vstd::arithmetic::div_mod::lemma_mod_multiples_vanish(1, v - 1, 0x100);
            }
            let r: u16 = (v + 0x100 - 1) % 0x100;
            self.write_target(op, r);
            let c = self.get_flag(Flag::C);
            self.apply_flags(r == 0, true, v % 16 == 0, c);
        } else {
            proof {
                lemma_wrap16(v - 1);
            }
            let r = v.wrapping_sub(1);
            self.write_target(op, r);
        }
        proof {
            assert(final(self)@ =~= step_dec(old(self)@, op));
        }
    }

    /// CPL: complements every bit of A; N and H set, Z and C preserved.
    pub fn cpl(&mut self)
        requires
            old(self).wf(),
        ensures
            final(self).wf(),
            final(self)@ == step_cpl(old(self)@),
    {
        proof {
            lemma_af_byte_flags(old(self)@.af);
        }
        let a = !self.reg_af.hi();
        self.reg_af.write_hi(a);
        let z = self.get_flag(Flag::Z);
        let c = self.get_flag(Flag::C);
        self.apply_flags(z, true, true, c);
        proof {
            assert(final(self)@ =~= step_cpl(old(self)@));
        }
    }

    /// DAA: decimal adjust of A after a BCD operation, driven by N, H and C.
    pub fn daa(&mut self)
        requires
            old(self).wf(),
        ensures
            final(self).wf(),
            final(self)@ == step_daa(old(self)@),
    {
        let a0 = self.reg_af.hi();
        let n = self.get_flag(Flag::N);
        let h = self.get_flag(Flag::H);
        let c = self.get_flag(Flag::C);
        proof {
            lemma_af_byte_flags(old(self)@.af);
            lemma_wrap8(a0 - 0x60);
            lemma_wrap8(a0 - 0x06);
            lemma_wrap8(wrap8(a0 - 0x60) - 0x06);
            lemma_wrap8(a0 + 0x60);
            lemma_wrap8(a0 + 0x06);
            lemma_wrap8(wrap8(a0 + 0x60) + 0x06);
        }
        let mut v: u8 = a0;
        let mut c1: bool = c;
        if n {
            if c {
                v = v.wrapping_sub(0x60);
            }
            if h {
                v = v.wrapping_sub(0x6);
            }
        } else {
            if c || v > 0x99 {
                v = v.wrapping_add(0x60);
                c1 = true;
            }
            if h || (v % 16) > 0x09 {
                v = v.wrapping_add(0x6);
            }
        }
        self.reg_af.write_hi(v);
        self.apply_flags(v == 0, n, false, c1);
        proof {
            assert(final(self)@ =~= step_daa(old(self)@));
        }
    }

    /// SCF: sets C, clears N and H, preserves Z.
    pub fn scf(&mut self)
        requires
            old(self).wf(),
        ensures
            final(self).wf(),
            final(self)@ == step_scf(old(self)@),
    {
        let z = self.get_flag(Flag::Z);
        self.apply_flags(z, false, false, true);
    }

    /// CCF: inverts C, clears N and H, preserves Z.
    pub fn ccf(&mut self)
        requires
            old(self).wf(),
        ensures
            final(self).wf(),
            final(self)@ == step_ccf(old(self)@),
    {
        let z = self.get_flag(Flag::Z);
        let c = self.get_flag(Flag::C);
        self.apply_flags(z, false, false, !c);
    }

    /// DI: disables interrupts.
    pub fn di(&mut self)
        requires
            old(self).wf(),
        ensures
            final(self).wf(),
            final(self)@ == (MachineState { ime: false, ..old(self)@ }),
    {
        self.ime = false;
    }

    /// EI: enables interrupts (this core applies it immediately).
    pub fn ei(&mut self)
        requires
            old(self).wf(),
        ensures
            final(self).wf(),
            final(self)@ == (MachineState { ime: true, ..old(self)@ }),
    {
        self.ime = true;
    }

    /// STOP: latches the stopped state.
    pub fn stop(&mut self)
        requires
            old(self).wf(),
        ensures
            final(self).wf(),
            final(self)@ == (MachineState { stopped: true, ..old(self)@ }),
    {
        self.stopped = true;
    }

    /// HALT: latches the halted state.
    pub fn halt(&mut self)
        requires
            old(self).wf(),
        ensures
            final(self).wf(),
            final(self)@ == (MachineState { halted: true, ..old(self)@ }),
    {
        self.halted = true;
    }
}


impl CPU {
    /// RLC (and RLCA when `acc`): rotate left; C takes the old bit 7; the
    /// accumulator form clears Z, the prefixed form sets Z from the result.
    pub fn rlc(&mut self, op: InstrucionTarget, acc: bool)
        requires
            old(self).wf(),
            reg8_mem(op),
        ensures
            final(self).wf(),
            final(self)@ == step_rot(old(self)@, op, alu_rlc(rot_operand(old(self)@, op), acc)),
    {
        let t = self.read_target(op);
        proof {
            lemma_t_read_small(old(self)@, op);
            lemma_wrap8(t as int);
        }
        let v: u8 = (t % 0x100) as u8;
        let r: u8 = (v << 1) | (v >> 7);
        self.write_target(op, r as u16);
        let z = if acc {
            false
        } else {
            r == 0
        };
        self.apply_flags(z, false, false, (v >> 7) == 1);
        proof {
            assert(final(self)@ =~= step_rot(
                old(self)@,
                op,
                alu_rlc(rot_operand(old(self)@, op), acc),
            ));
        }
    }

    /// RL (and RLA when `acc`): rotate left through carry; C takes the old
    /// bit 7.
    pub fn rl(&mut self, op: InstrucionTarget, acc: bool)
        requires
            old(self).wf(),
            reg8_mem(op),
        ensures
            final(self).wf(),
            final(self)@ == step_rot(
                old(self)@,
                op,
                alu_rl(rot_operand(old(self)@, op), cf(old(self)@.af), acc),
            ),
    {
        let cin = self.get_flag(Flag::C);
        let t = self.read_target(op);
        proof {
            lemma_t_read_small(old(self)@, op);
            lemma_wrap8(t as int);
        }
        let v: u8 = (t % 0x100) as u8;
        let r: u8 = (v << 1) | (if cin {
            1u8
        } else {
            0u8
        });
        self.write_target(op, r as u16);
        let z = if acc {
            false
        } else {
            r == 0
        };
        self.apply_flags(z, false, false, (v >> 7) == 1);
        proof {
            assert(final(self)@ =~= step_rot(
                old(self)@,
                op,
                alu_rl(rot_operand(old(self)@, op), cf(old(self)@.af), acc),
            ));
        }
    }

    /// RRC (and RRCA when `acc`): rotate right; C takes the old bit 0.
    pub fn rrc(&mut self, op: InstrucionTarget, acc: bool)
        requires
            old(self).wf(),
            reg8_mem(op),
        ensures
            final(self).wf(),
            final(self)@ == step_rot(old(self)@, op, alu_rrc(rot_operand(old(self)@, op), acc)),
    {
        let t = self.read_target(op);
        proof {
            lemma_t_read_small(old(self)@, op);
            lemma_wrap8(t as int);
        }
        let v: u8 = (t % 0x100) as u8;
        let r: u8 = (v >> 1) | (v << 7);
        self.write_target(op, r as u16);
        let z = if acc {
            false
        } else {
            r == 0
        };
        self.apply_flags(z, false, false, (v & 1) == 1);
        proof {
            assert(final(self)@ =~= step_rot(
                old(self)@,
                op,
                alu_rrc(rot_operand(old(self)@, op), acc),
            ));
        }
    }

    /// RR (and RRA when `acc`): rotate right through carry; C takes the old
    /// bit 0.
    pub fn rr(&mut self, op: InstrucionTarget, acc: bool)
        requires
            old(self).wf(),
            reg8_mem(op),
        ensures
            final(self).wf(),
            final(self)@ == step_rot(
                old(self)@,
                op,
                alu_rr(rot_operand(old(self)@, op), cf(old(self)@.af), acc),
            ),
    {
        let cin = self.get_flag(Flag::C);
        let t = self.read_target(op);
        proof {
            lemma_t_read_small(old(self)@, op);
            lemma_wrap8(t as int);
        }
        let v: u8 = (t % 0x100) as u8;
        let r: u8 = (v >> 1) | (if cin {
            0x80u8
        } else {
            0u8
        });
        self.write_target(op, r as u16);
        let z = if acc {
            false
        } else {
            r == 0
        };
        self.apply_flags(z, false, false, (v & 1) == 1);
        proof {
            assert(final(self)@ =~= step_rot(
                old(self)@,
                op,
                alu_rr(rot_operand(old(self)@, op), cf(old(self)@.af), acc),
            ));
        }
    }

    /// SLA: shift left, bit 0 cleared; C takes the old bit 7; Z from the
    /// result.
    pub fn sla(&mut self, op: InstrucionTarget)
        requires
            old(self).wf(),
            reg8_mem(op),
        ensures
            final(self).wf(),
            final(self)@ == step_rot(old(self)@, op, alu_sla(rot_operand(old(self)@, op))),
    {
        let t = self.read_target(op);
        proof {
            lemma_t_read_small(old(self)@, op);
            lemma_wrap8(t as int);
        }
        let v: u8 = (t % 0x100) as u8;
        let r: u8 = v << 1;
        self.write_target(op, r as u16);
        self.apply_flags(r == 0, false, false, (v >> 7) == 1);
        proof {
            assert(final(self)@ =~= step_rot(old(self)@, op, alu_sla(rot_operand(old(self)@, op))));
        }
    }

    /// SRA: arithmetic shift right, bit 7 preserved; C takes the old bit 0;
    /// Z from the result.
    pub fn sra(&mut self, op: InstrucionTarget)
        requires
            old(self).wf(),
            reg8_mem(op),
        ensures
            final(self).wf(),
            final(self)@ == step_rot(old(self)@, op, alu_sra(rot_operand(old(self)@, op))),
    {
        let t = self.read_target(op);
        proof {
            lemma_t_read_small(old(self)@, op);
            lemma_wrap8(t as int);
        }
        let v: u8 = (t % 0x100) as u8;
        let r: u8 = (v >> 1) | (v & 0x80);
        self.write_target(op, r as u16);
        self.apply_flags(r == 0, false, false, (v & 1) == 1);
        proof {
            assert(final(self)@ =~= step_rot(old(self)@, op, alu_sra(rot_operand(old(self)@, op))));
        }
    }

    /// SRL: logical shift right, bit 7 cleared; C takes the old bit 0; Z
    /// from the result.
    pub fn srl(&mut self, op: InstrucionTarget)
        requires
            old(self).wf(),
            reg8_mem(op),
        ensures
            final(self).wf(),
            final(self)@ == step_rot(old(self)@, op, alu_srl(rot_operand(old(self)@, op))),
    {
        let t = self.read_target(op);
        proof {
            lemma_t_read_small(old(self)@, op);
            lemma_wrap8(t as int);
        }
        let v: u8 = (t % 0x100) as u8;
        let r: u8 = v >> 1;
        self.write_target(op, r as u16);
        self.apply_flags(r == 0, false, false, (v & 1) == 1);
        proof {
            assert(final(self)@ =~= step_rot(old(self)@, op, alu_srl(rot_operand(old(self)@, op))));
        }
    }

    /// SWAP: exchanges the two nibbles; Z from the result, N, H, C clear.
    pub fn swap(&mut self, op: InstrucionTarget)
        requires
            old(self).wf(),
            reg8_mem(op),
        ensures
            final(self).wf(),
            final(self)@ == step_rot(old(self)@, op, alu_swap(rot_operand(old(self)@, op))),
    {
        let t = self.read_target(op);
        proof {
            lemma_t_read_small(old(self)@, op);
            lemma_wrap8(t as int);
        }
        let v: u8 = (t % 0x100) as u8;
        let r: u8 = (v << 4) | (v >> 4);
        self.write_target(op, r as u16);
        self.apply_flags(r == 0, false, false, false);
        proof {
            assert(final(self)@ =~= step_rot(old(self)@, op, alu_swap(rot_operand(old(self)@, op))));
        }
    }

    /// BIT n: tests bit `bit` of the operand; Z set when the bit is clear,
    /// N clear, H set, C preserved.
    pub fn bit(&mut self, bit: u8, op: InstrucionTarget)
        requires
            old(self).wf(),
            bit <= 7,
            reg8_mem(op),
        ensures
            final(self).wf(),
            final(self)@ == step_bit(old(self)@, bit, op),
    {
        let t = self.read_target(op);
        proof {
            lemma_t_read_small(old(self)@, op);
            lemma_wrap8(t as int);
        }
        let v: u8 = (t % 0x100) as u8;
        let test: u8 = (v >> bit) & 1;
        let c = self.get_flag(Flag::C);
        self.apply_flags(test == 0, false, true, c);
        proof {
            assert(final(self)@ =~= step_bit(old(self)@, bit, op));
        }
    }

    /// RES n: clears bit `bit` of the operand; flags untouched.
    pub fn res(&mut self, bit: u8, op: InstrucionTarget)
        requires
            old(self).wf(),
            bit <= 7,
            reg8_mem(op),
        ensures
            final(self).wf(),
            final(self)@ == step_res(old(self)@, bit, op),
    {
        let t = self.read_target(op);
        proof {
            lemma_t_read_small(old(self)@, op);
            lemma_wrap8(t as int);
        }
        let v: u8 = ((t % 0x100) as u8) & !(1u8 << bit);
        self.write_target(op, v as u16);
        proof {
            assert(final(self)@ =~= step_res(old(self)@, bit, op));
        }
    }

    /// SET n: sets bit `bit` of the operand; flags untouched.
    pub fn set(&mut self, bit: u8, op: InstrucionTarget)
        requires
            old(self).wf(),
            bit <= 7,
            reg8_mem(op),
        ensures
            final(self).wf(),
            final(self)@ == step_set(old(self)@, bit, op),
    {
        let t = self.read_target(op);
        proof {
            lemma_t_read_small(old(self)@, op);
            lemma_wrap8(t as int);
        }
        let v: u8 = ((t % 0x100) as u8) | (1u8 << bit);
        self.write_target(op, v as u16);
        proof {
            assert(final(self)@ =~= step_set(old(self)@, bit, op));
        }
    }

    /// JP and JR (`relative`): reads the destination (JR: a signed offset
    /// added to the post-immediate PC), then branches when the condition
    /// holds, or always for the unconditional form. Returns the taken-branch
    /// cycle penalty.
    pub fn jp(&mut self, cond: InstrucionTarget, dest: InstrucionTarget, relative: bool) -> (r:
        i32)
        requires
            old(self).wf(),
            cond_or_blank(cond),
            jp_dest(dest),
        ensures
            final(self).wf(),
            final(self)@ == step_jp(old(self)@, cond, dest, relative).0,
            r as int == step_jp(old(self)@, cond, dest, relative).1,
    {
        let d0 = self.read_target(dest);
        let dst: u16 = if relative {
            proof {
                lemma_wrap16(self.pc.value + d0);
            }
            self.pc.value.wrapping_add(d0)
        } else {
            d0
        };
        let r: i32 = match cond {
            InstrucionTarget::ZCond
            | InstrucionTarget::CCond
            | InstrucionTarget::NZCond
            | InstrucionTarget::NCCond => {
                let cv = self.read_target(cond);
                if cv == 1 {
                    self.pc.value = dst;
                    4
                } else {
                    0
                }
            },
            InstrucionTarget::Blank => {
                self.pc.value = dst;
                0
            },
            _ => {
                proof {
                    assert(false);
                }
                0
            },
        };
        proof {
            assert(final(self)@ =~= step_jp(old(self)@, cond, dest, relative).0);
        }
        r
    }

    /// CALL: reads the destination; when the condition holds (or always for
    /// the unconditional form) pushes the post-immediate PC and jumps.
    /// Returns the taken-branch cycle penalty.
    pub fn call(&mut self, cond: InstrucionTarget, dest: InstrucionTarget) -> (r: i32)
        requires
            old(self).wf(),
            cond_or_blank(cond),
            dest is U16,
        ensures
            final(self).wf(),
            final(self)@ == step_call(old(self)@, cond, dest).0,
            r as int == step_call(old(self)@, cond, dest).1,
    {
        let d = self.read_target(dest);
        let r: i32 = match cond {
            InstrucionTarget::ZCond
            | InstrucionTarget::CCond
            | InstrucionTarget::NZCond
            | InstrucionTarget::NCCond => {
                let cv = self.read_target(cond);
                if cv == 1 {
                    let pcreg = self.pc;
                    self._push(pcreg);
                    self.pc.value = d;
                    12
                } else {
                    0
                }
            },
            InstrucionTarget::Blank => {
                let pcreg = self.pc;
                self._push(pcreg);
                self.pc.value = d;
                0
            },
            _ => {
                proof {
                    assert(false);
                }
                0
            },
        };
        proof {
            assert(final(self)@ =~= step_call(old(self)@, cond, dest).0);
        }
        r
    }

    /// RST: pushes PC and jumps to the fixed offset.
    pub fn rst(&mut self, offset: u16)
        requires
            old(self).wf(),
        ensures
            final(self).wf(),
            final(self)@ == step_rst(old(self)@, offset),
    {
        let pcreg = self.pc;
        self._push(pcreg);
        self.pc.value = offset;
        proof {
            assert(final(self)@ =~= step_rst(old(self)@, offset));
        }
    }

    /// RET, RET cc and RETI (`ei`): pops the return address into PC when the
    /// condition holds (always, for the unconditional forms); RETI also
    /// enables interrupts. Returns the taken-branch cycle penalty.
    pub fn ret(&mut self, cond: InstrucionTarget, ei: bool) -> (r: i32)
        requires
            old(self).wf(),
            cond_or_blank(cond),
        ensures
            final(self).wf(),
            final(self)@ == step_ret(old(self)@, cond, ei).0,
            r as int == step_ret(old(self)@, cond, ei).1,
    {
        let r: i32 = match cond {
            InstrucionTarget::ZCond
            | InstrucionTarget::CCond
            | InstrucionTarget::NZCond
            | InstrucionTarget::NCCond => {
                let cv = self.read_target(cond);
                if cv == 1 {
                    let d = self._pop();
                    self.pc.value = d.value;
                    if ei {
                        self.ime = true;
                    }
                    12
                } else {
                    if ei {
                        self.ime = true;
                    }
                    0
                }
            },
            InstrucionTarget::Blank => {
                let d = self._pop();
                self.pc.value = d.value;
                if ei {
                    self.ime = true;
                }
                0
            },
            _ => {
                proof {
                    assert(false);
                }
                0
            },
        };
        proof {
            assert(final(self)@ =~= step_ret(old(self)@, cond, ei).0);
        }
        r
    }
}


/// The operand constraints under which each instruction is defined: exactly
/// the shapes the decode tables produce. Using an operand outside these is
/// the internal `UndefinedOperandUse` fault, which no table-decoded
/// instruction can reach.
pub open spec fn valid_instr(i: Instruction) -> bool {
    match i {
        Instruction::LD(a, _b) => writable_target(a),
        Instruction::LDI(a, _b) => writable_target(a),
        Instruction::LDD(a, _b) => writable_target(a),
        Instruction::PUSH(f) => reg16_stack(f),
        Instruction::POP(t) => reg16_stack(t),
        Instruction::ADD(a, b) => add_targets(a, b),
        Instruction::ADC(a, b) => a is A && src8(b),
        Instruction::SUB(a, b) => a is A && src8(b),
        Instruction::SBC(a, b) => a is A && src8(b),
        Instruction::INC(op) => inc_target(op),
        Instruction::DEC(op) => inc_target(op),
        Instruction::AND(a, b) => a is A && src8(b),
        Instruction::XOR(a, b) => a is A && src8(b),
        Instruction::OR(a, b) => a is A && src8(b),
        Instruction::CP(a, b) => a is A && src8(b),
        Instruction::DAA => true,
        Instruction::CPL => true,
        Instruction::RLCA => true,
        Instruction::RLA => true,
        Instruction::RRCA => true,
        Instruction::RRA => true,
        Instruction::RLC(op) => reg8_mem(op),
        Instruction::RL(op) => reg8_mem(op),
        Instruction::RRC(op) => reg8_mem(op),
        Instruction::RR(op) => reg8_mem(op),
        Instruction::SLA(op) => reg8_mem(op),
        Instruction::SWAP(op) => reg8_mem(op),
        Instruction::SRA(op) => reg8_mem(op),
        Instruction::SRL(op) => reg8_mem(op),
        Instruction::BIT(n, op) => n <= 7 && reg8_mem(op),
        Instruction::SET(n, op) => n <= 7 && reg8_mem(op),
        Instruction::RES(n, op) => n <= 7 && reg8_mem(op),
        Instruction::CCF => true,
        Instruction::SCF => true,
        Instruction::NOP => true,
        Instruction::HALT => true,
        Instruction::STOP => true,
        Instruction::DI => true,
        Instruction::EI => true,
        Instruction::JP(c, d) => cond_or_blank(c) && (d is U16 || d is HL),
        Instruction::JR(c, d) => cond_or_blank(c) && d is I8,
        Instruction::CALL(c, d) => cond_or_blank(c) && d is U16,
        Instruction::RET(c) => cond_or_blank(c),
        Instruction::RETI => true,
        Instruction::RST(_n) => true,
        Instruction::PREFIX => true,
        Instruction::XXX => false,
        Instruction::TODO => false,
    }
}

/// An instruction of the prefixed plane.
pub open spec fn prefixed_op(i: Instruction) -> bool {
    match i {
        Instruction::RLC(_) => true,
        Instruction::RL(_) => true,
        Instruction::RRC(_) => true,
        Instruction::RR(_) => true,
        Instruction::SLA(_) => true,
        Instruction::SWAP(_) => true,
        Instruction::SRA(_) => true,
        Instruction::SRL(_) => true,
        Instruction::BIT(_, _) => true,
        Instruction::SET(_, _) => true,
        Instruction::RES(_, _) => true,
        _ => false,
    }
}

/// The state transform and taken-branch penalty of one instruction of
/// either plane, the prefix escape aside.
pub open spec fn spec_execute_base(s: MachineState, i: Instruction) -> (MachineState, int) {
    match i {
        Instruction::LD(a, b) => (step_load(s, a, b), 0),
        Instruction::LDI(a, b) => {
            let s1 = step_load(s, a, b);
            (MachineState { hl: wrap16(s1.hl + 1), ..s1 }, 0)
        },
        Instruction::LDD(a, b) => {
            let s1 = step_load(s, a, b);
            (MachineState { hl: wrap16(s1.hl - 1), ..s1 }, 0)
        },
        Instruction::PUSH(f) => (step_push(s, f), 0),
        Instruction::POP(t) => (step_pop(s, t), 0),
        Instruction::ADD(a, b) => (step_add(s, a, b, false), 0),
        Instruction::ADC(a, b) => (step_add(s, a, b, true), 0),
        Instruction::SUB(a, b) => (step_sub(s, a, b, false), 0),
        Instruction::SBC(a, b) => (step_sub(s, a, b, true), 0),
        Instruction::INC(op) => (step_inc(s, op), 0),
        Instruction::DEC(op) => (step_dec(s, op), 0),
        Instruction::AND(a, b) => (step_and(s, a, b), 0),
        Instruction::XOR(a, b) => (step_xor(s, a, b), 0),
        Instruction::OR(a, b) => (step_or(s, a, b), 0),
        Instruction::CP(a, b) => (step_cp(s, a, b), 0),
        Instruction::DAA => (step_daa(s), 0),
        Instruction::CPL => (step_cpl(s), 0),
        Instruction::RLCA => (
            step_rot(s, InstrucionTarget::A, alu_rlc(rot_operand(s, InstrucionTarget::A), true)),
            0,
        ),
        Instruction::RLA => (
            step_rot(
                s,
                InstrucionTarget::A,
                alu_rl(rot_operand(s, InstrucionTarget::A), cf(s.af), true),
            ),
            0,
        ),
        Instruction::RRCA => (
            step_rot(s, InstrucionTarget::A, alu_rrc(rot_operand(s, InstrucionTarget::A), true)),
            0,
        ),
        Instruction::RRA => (
            step_rot(
                s,
                InstrucionTarget::A,
                alu_rr(rot_operand(s, InstrucionTarget::A), cf(s.af), true),
            ),
            0,
        ),
        Instruction::RLC(op) => (step_rot(s, op, alu_rlc(rot_operand(s, op), false)), 0),
        Instruction::RL(op) => (step_rot(s, op, alu_rl(rot_operand(s, op), cf(s.af), false)), 0),
        Instruction::RRC(op) => (step_rot(s, op, alu_rrc(rot_operand(s, op), false)), 0),
        Instruction::RR(op) => (step_rot(s, op, alu_rr(rot_operand(s, op), cf(s.af), false)), 0),
        Instruction::SLA(op) => (step_rot(s, op, alu_sla(rot_operand(s, op))), 0),
        Instruction::SWAP(op) => (step_rot(s, op, alu_swap(rot_operand(s, op))), 0),
        Instruction::SRA(op) => (step_rot(s, op, alu_sra(rot_operand(s, op))), 0),
        Instruction::SRL(op) => (step_rot(s, op, alu_srl(rot_operand(s, op))), 0),
        Instruction::BIT(n, op) => (step_bit(s, n, op), 0),
        Instruction::SET(n, op) => (step_set(s, n, op), 0),
        Instruction::RES(n, op) => (step_res(s, n, op), 0),
        Instruction::CCF => (step_ccf(s), 0),
        Instruction::SCF => (step_scf(s), 0),
        Instruction::NOP => (s, 0),
        Instruction::HALT => (MachineState { halted: true, ..s }, 0),
        Instruction::STOP => (MachineState { stopped: true, ..s }, 0),
        Instruction::DI => (MachineState { ime: false, ..s }, 0),
        Instruction::EI => (MachineState { ime: true, ..s }, 0),
        Instruction::JP(c, d) => step_jp(s, c, d, false),
        Instruction::JR(c, d) => step_jp(s, c, d, true),
        Instruction::CALL(c, d) => step_call(s, c, d),
        Instruction::RET(c) => step_ret(s, c, false),
        Instruction::RETI => step_ret(s, InstrucionTarget::Blank, true),
        Instruction::RST(n) => (step_rst(s, n), 0),
        _ => (s, 0),
    }
}

/// The state transform and cycle penalty of one instruction: the prefix
/// escape consumes the next opcode, executes it through the prefixed table,
/// and adds that table entry's cycles; everything else acts directly.
pub open spec fn spec_execute(s: MachineState, i: Instruction) -> (MachineState, int) {
    if i is PREFIX {
        let op = imm8(s);
        let s1 = after_imm(s, 1);
        let e = spec_prefix_decode(op);
        let r = spec_execute_base(s1, e.0);
        (r.0, e.1 + r.1)
    } else {
        spec_execute_base(s, i)
    }
}

/// One fetch-decode-execute step: read the opcode at PC, advance PC, decode
/// through the primary table, execute, and set the countdown to the base
/// cycles plus the taken-branch penalty, less the cycle this step consumed.
pub open spec fn spec_step(s: MachineState) -> MachineState {
    let e = spec_decode(mem_at(s, s.pc));
    let r = spec_execute(after_imm(s, 1), e.0);
    MachineState { cycles: e.1 + r.1 - 1, ..r.0 }
}

/// What every slot of the primary table satisfies: the illegal marker costs
/// zero cycles, and every other entry is a well-formed instruction whose
/// base cycles lie between 4 and 24.
pub open spec fn decode_entry_ok(e: (Instruction, i32)) -> bool {
    if e.0 is XXX {
        e.1 == 0
    } else {
        valid_instr(e.0) && 4 <= e.1 <= 24
    }
}

#[verifier::rlimit(100)]
proof fn lemma_decode_valid_00(op: u8)
    requires
        0x00 <= op,
        op < 0x10,
    ensures
        decode_entry_ok(spec_decode(op)),
{
}

#[verifier::rlimit(100)]
proof fn lemma_decode_valid_10(op: u8)
    requires
        0x10 <= op,
        op < 0x20,
    ensures
        decode_entry_ok(spec_decode(op)),
{
}

#[verifier::rlimit(100)]
proof fn lemma_decode_valid_20(op: u8)
    requires
        0x20 <= op,
        op < 0x30,
    ensures
        decode_entry_ok(spec_decode(op)),
{
}

#[verifier::rlimit(100)]
proof fn lemma_decode_valid_30(op: u8)
    requires
        0x30 <= op,
        op < 0x40,
    ensures
        decode_entry_ok(spec_decode(op)),
{
}

#[verifier::rlimit(100)]
proof fn lemma_decode_valid_c0(op: u8)
    requires
        0xC0 <= op,
        op < 0xD0,
    ensures
        decode_entry_ok(spec_decode(op)),
{
}

#[verifier::rlimit(100)]
proof fn lemma_decode_valid_d0(op: u8)
    requires
        0xD0 <= op,
        op < 0xE0,
    ensures
        decode_entry_ok(spec_decode(op)),
{
}

#[verifier::rlimit(100)]
proof fn lemma_decode_valid_e0(op: u8)
    requires
        0xE0 <= op,
        op < 0xF0,
    ensures
        decode_entry_ok(spec_decode(op)),
{
}

#[verifier::rlimit(100)]
proof fn lemma_decode_valid_f0(op: u8)
    requires
        0xF0 <= op,
        true,
    ensures
        decode_entry_ok(spec_decode(op)),
{
}

#[verifier::rlimit(100)]
proof fn lemma_decode_valid_regular(op: u8)
    requires
        0x40 <= op <= 0xBF,
    ensures
        decode_entry_ok(spec_decode(op)),
{
    lemma_low_bits(op);
}

/// One slot of the primary table is well formed.
pub proof fn lemma_decode_valid_at(op: u8)
    ensures
        decode_entry_ok(spec_decode(op)),
{
    if op < 0x10 {
        lemma_decode_valid_00(op);
    } else if op < 0x20 {
        lemma_decode_valid_10(op);
    } else if op < 0x30 {
        lemma_decode_valid_20(op);
    } else if op < 0x40 {
        lemma_decode_valid_30(op);
    } else if op <= 0xBF {
        lemma_decode_valid_regular(op);
    } else if op < 0xD0 {
        lemma_decode_valid_c0(op);
    } else if op < 0xE0 {
        lemma_decode_valid_d0(op);
    } else if op < 0xF0 {
        lemma_decode_valid_e0(op);
    } else {
        lemma_decode_valid_f0(op);
    }
}

/// Every slot of the primary table holds a well-formed instruction; base
/// cycles lie between 4 and 24, except the illegal marker's 0.
pub proof fn lemma_decode_valid()
    ensures
        forall|op: u8| decode_entry_ok(#[trigger] spec_decode(op)),
{
    assert forall|op: u8| decode_entry_ok(#[trigger] spec_decode(op)) by {
        lemma_decode_valid_at(op);
    }
}

/// Every slot of the prefixed table holds a well-formed prefixed-plane
/// instruction (never the escape itself) costing 8 or 16 cycles.
pub proof fn lemma_prefix_valid()
    ensures
        forall|op: u8| valid_instr((#[trigger] spec_prefix_decode(op)).0),
        forall|op: u8| prefixed_op((#[trigger] spec_prefix_decode(op)).0),
        forall|op: u8|
            (#[trigger] spec_prefix_decode(op)).1 == 8 || spec_prefix_decode(op).1 == 16,
{
    assert forall|op: u8| valid_instr((#[trigger] spec_prefix_decode(op)).0) && prefixed_op(
        spec_prefix_decode(op).0,
    ) && (spec_prefix_decode(op).1 == 8 || spec_prefix_decode(op).1 == 16) by {
        lemma_low_bits(op);
    }
}

/// A prefixed-plane instruction never carries a taken-branch penalty.
pub proof fn lemma_prefixed_no_penalty(s: MachineState, i: Instruction)
    requires
        prefixed_op(i),
    ensures
        spec_execute_base(s, i).1 == 0,
{
}

impl CPU {
    /// Routes one prefixed instruction: consumes the opcode after the
    /// escape byte, decodes it through the prefixed table, executes it, and
    /// returns that table entry's cycles as the penalty to accrue on top of
    /// the escape's base cycles.
    pub fn prefix(&mut self) -> (r: i32)
        requires
            old(self).wf(),
        ensures
            final(self).wf(),
            final(self)@ == spec_execute(old(self)@, Instruction::PREFIX).0,
            r as int == spec_execute(old(self)@, Instruction::PREFIX).1,
            0 <= r <= 16,
    {
        let op = self.get_imm_u8();
        let entry = self.prefix_table[op as usize];
        proof {
            lemma_prefix_valid();
            lemma_prefixed_no_penalty(self@, entry.0);
        }
        let pen = self.execute_base(entry.0);
        entry.1 + pen
    }

    /// Executes one instruction of either plane other than the prefix
    /// escape, dispatching to its family handler, and returns the
    /// taken-branch cycle penalty it accrued.
    #[verifier::rlimit(100)]
    fn execute_base(&mut self, instruction: Instruction) -> (r: i32)
        requires
            old(self).wf(),
            valid_instr(instruction),
            !(instruction is PREFIX),
        ensures
            final(self).wf(),
            final(self)@ == spec_execute_base(old(self)@, instruction).0,
            r as int == spec_execute_base(old(self)@, instruction).1,
            0 <= r <= 12,
    {
        match instruction {
            Instruction::LD(to, from) => {
                self.load(to, from);
                return 0;
            },
            Instruction::LDI(to, from) => {
                self.load(to, from);
                proof {
                    lemma_wrap16(self.reg_hl.value + 1);
                }
                self.reg_hl = self.reg_hl.wrapping_add(1);
                return 0;
            },
            Instruction::LDD(to, from) => {
                self.load(to, from);
                proof {
                    lemma_wrap16(self.reg_hl.value - 1);
                }
                self.reg_hl = self.reg_hl.wrapping_sub(1);
                return 0;
            },
            Instruction::PUSH(from) => {
                self.push(from);
                return 0;
            },
            Instruction::POP(to) => {
                self.pop(to);
                return 0;
            },
            Instruction::ADD(to, from) => {
                self.add(to, from, false);
                return 0;
            },
            Instruction::ADC(to, from) => {
                self.add(to, from, true);
                return 0;
            },
            Instruction::SUB(to, from) => {
                self.sub(to, from, false);
                return 0;
            },
            Instruction::SBC(to, from) => {
                self.sub(to, from, true);
                return 0;
            },
            Instruction::AND(to, from) => {
                self.and(to, from);
                return 0;
            },
            Instruction::XOR(to, from) => {
                self.xor(to, from);
                return 0;
            },
            Instruction::OR(to, from) => {
                self.or(to, from);
                return 0;
            },
            Instruction::CP(op1, op2) => {
                self.cp(op1, op2);
                return 0;
            },
            Instruction::INC(op) => {
                self.inc(op);
                return 0;
            },
            Instruction::DEC(op) => {
                self.dec(op);
                return 0;
            },
            Instruction::DAA => {
                self.daa();
                return 0;
            },
            Instruction::CPL => {
                self.cpl();
                return 0;
            },
            Instruction::RLCA => {
                self.rlc(InstrucionTarget::A, true);
                return 0;
            },
            Instruction::RLA => {
                self.rl(InstrucionTarget::A, true);
                return 0;
            },
            Instruction::RRCA => {
                self.rrc(InstrucionTarget::A, true);
                return 0;
            },
            Instruction::RRA => {
                self.rr(InstrucionTarget::A, true);
                return 0;
            },
            Instruction::RLC(op) => {
                self.rlc(op, false);
                return 0;
            },
            Instruction::RL(op) => {
                self.rl(op, false);
                return 0;
            },
            Instruction::RRC(op) => {
                self.rrc(op, false);
                return 0;
            },
            Instruction::RR(op) => {
                self.rr(op, false);
                return 0;
            },
            Instruction::SLA(op) => {
                self.sla(op);
                return 0;
            },
            Instruction::SWAP(op) => {
                self.swap(op);
                return 0;
            },
            Instruction::SRA(op) => {
                self.sra(op);
                return 0;
            },
            Instruction::SRL(op) => {
                self.srl(op);
                return 0;
            },
            Instruction::BIT(bit, op) => {
                self.bit(bit, op);
                return 0;
            },
            Instruction::SET(bit, op) => {
                self.set(bit, op);
                return 0;
            },
            Instruction::RES(bit, op) => {
                self.res(bit, op);
                return 0;
            },
            Instruction::CCF => {
                self.ccf();
                return 0;
            },
            Instruction::SCF => {
                self.scf();
                return 0;
            },
            Instruction::NOP => {
                return 0;
            },
            Instruction::HALT => {
                self.halt();
                return 0;
            },
            Instruction::STOP => {
                self.stop();
                return 0;
            },
            Instruction::DI => {
                self.di();
                return 0;
            },
            Instruction::EI => {
                self.ei();
                return 0;
            },
            Instruction::JP(cond, dest) => {
                return self.jp(cond, dest, false);
            },
            Instruction::JR(cond, dest) => {
                return self.jp(cond, dest, true);
            },
            Instruction::CALL(cond, dest) => {
                return self.call(cond, dest);
            },
            Instruction::RET(cond) => {
                return self.ret(cond, false);
            },
            Instruction::RETI => {
                return self.ret(InstrucionTarget::Blank, true);
            },
            Instruction::RST(offset) => {
                self.rst(offset);
                return 0;
            },
            _ => {
                proof {
                    assert(false);
                }
                return 0;
            },
        }
    }

    /// Executes one decoded instruction, dispatching to its family handler
    /// (the prefix escape consumes and executes the next opcode through the
    /// prefixed table), and returns the cycle penalty it accrued.
    pub fn execute(&mut self, instruction: Instruction) -> (r: i32)
        requires
            old(self).wf(),
            valid_instr(instruction),
        ensures
            final(self).wf(),
            final(self)@ == spec_execute(old(self)@, instruction).0,
            r as int == spec_execute(old(self)@, instruction).1,
            0 <= r <= 16,
    {
        if let Instruction::PREFIX = instruction {
            self.prefix()
        } else {
            self.execute_base(instruction)
        }
    }

    /// Advances the machine by one cycle. When the countdown is zero it
    /// fetches, decodes and executes one instruction and sets the countdown
    /// to the decode-table base cycles plus, for a taken conditional branch,
    /// exactly the branch penalty; in every case one cycle is then consumed.
    /// Fetching an opcode with no defined instruction is the fatal
    /// `IllegalOpcode` error and leaves the machine unchanged.
    #[verifier::rlimit(100)]
    pub fn clock(&mut self) -> (r: Result<(), CpuError>)
        requires
            old(self).wf(),
        ensures
            final(self).wf(),
            old(self)@.cycles > 0 ==> r is Ok && final(self)@ == (MachineState {
                cycles: old(self)@.cycles - 1,
                ..old(self)@
            }),
            old(self)@.cycles == 0 && spec_decode(mem_at(old(self)@, old(self)@.pc)).0 is XXX
                ==> r == Err::<(), CpuError>(
                CpuError::IllegalOpcode {
                    opcode: mem_at(old(self)@, old(self)@.pc),
                    pc: old(self)@.pc,
                },
            ) && final(self)@ == old(self)@,
            old(self)@.cycles == 0 && !(spec_decode(mem_at(old(self)@, old(self)@.pc)).0 is XXX)
                ==> r is Ok && final(self)@ == spec_step(old(self)@),
    {
        if self.cycles == 0 {
            let op = self.memory.read(self.pc.value as usize);
            let entry = self.opcode_table[op as usize];
            proof {
                lemma_decode_valid();
            }
            if let Instruction::XXX = entry.0 {
                return Err(
                    CpuError::IllegalOpcode { opcode: op, pc: self.pc.value },
                );
            }
            self.pc.inc();
            let pen = self.execute(entry.0);
            self.cycles = entry.1 + pen;
        }
        self.cycles = self.cycles - 1;
        proof {
            if old(self)@.cycles == 0 {
                assert(self@ =~= spec_step(old(self)@));
            } else {
                assert(self@ =~= (MachineState {
                    cycles: old(self)@.cycles - 1,
                    ..old(self)@
                }));
            }
        }
        Ok(())
    }
}


/// A read-only view of the architectural state, with the four flags
/// decoded.
#[derive(Clone, Copy, Debug, PartialEq, Eq, Structural)]
pub struct Snapshot {
    pub af: u16,
    pub bc: u16,
    pub de: u16,
    pub hl: u16,
    pub sp: u16,
    pub pc: u16,
    pub ime: bool,
    pub halted: bool,
    pub stopped: bool,
    pub z: bool,
    pub n: bool,
    pub h: bool,
    pub c: bool,
}

impl CPU {
    /// Runs `clock` until the per-instruction countdown returns to zero:
    /// from an idle machine this executes exactly one instruction and
    /// consumes all its cycles.
    pub fn step_instruction(&mut self) -> (r: Result<(), CpuError>)
        requires
            old(self).wf(),
        ensures
            final(self).wf(),
            final(self)@.cycles == 0,
            old(self)@.cycles > 0 ==> r is Ok && final(self)@ == (MachineState {
                cycles: 0,
                ..old(self)@
            }),
            old(self)@.cycles == 0 && spec_decode(mem_at(old(self)@, old(self)@.pc)).0 is XXX
                ==> r == Err::<(), CpuError>(
                CpuError::IllegalOpcode {
                    opcode: mem_at(old(self)@, old(self)@.pc),
                    pc: old(self)@.pc,
                },
            ) && final(self)@ == old(self)@,
            old(self)@.cycles == 0 && !(spec_decode(mem_at(old(self)@, old(self)@.pc)).0 is XXX)
                ==> r is Ok && final(self)@ == (MachineState { cycles: 0, ..spec_step(old(self)@) }),
    {
        match self.clock() {
            Err(e) => {
                return Err(e);
            },
            Ok(()) => {},
        }
        let ghost target = self@;
        while self.cycles != 0
            invariant
                self.wf(),
                self@ == (MachineState { cycles: self@.cycles, ..target }),
            decreases self@.cycles,
        {
            let _ = self.clock();
        }
        proof {
            assert(self@ =~= (MachineState { cycles: 0, ..target }));
        }
        Ok(())
    }

    /// A read-only snapshot of registers, latches and decoded flags.
    pub fn snapshot(&self) -> (r: Snapshot)
        ensures
            r.af == self@.af,
            r.bc == self@.bc,
            r.de == self@.de,
            r.hl == self@.hl,
            r.sp == self@.sp,
            r.pc == self@.pc,
            r.ime == self@.ime,
            r.halted == self@.halted,
            r.stopped == self@.stopped,
            r.z == zf(self@.af),
            r.n == nf(self@.af),
            r.h == hf(self@.af),
            r.c == cf(self@.af),
    {
        Snapshot {
            af: self.reg_af.value,
            bc: self.reg_bc.value,
            de: self.reg_de.value,
            hl: self.reg_hl.value,
            sp: self.stack_pointer.value,
            pc: self.pc.value,
            ime: self.ime,
            halted: self.halted,
            stopped: self.stopped,
            z: self.get_flag(Flag::Z),
            n: self.get_flag(Flag::N),
            h: self.get_flag(Flag::H),
            c: self.get_flag(Flag::C),
        }
    }

    /// Copies a ROM image into memory starting at address 0; an image over
    /// 32 KiB is rejected and nothing changes.
    pub fn load_rom(&mut self, data: &[u8]) -> (r: Result<(), CpuError>)
        requires
            old(self).wf(),
        ensures
            final(self).wf(),
            data@.len() > crate::memory::ROM_SIZE ==> r == Err::<(), CpuError>(
                CpuError::RomTooLarge,
            ) && final(self)@ == old(self)@,
            data@.len() <= crate::memory::ROM_SIZE ==> r == Ok::<(), CpuError>(()) && final(self)@
                == (MachineState { mem: final(self)@.mem, ..old(self)@ }) && (forall|i: int|
                0 <= i < data@.len() ==> final(self)@.mem[i] == data@[i]) && (forall|i: int|
                data@.len() <= i < 0x10000 ==> final(self)@.mem[i] == old(self)@.mem[i]),
    {
        let r = self.memory.load(data);
        r
    }

    /// Counts the unpopulated slots of the primary and prefixed decode
    /// tables; both counts are zero, since the tables cover every opcode.
    pub fn check_table(&self) -> (r: (usize, usize))
        requires
            self.wf(),
        ensures
            r.0 == 0,
            r.1 == 0,
    {
        proof {
            crate::table_builder::lemma_tables_complete();
        }
        let mut todo_main: usize = 0;
        let mut i: usize = 0;
        while i < 256
            invariant
                self.wf(),
                i <= 256,
                todo_main == 0,
                forall|op: u8| !((#[trigger] spec_decode(op)).0 is TODO),
            decreases 256 - i,
        {
            let e = self.opcode_table[i];
            if let Instruction::TODO = e.0 {
                todo_main = todo_main + 1;
            }
            i = i + 1;
        }
        let mut todo_prefix: usize = 0;
        let mut j: usize = 0;
        while j < 256
            invariant
                self.wf(),
                j <= 256,
                todo_prefix == 0,
                forall|op: u8| !((#[trigger] spec_prefix_decode(op)).0 is TODO),
            decreases 256 - j,
        {
            let e = self.prefix_table[j];
            if let Instruction::TODO = e.0 {
                todo_prefix = todo_prefix + 1;
            }
            j = j + 1;
        }
        (todo_main, todo_prefix)
    }
}

/// An address whose stores land: outside the dropped regions and not the
/// DIV register. A store there reads back as the stored byte.
pub open spec fn stores_at(a: u16) -> bool {
    &&& a >= 0x0800
    &&& !(0xE000 <= a <= 0xFDFF)
    &&& !(0xFEA0 <= a <= 0xFEFF)
    &&& a != 0xFF04
}

/// Law: pushing a 16-bit value and popping it back yields the pushed value
/// and restores the stack pointer, whenever the two stack cells are
/// addresses whose stores land.
pub proof fn lemma_push_pop_round_trip(s: MachineState, v: u16)
    requires
        s.mem.len() == 0x10000,
        stores_at(wrap16(s.sp - 1)),
        stores_at(wrap16(s.sp - 2)),
    ensures
        spec_pop_value(spec_push(s, v)) == v,
        spec_pop(spec_push(s, v)).sp == s.sp,
        spec_pop(spec_push(s, v)).mem == spec_push(s, v).mem,
{
    lemma_wrap16(s.sp - 1);
    lemma_wrap16(s.sp - 2);
    let sp1 = wrap16(s.sp - 1);
    let sp2 = wrap16(s.sp - 2);
    lemma_wrap16(sp2 + 1);
    lemma_wrap16(sp2 + 2);
    crate::register::lemma_word_halves(v);
    let pushed = spec_push(s, v);
    assert(pushed.mem[sp2 as int] == lo_byte(v));
    assert(pushed.mem[sp1 as int] == hi_byte(v));
    assert(spec_pop_value(pushed) == word_of(hi_byte(v), lo_byte(v)));
}

/// Law: PUSH rr then POP rr restores the pair and the stack pointer (AF by
/// way of its always-zero low nibble), whenever the two stack cells are
/// addresses whose stores land.
#[verifier::rlimit(100)]
pub proof fn lemma_push_pop_instruction(s: MachineState, rr: InstrucionTarget)
    requires
        s.mem.len() == 0x10000,
        reg16_stack(rr),
        af_wf(s.af),
        stores_at(wrap16(s.sp - 1)),
        stores_at(wrap16(s.sp - 2)),
    ensures
        ({
            let s2 = step_pop(step_push(s, rr), rr);
            &&& s2.sp == s.sp
            &&& (rr is AF ==> s2.af == s.af)
            &&& (rr is BC ==> s2.bc == s.bc)
            &&& (rr is DE ==> s2.de == s.de)
            &&& (rr is HL ==> s2.hl == s.hl)
        }),
{
    let v = t_read(s, rr).0;
    lemma_push_pop_round_trip(s, v);
    let af0 = s.af;
    assert(af0 & 0xF == 0 ==> (af0 & 0xFFF0) as u16 == af0) by (bit_vector);
}

/// Law: XOR A, A clears the accumulator and sets exactly the Z flag.
pub proof fn lemma_xor_self_clears_a(s: MachineState)
    ensures
        ({
            let s2 = step_xor(s, InstrucionTarget::A, InstrucionTarget::A);
            &&& hi_byte(s2.af) == 0
            &&& zf(s2.af)
            &&& !nf(s2.af)
            &&& !hf(s2.af)
            &&& !cf(s2.af)
        }),
{
    let a = hi_byte(s.af);
    lemma_wrap8(a as int);
    assert(a ^ a == 0) by (bit_vector);
    let s1 = t_write(s, InstrucionTarget::A, 0);
    crate::register::lemma_word_halves(0u16);
    lemma_word_of_bytes(0, lo_byte(s.af));
    lemma_flags_byte(hi_byte(s1.af), true, false, false, false);
    lemma_word_of_bytes(hi_byte(s1.af), flags_byte(true, false, false, false));
    assert(lo_byte(0u16) == 0) by (bit_vector);
}

/// The value an 8-bit register operand holds.
pub open spec fn reg8_value(s: MachineState, op: InstrucionTarget) -> u16 {
    t_read(s, op).0
}

/// Law: INC then DEC of an 8-bit register restores its value; the N flag is
/// clear after the INC and set after the DEC.
pub proof fn lemma_inc_dec_round_trip(s: MachineState, op: InstrucionTarget)
    requires
        reg8_mem(op),
        !(op is HLMem),
    ensures
        ({
            let s1 = step_inc(s, op);
            let s2 = step_dec(s1, op);
            &&& reg8_value(s2, op) == reg8_value(s, op)
            &&& !nf(s1.af)
            &&& nf(s2.af)
        }),
{
    let v = t_read(s, op).0;
    lemma_t_read_small(s, op);
    lemma_wrap8(v + 1);
    let r1 = wrap8(v + 1);
    lemma_wrap8(r1 - 1);
    let s1 = step_inc(s, op);
    let sw = t_write(s, op, r1 as u16);
    crate::register::lemma_word_halves(r1 as u16);
    lemma_word_of_bytes(lo_byte(r1 as u16), lo_byte(s.af));
    lemma_word_of_bytes(lo_byte(r1 as u16), lo_byte(s.bc));
    lemma_word_of_bytes(hi_byte(s.bc), lo_byte(r1 as u16));
    lemma_word_of_bytes(lo_byte(r1 as u16), lo_byte(s.de));
    lemma_word_of_bytes(hi_byte(s.de), lo_byte(r1 as u16));
    lemma_word_of_bytes(lo_byte(r1 as u16), lo_byte(s.hl));
    lemma_word_of_bytes(hi_byte(s.hl), lo_byte(r1 as u16));
    lemma_flags_byte(hi_byte(sw.af), r1 == 0, false, v % 16 == 0xF, cf(sw.af));
    lemma_word_of_bytes(hi_byte(sw.af), flags_byte(r1 == 0, false, v % 16 == 0xF, cf(sw.af)));
    assert(reg8_value(s1, op) == r1 as u16);
    let v2 = r1 as u16;
    lemma_wrap8(v2 - 1);
    let r2 = wrap8(v2 - 1);
    assert(r2 == v);
    let sw2 = t_write(s1, op, r2 as u16);
    crate::register::lemma_word_halves(r2 as u16);
    lemma_word_of_bytes(lo_byte(r2 as u16), lo_byte(s1.af));
    lemma_word_of_bytes(lo_byte(r2 as u16), lo_byte(s1.bc));
    lemma_word_of_bytes(hi_byte(s1.bc), lo_byte(r2 as u16));
    lemma_word_of_bytes(lo_byte(r2 as u16), lo_byte(s1.de));
    lemma_word_of_bytes(hi_byte(s1.de), lo_byte(r2 as u16));
    lemma_word_of_bytes(lo_byte(r2 as u16), lo_byte(s1.hl));
    lemma_word_of_bytes(hi_byte(s1.hl), lo_byte(r2 as u16));
    lemma_flags_byte(hi_byte(sw2.af), r2 == 0, true, v2 % 16 == 0, cf(sw2.af));
    lemma_word_of_bytes(hi_byte(sw2.af), flags_byte(r2 == 0, true, v2 % 16 == 0, cf(sw2.af)));
}

/// Law: two successive CPLs restore the accumulator, and each leaves N and
/// H set.
pub proof fn lemma_cpl_twice(s: MachineState)
    ensures
        hi_byte(step_cpl(step_cpl(s)).af) == hi_byte(s.af),
        nf(step_cpl(s).af) && hf(step_cpl(s).af),
        nf(step_cpl(step_cpl(s)).af) && hf(step_cpl(step_cpl(s)).af),
{
    let a = hi_byte(s.af);
    assert(!(!a) == a) by (bit_vector);
    let s1 = step_cpl(s);
    lemma_word_of_bytes(!a, lo_byte(s.af));
    lemma_flags_byte(hi_byte(word_of(!a, lo_byte(s.af))), zf(s.af), true, true, cf(s.af));
    lemma_word_of_bytes(
        hi_byte(word_of(!a, lo_byte(s.af))),
        flags_byte(zf(s.af), true, true, cf(s.af)),
    );
    let a1 = hi_byte(s1.af);
    let s2 = step_cpl(s1);
    lemma_word_of_bytes(!a1, lo_byte(s1.af));
    lemma_flags_byte(hi_byte(word_of(!a1, lo_byte(s1.af))), zf(s1.af), true, true, cf(s1.af));
    lemma_word_of_bytes(
        hi_byte(word_of(!a1, lo_byte(s1.af))),
        flags_byte(zf(s1.af), true, true, cf(s1.af)),
    );
}

/// Law: SWAP twice is the identity on the operand byte, and the flag byte
/// after the second SWAP equals the one after the first (only Z ever
/// depends on the value, and it agrees on both).
pub proof fn lemma_swap_twice(v: u8)
    ensures
        alu_swap(alu_swap(v).0).0 == v,
        alu_swap(alu_swap(v).0).1 == alu_swap(v).1,
{
    let r = (v << 4) | (v >> 4);
    assert((r << 4) | (r >> 4) == v && (r == 0 <==> v == 0)) by (bit_vector)
        requires
            r == (v << 4) | (v >> 4),
    ;
}

/// Law: CCF twice restores the C flag (and Z throughout); SCF followed by
/// CCF leaves C clear, inverting what SCF set.
pub proof fn lemma_scf_ccf(s: MachineState)
    ensures
        cf(step_ccf(step_ccf(s)).af) == cf(s.af),
        zf(step_ccf(step_ccf(s)).af) == zf(s.af),
        cf(step_scf(s).af),
        !cf(step_ccf(step_scf(s)).af),
{
    lemma_flags_byte(hi_byte(s.af), zf(s.af), false, false, !cf(s.af));
    let s1 = step_ccf(s);
    lemma_flags_byte(hi_byte(s1.af), zf(s1.af), false, false, !cf(s1.af));
    lemma_flags_byte(hi_byte(s.af), zf(s.af), false, false, true);
    let t1 = step_scf(s);
    lemma_flags_byte(hi_byte(t1.af), zf(t1.af), false, false, !cf(t1.af));
}

} // verus!
