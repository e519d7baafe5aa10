//! The 64 KiB memory map. Reads are side-effect-free; writes follow a
//! region-dependent policy: stores into the ROM region, the echo region and
//! the forbidden region are dropped, stores into internal RAM are mirrored
//! into echo RAM, and any store to the DIV register forces it to zero.

use vstd::prelude::*;

use crate::CpuError;
use crate::arith::{wrap8, lemma_wrap8};

verus! {

pub const MEM_SIZE: usize = 64 * 1024;

pub const ROM_SIZE: usize = 32 * 1024;

/// Divider register address.
pub const DIV_ADDR: usize = 0xFF04;

/// Timer counter address.
pub const TIMA_ADDR: usize = 0xFF05;

/// Timer modulo address: the value reloaded into TIMA when it overflows.
pub const TMA_ADDR: usize = 0xFF06;

/// Timer control address.
pub const TAC_ADDR: usize = 0xFF07;

/// Interrupt flag address.
pub const IFLAG_ADDR: usize = 0xFF0F;

/// Interrupt enable address.
pub const IE_ADDR: usize = 0xFFFF;

pub struct Memory {
    mem: Vec<u8>,
}

/// What one store leaves in memory, by region:
/// - `0x0000..0x07FF` (ROM), `0xE000..0xFDFF` (echo), `0xFEA0..0xFEFF`
///   (forbidden): the store is dropped;
/// - `0xC000..0xDDFF` (internal RAM): the byte is stored there and mirrored
///   at `i + 0x2000`;
/// - `0xFF04` (DIV): the cell is forced to zero whatever the value;
/// - anywhere else: a direct store.
pub open spec fn write_policy(mem: Seq<u8>, i: int, v: u8) -> Seq<u8> {
    if i < 0x0800 {
        mem
    } else if 0xFEA0 <= i <= 0xFEFF {
        mem
    } else if 0xE000 <= i <= 0xFDFF {
        mem
    } else if 0xC000 <= i <= 0xDDFF {
        mem.update(i + 0x2000, v).update(i, v)
    } else if i == 0xFF04 {
        mem.update(i, 0)
    } else {
        mem.update(i, v)
    }
}

/// A store to the ROM, echo, or forbidden region leaves every cell of memory
/// at its prior value.
pub proof fn lemma_write_protected_regions(mem: Seq<u8>, i: int, v: u8)
    requires
        i < 0x0800 || (0xE000 <= i <= 0xFDFF) || (0xFEA0 <= i <= 0xFEFF),
    ensures
        write_policy(mem, i, v) == mem,
{
}

/// After a store to internal RAM at `i`, the cell and its echo mirror at
/// `i + 0x2000` hold the same byte.
pub proof fn lemma_write_echo_mirror(mem: Seq<u8>, i: int, v: u8)
    requires
        mem.len() == 0x10000,
        0xC000 <= i <= 0xDDFF,
    ensures
        write_policy(mem, i, v)[i] == v,
        write_policy(mem, i, v)[i + 0x2000] == v,
        write_policy(mem, i, v)[i] == write_policy(mem, i, v)[i + 0x2000],
{
}

/// A store of any value to the DIV register leaves it reading zero.
pub proof fn lemma_write_div_zero(mem: Seq<u8>, v: u8)
    requires
        mem.len() == 0x10000,
    ensures
        write_policy(mem, 0xFF04, v)[0xFF04] == 0,
{
}

impl View for Memory {
    type V = Seq<u8>;

    closed spec fn view(&self) -> Seq<u8> {
        self.mem@
    }
}

impl Memory {
    pub open spec fn wf(&self) -> bool {
        self@.len() == 0x10000
    }

    /// A fresh memory map, every cell zero.
    pub fn new() -> (r: Memory)
        ensures
            r.wf(),
            forall|i: int| 0 <= i < 0x10000 ==> r@[i] == 0,
    {
        let mut mem: Vec<u8> = Vec::new();
        let mut j: usize = 0;
        while j < MEM_SIZE
            invariant
                j == mem@.len(),
                j <= MEM_SIZE,
                forall|i: int| 0 <= i < j ==> mem@[i] == 0,
            decreases MEM_SIZE - j,
        {
            mem.push(0);
            j = j + 1;
        }
        Memory { mem }
    }

    /// Copies a ROM image into memory starting at address 0. An image larger
    /// than 32 KiB is rejected.
    pub fn load(&mut self, data: &[u8]) -> (r: Result<(), CpuError>)
        requires
            old(self).wf(),
        ensures
            final(self).wf(),
            data@.len() > ROM_SIZE ==> r == Err::<(), CpuError>(CpuError::RomTooLarge)
                && final(self)@ == old(self)@,
            data@.len() <= ROM_SIZE ==> r == Ok::<(), CpuError>(())
                && (forall|i: int| 0 <= i < data@.len() ==> final(self)@[i] == data@[i])
                && (forall|i: int| data@.len() <= i < 0x10000 ==> final(self)@[i] == old(self)@[i]),
    {
        if data.len() > ROM_SIZE {
            return Err(CpuError::RomTooLarge);
        }
        let mut j: usize = 0;
        while j < data.len()
            invariant
                self.wf(),
                j <= data@.len(),
                data@.len() <= ROM_SIZE,
                self@.len() == old(self)@.len(),
                forall|i: int| 0 <= i < j ==> self@[i] == data@[i],
                forall|i: int| j <= i < 0x10000 ==> self@[i] == old(self)@[i],
            decreases data@.len() - j,
        {
            let b = data[j];
            self.mem[j] = b;
            j = j + 1;
        }
        Ok(())
    }

    /// The byte at address `i`. Reads never fail and have no side effect.
    pub fn read(&self, i: usize) -> (r: u8)
        requires
            self.wf(),
            i < 0x10000,
        ensures
            r == self@[i as int],
    {
        self.mem[i]
    }

    /// Stores `v` at address `i`, under the region write policy.
    pub fn write(&mut self, i: usize, v: u8)
        requires
            old(self).wf(),
            i < 0x10000,
        ensures
            final(self).wf(),
            final(self)@ == write_policy(old(self)@, i as int, v),
    {
        if i < 0x0800 {
            return ;
        }
        if 0xFEA0 <= i && i <= 0xFEFF {
            return ;
        }
        if 0xE000 <= i && i <= 0xFDFF {
            return ;
        }
        if 0xC000 <= i && i <= 0xDDFF {
            self.mem[i + 0x2000] = v;
        }
        if i == DIV_ADDR {
            self.mem[i] = 0;
            return ;
        }
        self.mem[i] = v;
    }

    /// Stores `v` at address `i` directly, bypassing the write policy. This is
    /// the raw bus access used by the loader and the hardware-register
    /// helpers, never by the executed program.
    pub fn set(&mut self, i: usize, v: u8)
        requires
            old(self).wf(),
            i < 0x10000,
        ensures
            final(self).wf(),
            final(self)@ == old(self)@.update(i as int, v),
    {
        self.mem[i] = v;
    }

    /// Applies the post-reset values of the memory-mapped hardware registers:
    /// DIV=0xAB, TIMA=0x00, TMA=0x00, TAC=0xF8, IF=0xE1, IE=0x00.
    pub fn reset_hardware_registers(&mut self)
        requires
            old(self).wf(),
        ensures
            final(self).wf(),
            final(self)@ == old(self)@.update(0xFF04, 0xAB).update(0xFF05, 0).update(
                0xFF06,
                0,
            ).update(0xFF07, 0xF8).update(0xFF0F, 0xE1).update(0xFFFF, 0),
    {
        self.mem[DIV_ADDR] = 0xAB;
        self.mem[TIMA_ADDR] = 0x00;
        self.mem[TMA_ADDR] = 0x00;
        self.mem[TAC_ADDR] = 0xF8;
        self.mem[IFLAG_ADDR] = 0xE1;
        self.mem[IE_ADDR] = 0x00;
    }

    /// The divider register.
    pub fn div(&self) -> (r: u8)
        requires
            self.wf(),
        ensures
            r == self@[0xFF04],
    {
        self.mem[DIV_ADDR]
    }

    /// Increments the divider register, wrapping modulo 2^8.
    pub fn inc_div(&mut self)
        requires
            old(self).wf(),
        ensures
            final(self).wf(),
            final(self)@ == old(self)@.update(0xFF04, wrap8(old(self)@[0xFF04] + 1)),
    {
        proof {
            lemma_wrap8(self@[0xFF04] + 1);
        }
        let v = self.mem[DIV_ADDR];
        self.mem[DIV_ADDR] = v.wrapping_add(1);
    }

    /// The timer counter.
    pub fn tima(&self) -> (r: u8)
        requires
            self.wf(),
        ensures
            r == self@[0xFF05],
    {
        self.mem[TIMA_ADDR]
    }

    /// Increments the timer counter, wrapping modulo 2^8.
    pub fn inc_tima(&mut self)
        requires
            old(self).wf(),
        ensures
            final(self).wf(),
            final(self)@ == old(self)@.update(0xFF05, wrap8(old(self)@[0xFF05] + 1)),
    {
        proof {
            lemma_wrap8(self@[0xFF05] + 1);
        }
        let v = self.mem[TIMA_ADDR];
        self.mem[TIMA_ADDR] = v.wrapping_add(1);
    }

    /// Reloads the timer counter from the timer modulo register.
    pub fn reset_tima(&mut self)
        requires
            old(self).wf(),
        ensures
            final(self).wf(),
            final(self)@ == old(self)@.update(0xFF05, old(self)@[0xFF06]),
    {
        let v = self.mem[TMA_ADDR];
        self.mem[TIMA_ADDR] = v;
    }

    /// The timer modulo register.
    pub fn tma(&self) -> (r: u8)
        requires
            self.wf(),
        ensures
            r == self@[0xFF06],
    {
        self.mem[TMA_ADDR]
    }

    /// The timer control register: bit 2 enables the timer, bits 1..0 select
    /// the input clock.
    pub fn tac(&self) -> (r: u8)
        requires
            self.wf(),
        ensures
            r == self@[0xFF07],
    {
        self.mem[TAC_ADDR]
    }

    /// Whether interrupt `id` is enabled in the IE register.
    pub fn is_ie_set(&mut self, id: i32) -> (r: bool)
        requires
            old(self).wf(),
            0 <= id < 8,
        ensures
            *final(self) == *old(self),
            r == ((old(self)@[0xFFFF] >> (id as u8)) & 1 == 1),
    {
        let v = self.mem[IE_ADDR];
        (v >> (id as u32)) & 1 == 1
    }

    /// Clears bit `id` of the interrupt flag register.
    pub fn reset_iflag_bit(&mut self, id: i32)
        requires
            old(self).wf(),
            0 <= id < 8,
        ensures
            final(self).wf(),
            final(self)@ == old(self)@.update(
                0xFF0F,
                old(self)@[0xFF0F] & !(1u8 << (id as u8)),
            ),
    {
        let v = self.mem[IFLAG_ADDR];
        self.mem[IFLAG_ADDR] = v & !(1u8 << (id as u32));
    }

    /// Whether interrupt `id` is pending in the interrupt flag register.
    pub fn is_iflag_set(&mut self, id: i32) -> (r: bool)
        requires
            old(self).wf(),
            0 <= id < 8,
        ensures
            *final(self) == *old(self),
            r == ((old(self)@[0xFF0F] >> (id as u8)) & 1 == 1),
    {
        let v = self.mem[IFLAG_ADDR];
        (v >> (id as u32)) & 1 == 1
    }
}

} // verus!
