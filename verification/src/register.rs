//! A 16-bit register pair addressable as one 16-bit value or as two 8-bit
//! halves. All 16-bit arithmetic on a register wraps modulo 2^16.

use vstd::prelude::*;

use crate::arith::{wrap16, lemma_wrap16};

verus! {

#[derive(Copy, Clone, Debug)]
pub struct Register {
    pub value: u16,
}

/// The high byte of a 16-bit value.
pub open spec fn hi_byte(v: u16) -> u8 {
    (v >> 8) as u8
}

/// The low byte of a 16-bit value.
pub open spec fn lo_byte(v: u16) -> u8 {
    (v & 0xFF) as u8
}

/// The 16-bit value made of a high and a low byte.
pub open spec fn word_of(hi: u8, lo: u8) -> u16 {
    (((hi as u16) << 8) | (lo as u16)) as u16
}

/// Recombining the two halves of a word gives the word back.
pub broadcast proof fn lemma_word_halves(v: u16)
    ensures
        #[trigger] word_of(hi_byte(v), lo_byte(v)) == v,
        hi_byte(v) as int == v as int / 256,
        lo_byte(v) as int == v as int % 256,
{
    assert((((v >> 8) as u8 as u16) << 8 | ((v & 0xFF) as u8 as u16)) == v) by (bit_vector);
    assert((v >> 8) as u8 as int == v as int / 256) by (bit_vector);
    assert((v & 0xFF) as u8 as int == v as int % 256) by (bit_vector);
}

/// Building a word from two bytes and taking the halves gives the bytes back.
pub broadcast proof fn lemma_word_of_bytes(hi: u8, lo: u8)
    ensures
        hi_byte(#[trigger] word_of(hi, lo)) == hi,
        lo_byte(word_of(hi, lo)) == lo,
{
    assert(((((hi as u16) << 8 | (lo as u16)) as u16) >> 8) as u8 == hi) by (bit_vector);
    assert(((((hi as u16) << 8 | (lo as u16)) as u16) & 0xFF) as u8 == lo) by (bit_vector);
}

impl Register {
    pub fn new(v: u16) -> (r: Register)
        ensures
            r.value == v,
    {
        Register { value: v }
    }

    /// The high byte of the pair.
    pub fn hi(&self) -> (r: u8)
        ensures
            r == hi_byte(self.value),
    {
        let v0 = self.value;
        let t = v0 & 0xFF00;
        assert(t >> 8 == v0 >> 8) by (bit_vector)
            requires
                t == v0 & 0xFF00,
        ;
        (t >> 8) as u8
    }

    /// The low byte of the pair.
    pub fn lo(&self) -> (r: u8)
        ensures
            r == lo_byte(self.value),
    {
        let t = self.value & 0x00FF;
        t as u8
    }

    /// Replaces the high byte, keeping the low byte.
    pub fn write_hi(&mut self, v: u8)
        ensures
            final(self).value == word_of(v, lo_byte(old(self).value)),
            lo_byte(final(self).value) == lo_byte(old(self).value),
            hi_byte(final(self).value) == v,
    {
        let old_value = self.value;
        self.value = ((v as u16) << 8) | (old_value & 0xFF);
        assert(((v as u16) << 8) | (old_value & 0xFF) == ((v as u16) << 8) | (((old_value & 0xFF)
            as u8) as u16)) by (bit_vector);
        proof {
            lemma_word_of_bytes(v, lo_byte(old_value));
        }
    }

    /// Replaces the low byte, keeping the high byte.
    pub fn write_lo(&mut self, v: u8)
        ensures
            final(self).value == word_of(hi_byte(old(self).value), v),
            hi_byte(final(self).value) == hi_byte(old(self).value),
            lo_byte(final(self).value) == v,
    {
        let old_value = self.value;
        self.value = (old_value & 0xFF00) | (v as u16);
        assert((old_value & 0xFF00) | (v as u16) == ((((old_value >> 8) as u8) as u16) << 8) | (v
            as u16)) by (bit_vector);
        proof {
            lemma_word_of_bytes(hi_byte(old_value), v);
        }
    }

    /// Post-increment: adds one, wrapping modulo 2^16.
    pub fn inc(&mut self)
        ensures
            final(self).value == wrap16(old(self).value + 1),
    {
        proof {
            lemma_wrap16(self.value + 1);
        }
        self.value = self.value.wrapping_add(1);
    }

    /// Post-decrement: subtracts one, wrapping modulo 2^16.
    pub fn dec(&mut self)
        ensures
            final(self).value == wrap16(old(self).value - 1),
    {
        proof {
            lemma_wrap16(self.value - 1);
        }
        self.value = self.value.wrapping_sub(1);
    }

    /// 16-bit addition, wrapping modulo 2^16.
    pub fn wrapping_add(self, other: u16) -> (r: Register)
        ensures
            r.value == wrap16(self.value + other),
    {
        proof {
            lemma_wrap16(self.value + other);
        }
        Register { value: self.value.wrapping_add(other) }
    }

    /// 16-bit subtraction, wrapping modulo 2^16.
    pub fn wrapping_sub(self, other: u16) -> (r: Register)
        ensures
            r.value == wrap16(self.value - other),
    {
        proof {
            lemma_wrap16(self.value - other);
        }
        Register { value: self.value.wrapping_sub(other) }
    }
}

} // verus!
