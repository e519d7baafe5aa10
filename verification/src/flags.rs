//! A standalone flag register: four condition bits held in the high nibble of
//! a byte (bit 7 = Z, bit 6 = N, bit 5 = C, bit 4 = H). Each `set_*` call
//! toggles its bit and returns the new value of that bit.

use vstd::prelude::*;

verus! {

pub struct Flags {
    value: u8,
}

/// The bit of `v` at position `b`, as 0 or 1.
pub open spec fn bit_at(v: u8, b: u8) -> u8 {
    (v >> b) & 1
}

/// Toggling one high-nibble bit keeps the low nibble clear and flips exactly
/// that bit.
proof fn lemma_toggle(v: u8, b: u8)
    by (bit_vector)
    requires
        4 <= b <= 7,
        v & 0x0F == 0,
    ensures
        (v ^ (1u8 << b)) & 0x0F == 0,
        ((v ^ (1u8 << b)) >> b) & 1 == 1 - ((v >> b) & 1),
{
}

/// Toggling one bit leaves every other bit unchanged.
proof fn lemma_toggle_other(v: u8, b: u8, c: u8)
    by (bit_vector)
    requires
        b <= 7,
        c <= 7,
        b != c,
    ensures
        ((v ^ (1u8 << b)) >> c) & 1 == (v >> c) & 1,
{
}

/// The mask-and-shift form each getter computes equals the bit of the value.
proof fn lemma_flag_masks(v: u8)
    by (bit_vector)
    ensures
        (v & 0x80) >> 7 == (v >> 7) & 1,
        (v & 0x40) >> 6 == (v >> 6) & 1,
        (v & 0x20) >> 5 == (v >> 5) & 1,
        (v & 0x10) >> 4 == (v >> 4) & 1,
{
}

impl Flags {
    /// The raw flag byte; its low nibble is always zero.
    pub closed spec fn spec_value(&self) -> u8 {
        self.value
    }

    pub open spec fn wf(&self) -> bool {
        self.spec_value() & 0x0F == 0
    }

    pub fn new() -> (r: Flags)
        ensures
            r.wf(),
            r.spec_value() == 0,
    {
        proof {
            assert(0u8 & 0x0F == 0) by (bit_vector);
        }
        Flags { value: 0b00000000 }
    }

    /// Toggles the bit at position `7 - i` (i = 0 is Z, 1 is N, 2 is C, 3 is H).
    fn set(&mut self, i: u8)
        requires
            i <= 3,
            old(self).wf(),
        ensures
            final(self).wf(),
            final(self).spec_value() == old(self).spec_value() ^ (1u8 << (7 - i)),
            bit_at(final(self).spec_value(), (7 - i) as u8) == 1 - bit_at(
                old(self).spec_value(),
                (7 - i) as u8,
            ),
            forall|c: u8|
                c <= 7 && c != 7 - i ==> #[trigger] bit_at(final(self).spec_value(), c) == bit_at(
                    old(self).spec_value(),
                    c,
                ),
    {
        proof {
            lemma_toggle(self.value, (7 - i) as u8);
            assert forall|c: u8| c <= 7 && c != 7 - i implies #[trigger] bit_at(
                self.value ^ (1u8 << (7 - i)),
                c,
            ) == bit_at(self.value, c) by {
                lemma_toggle_other(self.value, (7 - i) as u8, c);
            }
        }
        self.value = self.value ^ (1 << (7 - i));
    }

    /// Toggles the Z bit and returns its new value.
    pub fn set_z(&mut self) -> (r: u8)
        requires
            old(self).wf(),
        ensures
            final(self).wf(),
            bit_at(final(self).spec_value(), 7) == 1 - bit_at(old(self).spec_value(), 7),
            forall|c: u8|
                c <= 7 && c != 7 ==> #[trigger] bit_at(final(self).spec_value(), c) == bit_at(
                    old(self).spec_value(),
                    c,
                ),
            r == bit_at(final(self).spec_value(), 7),
    {
        self.set(0);
        self.z()
    }

    /// Toggles the N bit and returns its new value.
    pub fn set_n(&mut self) -> (r: u8)
        requires
            old(self).wf(),
        ensures
            final(self).wf(),
            bit_at(final(self).spec_value(), 6) == 1 - bit_at(old(self).spec_value(), 6),
            forall|c: u8|
                c <= 7 && c != 6 ==> #[trigger] bit_at(final(self).spec_value(), c) == bit_at(
                    old(self).spec_value(),
                    c,
                ),
            r == bit_at(final(self).spec_value(), 6),
    {
        self.set(1);
        self.n()
    }

    /// Toggles the C bit and returns its new value.
    pub fn set_c(&mut self) -> (r: u8)
        requires
            old(self).wf(),
        ensures
            final(self).wf(),
            bit_at(final(self).spec_value(), 5) == 1 - bit_at(old(self).spec_value(), 5),
            forall|c: u8|
                c <= 7 && c != 5 ==> #[trigger] bit_at(final(self).spec_value(), c) == bit_at(
                    old(self).spec_value(),
                    c,
                ),
            r == bit_at(final(self).spec_value(), 5),
    {
        self.set(2);
        self.c()
    }

    /// Toggles the H bit and returns its new value.
    pub fn set_h(&mut self) -> (r: u8)
        requires
            old(self).wf(),
        ensures
            final(self).wf(),
            bit_at(final(self).spec_value(), 4) == 1 - bit_at(old(self).spec_value(), 4),
            forall|c: u8|
                c <= 7 && c != 4 ==> #[trigger] bit_at(final(self).spec_value(), c) == bit_at(
                    old(self).spec_value(),
                    c,
                ),
            r == bit_at(final(self).spec_value(), 4),
    {
        self.set(3);
        self.h()
    }

    /// The Z bit, as 0 or 1.
    pub fn z(&self) -> (r: u8)
        ensures
            r == bit_at(self.spec_value(), 7),
    {
        proof {
            lemma_flag_masks(self.value);
        }
        (self.value & 0b10000000) >> 7
    }

    /// The N bit, as 0 or 1.
    pub fn n(&self) -> (r: u8)
        ensures
            r == bit_at(self.spec_value(), 6),
    {
        proof {
            lemma_flag_masks(self.value);
        }
        (self.value & 0b01000000) >> 6
    }

    /// The C bit, as 0 or 1.
    pub fn c(&self) -> (r: u8)
        ensures
            r == bit_at(self.spec_value(), 5),
    {
        proof {
            lemma_flag_masks(self.value);
        }
        (self.value & 0b00100000) >> 5
    }

    /// The H bit, as 0 or 1.
    pub fn h(&self) -> (r: u8)
        ensures
            r == bit_at(self.spec_value(), 4),
    {
        proof {
            lemma_flag_masks(self.value);
        }
        (self.value & 0b00010000) >> 4
    }
}

} // verus!
