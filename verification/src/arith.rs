//! Wrapping arithmetic on the machine's word sizes, stated over mathematical
//! integers: a 16-bit quantity wraps modulo 2^16, an 8-bit one modulo 2^8.

use vstd::prelude::*;

verus! {

/// A value reduced into the 16-bit range, wrapping modulo 2^16.
pub open spec fn wrap16(x: int) -> u16 {
    (x % 0x10000) as u16
}

/// A value reduced into the 8-bit range, wrapping modulo 2^8.
pub open spec fn wrap8(x: int) -> u8 {
    (x % 0x100) as u8
}

/// How `wrap16` acts on the ranges that one wrapping step can reach.
pub proof fn lemma_wrap16(x: int)
    ensures
        0 <= x < 0x10000 ==> wrap16(x) == x,
        0x10000 <= x < 0x20000 ==> wrap16(x) == x - 0x10000,
        -0x10000 <= x < 0 ==> wrap16(x) == x + 0x10000,
{
    if 0 <= x < 0x10000 {
        vstd::arithmetic::div_mod::lemma_small_mod(x as nat, 0x10000nat);
    } else if 0x10000 <= x < 0x20000 {
        vstd::arithmetic::div_mod::lemma_mod_multiples_vanish(1, x - 0x10000, 0x10000);
        vstd::arithmetic::div_mod::lemma_small_mod((x - 0x10000) as nat, 0x10000nat);
    } else if -0x10000 <= x < 0 {
        vstd::arithmetic::div_mod::lemma_mod_multiples_vanish(1, x, 0x10000);
        vstd::arithmetic::div_mod::lemma_small_mod((x + 0x10000) as nat, 0x10000nat);
    }
}

/// How `wrap8` acts on the ranges that one wrapping step can reach.
pub proof fn lemma_wrap8(x: int)
    ensures
        0 <= x < 0x100 ==> wrap8(x) == x,
        0x100 <= x < 0x200 ==> wrap8(x) == x - 0x100,
        -0x100 <= x < 0 ==> wrap8(x) == x + 0x100,
{
    if 0 <= x < 0x100 {
        vstd::arithmetic::div_mod::lemma_small_mod(x as nat, 0x100nat);
    } else if 0x100 <= x < 0x200 {
        vstd::arithmetic::div_mod::lemma_mod_multiples_vanish(1, x - 0x100, 0x100);
        vstd::arithmetic::div_mod::lemma_small_mod((x - 0x100) as nat, 0x100nat);
    } else if -0x100 <= x < 0 {
        vstd::arithmetic::div_mod::lemma_mod_multiples_vanish(1, x, 0x100);
        vstd::arithmetic::div_mod::lemma_small_mod((x + 0x100) as nat, 0x100nat);
    }
}

} // verus!
