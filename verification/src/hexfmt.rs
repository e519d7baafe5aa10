//! Verified number-to-text helpers: uppercase hexadecimal (padded and
//! unpadded) and unpadded decimal, used by the instruction pretty-printer
//! and the disassembler.

use vstd::prelude::*;

verus! {

/// The text of one hexadecimal digit (uppercase).
pub open spec fn spec_hex_digit(d: int) -> Seq<char> {
    if d == 0 {
        "0"@
    } else if d == 1 {
        "1"@
    } else if d == 2 {
        "2"@
    } else if d == 3 {
        "3"@
    } else if d == 4 {
        "4"@
    } else if d == 5 {
        "5"@
    } else if d == 6 {
        "6"@
    } else if d == 7 {
        "7"@
    } else if d == 8 {
        "8"@
    } else if d == 9 {
        "9"@
    } else if d == 10 {
        "A"@
    } else if d == 11 {
        "B"@
    } else if d == 12 {
        "C"@
    } else if d == 13 {
        "D"@
    } else {
        if d == 14 {
            "E"@
        } else {
            "F"@
        }
    }
}

/// One hexadecimal digit (uppercase).
pub fn hex_digit(d: u8) -> (r: &'static str)
    requires
        d < 16,
    ensures
        r@ == spec_hex_digit(d as int),
{
    if d == 0 {
        "0"
    } else if d == 1 {
        "1"
    } else if d == 2 {
        "2"
    } else if d == 3 {
        "3"
    } else if d == 4 {
        "4"
    } else if d == 5 {
        "5"
    } else if d == 6 {
        "6"
    } else if d == 7 {
        "7"
    } else if d == 8 {
        "8"
    } else if d == 9 {
        "9"
    } else if d == 10 {
        "A"
    } else if d == 11 {
        "B"
    } else if d == 12 {
        "C"
    } else if d == 13 {
        "D"
    } else if d == 14 {
        "E"
    } else {
        "F"
    }
}

/// The hexadecimal text of `v`, uppercase, without leading zeros.
pub open spec fn spec_hex(v: int) -> Seq<char>
    decreases v,
{
    if v < 16 {
        spec_hex_digit(v)
    } else {
        spec_hex(v / 16) + spec_hex_digit(v % 16)
    }
}

/// Formats `v` in uppercase hexadecimal without leading zeros.
pub fn hex_u16(v: u16) -> (r: String)
    ensures
        r@ == spec_hex(v as int),
    decreases v,
{
    if v < 16 {
        String::from_str(hex_digit(v as u8))
    } else {
        let mut s = hex_u16(v / 16);
        s.append(hex_digit((v % 16) as u8));
        s
    }
}

/// The two-digit hexadecimal text of a byte.
pub open spec fn spec_hex2(v: u8) -> Seq<char> {
    spec_hex_digit(v as int / 16) + spec_hex_digit(v as int % 16)
}

/// Formats a byte as exactly two uppercase hexadecimal digits.
pub fn hex2(v: u8) -> (r: String)
    ensures
        r@ == spec_hex2(v),
{
    let mut s = String::from_str(hex_digit(v / 16));
    s.append(hex_digit(v % 16));
    s
}

/// The four-digit hexadecimal text of a 16-bit value.
pub open spec fn spec_hex4(v: u16) -> Seq<char> {
    spec_hex_digit(v as int / 0x1000) + spec_hex_digit((v as int / 0x100) % 16) + spec_hex_digit(
        (v as int / 16) % 16,
    ) + spec_hex_digit(v as int % 16)
}

/// Formats a 16-bit value as exactly four uppercase hexadecimal digits.
pub fn hex4(v: u16) -> (r: String)
    ensures
        r@ == spec_hex4(v),
{
    let mut s = String::from_str(hex_digit((v / 0x1000) as u8));
    s.append(hex_digit(((v / 0x100) % 16) as u8));
    s.append(hex_digit(((v / 16) % 16) as u8));
    s.append(hex_digit((v % 16) as u8));
    s
}

/// The decimal text of `v`, without leading zeros. A decimal digit reads the
/// same as the hexadecimal digit of its value.
pub open spec fn spec_dec(v: int) -> Seq<char>
    decreases v,
{
    if v < 10 {
        spec_hex_digit(v)
    } else {
        spec_dec(v / 10) + spec_hex_digit(v % 10)
    }
}

/// Formats `v` in decimal without leading zeros.
pub fn dec_u8(v: u8) -> (r: String)
    ensures
        r@ == spec_dec(v as int),
    decreases v,
{
    if v < 10 {
        String::from_str(hex_digit(v))
    } else {
        let mut s = dec_u8(v / 10);
        s.append(hex_digit(v % 10));
        s
    }
}

} // verus!
