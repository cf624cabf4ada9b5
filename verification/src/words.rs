//! The sixteen-bit words and single bits packed into message parameters.

use vstd::prelude::*;

verus! {

/// The low sixteen bits of `v`, as a number from 0 to 65535.
pub open spec fn low_word(v: int) -> int {
    v % 0x1_0000
}

/// Bits 16 to 31 of `v`, as a number from 0 to 65535.
pub open spec fn high_word(v: int) -> int {
    (v / 0x1_0000) % 0x1_0000
}

/// A sixteen-bit word read as a signed number in two's complement.
pub open spec fn signed_word(w: int) -> int {
    if w < 0x8000 {
        w
    } else {
        w - 0x1_0000
    }
}

/// Whether the bit of weight `weight`, a power of two, is set in `v`.
pub open spec fn bit_set(v: int, weight: int) -> bool {
    (v / weight) % 2 == 1
}

/// A word between 0 and 65535, reinterpreted as signed.
fn to_signed(w: u32) -> (r: i16)
    requires
        w < 0x1_0000,
    ensures
        r == signed_word(w as int),
{
    if w < 0x8000 {
        w as i16
    } else {
        (w as i32 - 0x1_0000) as i16
    }
}

/// The low word of a signed parameter, read as a signed number.
pub fn signed_low_word(lparam: isize) -> (r: i16)
    ensures
        r == signed_word(low_word(lparam as int)),
{
    let w: isize = lparam & 0xFFFF;
    assert(0 <= w < 0x1_0000 && w == lparam % 0x1_0000) by (bit_vector)
        requires
            w == lparam & 0xFFFF,
    ;
    to_signed(w as u32)
}

/// The high word of a signed parameter, read as a signed number.
pub fn signed_high_word(lparam: isize) -> (r: i16)
    ensures
        r == signed_word(high_word(lparam as int)),
{
    let w: isize = (lparam >> 16) & 0xFFFF;
    assert(0 <= w < 0x1_0000 && w == (lparam / 0x1_0000) % 0x1_0000) by (bit_vector)
        requires
            w == (lparam >> 16) & 0xFFFF,
    ;
    to_signed(w as u32)
}

/// The high word of an unsigned parameter, read as a signed number.
pub fn signed_high_word_unsigned(wparam: usize) -> (r: i16)
    ensures
        r == signed_word(high_word(wparam as int)),
{
    let w: usize = (wparam >> 16) & 0xFFFF;
    assert(w < 0x1_0000 && w == (wparam / 0x1_0000) % 0x1_0000) by (bit_vector)
        requires
            w == (wparam >> 16) & 0xFFFF,
    ;
    to_signed(w as u32)
}

/// Whether bit 14 of a signed parameter is set.
pub fn has_bit_14(lparam: isize) -> (r: bool)
    ensures
        r == bit_set(lparam as int, 0x4000),
{
    let masked: isize = lparam & 0x4000;
    assert((masked > 0) == ((lparam / 0x4000) % 2 == 1)) by (bit_vector)
        requires
            masked == lparam & 0x4000,
    ;
    masked > 0
}

/// The low thirty-two bits of an unsigned parameter.
pub fn low_dword(wparam: usize) -> (r: u32)
    ensures
        r == wparam as int % 0x1_0000_0000,
{
    (wparam as u64 % 0x1_0000_0000) as u32
}

} // verus!
