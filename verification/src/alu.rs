//! The 8-bit arithmetic of the register instructions, flag included.

use vstd::prelude::*;

verus! {

/// `a + b` modulo 256, and 1 if the sum did not fit in eight bits, else 0.
pub fn add_with_carry(a: u8, b: u8) -> (r: (u8, u8))
    ensures
        r.0 == (a + b) % 256,
        r.1 == if a + b > 255 { 1int } else { 0int },
{
    let sum: u8 = a.wrapping_add(b);
    let carry: u8 = if sum < a { 1 } else { 0 };
    (sum, carry)
}

/// `a - b` modulo 256, and 0 if the subtraction borrowed, else 1.
pub fn sub_with_borrow(a: u8, b: u8) -> (r: (u8, u8))
    ensures
        r.0 == (a - b) % 256,
        r.1 == if a - b < 0 { 0int } else { 1int },
{
    let difference: u8 = a.wrapping_sub(b);
    let flag: u8 = if a < b { 0 } else { 1 };
    (difference, flag)
}

/// `a` shifted right by one bit, and the bit that fell out.
pub fn shift_right(a: u8) -> (r: (u8, u8))
    ensures
        r.0 == a / 2,
        r.1 == a % 2,
{
    assert(a >> 1 == a / 2) by (bit_vector);
    assert(a & 1 == a % 2) by (bit_vector);
    (a >> 1, a & 1)
}

/// `a` shifted left by one bit, modulo 256, and the bit that fell out.
pub fn shift_left(a: u8) -> (r: (u8, u8))
    ensures
        r.0 == (a * 2) % 256,
        r.1 == a / 128,
{
    assert(a << 1 == (a * 2) % 256) by (bit_vector);
    assert((a >> 7) & 1 == a / 128) by (bit_vector);
    (a << 1, (a >> 7) & 1)
}

/// The hundreds, tens and ones of `a` in decimal.
pub fn decimal_digits(a: u8) -> (r: (u8, u8, u8))
    ensures
        r.0 == a / 100,
        r.1 == (a / 10) % 10,
        r.2 == a % 10,
        a == 100 * r.0 + 10 * r.1 + r.2,
{
    (a / 100, (a / 10) % 10, a % 10)
}

} // verus!
