//! How floating-point numbers compare, where only their bits are at hand: sign, exponent and
//! fraction of a 64-bit number, from the highest bit to the lowest.

use vstd::prelude::*;

verus! {

/// The bit that makes a number negative.
pub const SIGN_BIT: u64 = 0x8000_0000_0000_0000;

/// The bits of infinity. Larger ones, apart from the sign, stand for no number.
pub const INFINITY_BITS: u64 = 0x7FF0_0000_0000_0000;

/// The bits without the sign.
pub open spec fn magnitude(bits: u64) -> int {
    if bits >= SIGN_BIT {
        bits - SIGN_BIT
    } else {
        bits as int
    }
}

/// Whether bits stand for a number.
pub open spec fn is_number(bits: u64) -> bool {
    magnitude(bits) <= INFINITY_BITS
}

/// The place of a number among all numbers. Both zeros share a place.
pub open spec fn place(bits: u64) -> int {
    if bits >= SIGN_BIT {
        -magnitude(bits)
    } else {
        magnitude(bits)
    }
}

/// Whether one number is less than another. Nothing is less or more than what is no number.
pub open spec fn less(a: u64, b: u64) -> bool {
    is_number(a) && is_number(b) && place(a) < place(b)
}

fn number(bits: u64) -> (is: bool)
    ensures
        is == is_number(bits),
{
    if bits >= SIGN_BIT {
        bits - SIGN_BIT <= INFINITY_BITS
    } else {
        bits <= INFINITY_BITS
    }
}

fn place_of(bits: u64) -> (at: i64)
    requires
        is_number(bits),
    ensures
        at == place(bits),
{
    if bits >= SIGN_BIT {
        -((bits - SIGN_BIT) as i64)
    } else {
        bits as i64
    }
}

/// Whether one number is less than another.
pub fn is_less(a: u64, b: u64) -> (is: bool)
    ensures
        is == less(a, b),
{
    number(a) && number(b) && place_of(a) < place_of(b)
}

/// Whether one number is at least another.
pub fn is_at_least(a: u64, b: u64) -> (is: bool)
    ensures
        is == (is_number(a) && is_number(b) && !less(a, b)),
{
    number(a) && number(b) && place_of(a) >= place_of(b)
}

/// No number is less than itself, one of two numbers in different places is less than the
/// other, and being less carries over.
pub proof fn law_less_is_an_order(a: u64, b: u64, c: u64)
    ensures
        !less(a, a),
        is_number(a) && is_number(b) && place(a) != place(b) ==> less(a, b) || less(b, a),
        less(a, b) && less(b, c) ==> less(a, c),
{
}

/// Zero is less than every positive number and not less than itself with the other sign; numbers
/// below zero are ordered the other way round; what is no number is less than nothing.
pub proof fn law_order_by_sign(a: u64, b: u64)
    ensures
        a < b <= 0x7FF0_0000_0000_0000 ==> less(a, b),
        0x8000_0000_0000_0000 <= a < b <= 0xFFF0_0000_0000_0000 ==> less(b, a),
        0x8000_0000_0000_0000 < a <= 0xFFF0_0000_0000_0000 && b <= 0x7FF0_0000_0000_0000 ==> less(a, b),
        !less(0, 0x8000_0000_0000_0000) && !less(0x8000_0000_0000_0000, 0),
        0x7FF0_0000_0000_0000 < a < 0x8000_0000_0000_0000 ==> !less(a, b) && !less(b, a),
        0xFFF0_0000_0000_0000 < a ==> !less(a, b) && !less(b, a),
{
}

} // verus!
