//! Single-precision numbers by their bit patterns: a sign bit, then the magnitude. The
//! patterns are carried as they are; only their order is ever asked for.
use vstd::prelude::*;

verus! {

/// The bit that holds the sign.
pub const SIGN_BIT: u32 = 0x8000_0000;

/// The magnitude of infinity. Every larger magnitude is not a number.
pub const INFINITY_BITS: u32 = 0x7f80_0000;

/// The pattern without its sign bit.
pub open spec fn magnitude(bits: u32) -> int {
    if bits >= SIGN_BIT {
        bits - SIGN_BIT
    } else {
        bits as int
    }
}

/// Whether the pattern is not a number.
pub open spec fn is_nan(bits: u32) -> bool {
    magnitude(bits) > INFINITY_BITS
}

/// Where the pattern's number stands among all numbers: the magnitude, negated under a
/// set sign bit. Both zeros stand at zero.
pub open spec fn order_key(bits: u32) -> int {
    if bits >= SIGN_BIT {
        -magnitude(bits)
    } else {
        magnitude(bits)
    }
}

/// Whether the number of `a` is less than the number of `b`. Nothing is less than what
/// is not a number, and what is not a number is less than nothing.
pub open spec fn less_than(a: u32, b: u32) -> bool {
    !is_nan(a) && !is_nan(b) && order_key(a) < order_key(b)
}

/// Tells whether a pattern is not a number.
pub fn bits_is_nan(bits: u32) -> (r: bool)
    ensures
        r == is_nan(bits),
{
    let mag: u32 = if bits >= SIGN_BIT {
        bits - SIGN_BIT
    } else {
        bits
    };
    mag > INFINITY_BITS
}

/// Compares two patterns as the numbers they stand for.
pub fn bits_less_than(a: u32, b: u32) -> (r: bool)
    ensures
        r == less_than(a, b),
{
    if bits_is_nan(a) || bits_is_nan(b) {
        return false;
    }
    if a >= SIGN_BIT {
        let mag_a: u32 = a - SIGN_BIT;
        if b >= SIGN_BIT {
            mag_a > b - SIGN_BIT
        } else {
            mag_a != 0 || b != 0
        }
    } else {
        b < SIGN_BIT && a < b
    }
}

/// Nothing is less than itself.
pub proof fn lemma_less_than_irreflexive(a: u32)
    ensures
        !less_than(a, a),
{
}

/// Less-than chains.
pub proof fn lemma_less_than_transitive(a: u32, b: u32, c: u32)
    requires
        less_than(a, b),
        less_than(b, c),
    ensures
        less_than(a, c),
{
}

} // verus!
