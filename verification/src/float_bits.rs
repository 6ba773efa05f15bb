//! IEEE-754 single-precision values held as their bit patterns.
//!
//! The library keeps every `f32` of the wire format as the `u32` that `f32::to_bits`
//! gives, and decides on those patterns exactly as the hardware comparisons would.
use vstd::prelude::*;

verus! {

/// Bit pattern of `0.0_f32`.
pub const F32_ZERO: u32 = 0x0000_0000u32;

/// Bit pattern of `0.5_f32`.
pub const F32_HALF: u32 = 0x3f00_0000u32;

/// Bit pattern of `1.0_f32`.
pub const F32_ONE: u32 = 0x3f80_0000u32;

/// Bit pattern of `60.0_f32`.
pub const F32_SIXTY: u32 = 0x4270_0000u32;

/// Bit pattern of `90.0_f32`.
pub const F32_NINETY: u32 = 0x42b4_0000u32;

/// The pattern without its sign bit.
pub open spec fn f32_magnitude(bits: u32) -> int {
    bits as int % 0x8000_0000
}

/// The sign bit is set.
pub open spec fn f32_sign(bits: u32) -> bool {
    bits >= 0x8000_0000
}

/// The pattern encodes a NaN: all exponent bits set and a nonzero fraction.
pub open spec fn f32_is_nan(bits: u32) -> bool {
    f32_magnitude(bits) > 0x7f80_0000
}

/// The pattern encodes `+0.0` or `-0.0`.
pub open spec fn f32_is_zero(bits: u32) -> bool {
    f32_magnitude(bits) == 0
}

/// `f32::from_bits(a) < f32::from_bits(b)`.
pub open spec fn f32_lt(a: u32, b: u32) -> bool {
    &&& !f32_is_nan(a)
    &&& !f32_is_nan(b)
    &&& !(f32_is_zero(a) && f32_is_zero(b))
    &&& {
        ||| f32_sign(a) && !f32_sign(b)
        ||| !f32_sign(a) && !f32_sign(b) && f32_magnitude(a) < f32_magnitude(b)
        ||| f32_sign(a) && f32_sign(b) && f32_magnitude(b) < f32_magnitude(a)
    }
}

/// `f32::from_bits(a) == f32::from_bits(b)`: NaN equals nothing, the two zeros are equal.
pub open spec fn f32_eq(a: u32, b: u32) -> bool {
    &&& !f32_is_nan(a)
    &&& !f32_is_nan(b)
    &&& (a == b || (f32_is_zero(a) && f32_is_zero(b)))
}

fn magnitude(bits: u32) -> (m: u32)
    ensures
        m == f32_magnitude(bits),
{
    bits % 0x8000_0000
}

/// Floating-point `<` on two bit patterns.
pub fn f32_bits_lt(a: u32, b: u32) -> (res: bool)
    ensures
        res == f32_lt(a, b),
{
    let ma = magnitude(a);
    let mb = magnitude(b);
    if ma > 0x7f80_0000 || mb > 0x7f80_0000 {
        return false;
    }
    if ma == 0 && mb == 0 {
        return false;
    }
    let sa = a >= 0x8000_0000;
    let sb = b >= 0x8000_0000;
    if sa && !sb {
        true
    } else if !sa && !sb {
        ma < mb
    } else if sa && sb {
        mb < ma
    } else {
        false
    }
}

/// Floating-point `==` on two bit patterns.
pub fn f32_bits_eq(a: u32, b: u32) -> (res: bool)
    ensures
        res == f32_eq(a, b),
{
    let ma = magnitude(a);
    let mb = magnitude(b);
    if ma > 0x7f80_0000 || mb > 0x7f80_0000 {
        false
    } else {
        a == b || (ma == 0 && mb == 0)
    }
}

} // verus!

verus! {

/// `f32_lt` is the IEEE-754 order: strict, transitive, total on numbers, with the two
/// zeros equal and NaN unordered and unequal to everything; among nonnegative numbers it
/// follows the bit patterns, among negative ones it reverses them.
pub proof fn f32_comparison_laws(a: u32, b: u32, c: u32)
    ensures
        !f32_lt(a, a),
        f32_lt(a, b) ==> !f32_lt(b, a),
        f32_lt(a, b) && f32_lt(b, c) ==> f32_lt(a, c),
        !f32_is_nan(a) && !f32_is_nan(b) ==> (f32_lt(a, b) || f32_lt(b, a) || f32_eq(a, b)),
        f32_eq(a, b) ==> !f32_lt(a, b) && !f32_lt(b, a),
        f32_eq(a, b) ==> f32_eq(b, a),
        f32_is_nan(a) ==> !f32_lt(a, b) && !f32_lt(b, a) && !f32_eq(a, b),
        f32_eq(0x0000_0000, 0x8000_0000),
        !f32_is_nan(a) ==> f32_eq(a, a),
        (a < 0x7f80_0001 && b < 0x7f80_0001) ==> (f32_lt(a, b) <==> a < b),
        (0x8000_0000 < a <= 0xff80_0000 && 0x8000_0000 < b <= 0xff80_0000) ==> (f32_lt(a, b) <==> b < a),
        (0x8000_0000 < a <= 0xff80_0000 && b < 0x7f80_0001) ==> f32_lt(a, b),
{
}

} // verus!
