//! Single-precision values carried as their IEEE-754 bit patterns, and the
//! comparisons the engine needs on them.
use vstd::prelude::*;

verus! {

/// Bit pattern of positive zero.
pub const ZERO: u32 = 0;

/// Bit pattern of the machine epsilon of single precision (2^-23).
pub const EPSILON: u32 = 0x3400_0000;

/// Bit pattern of one.
pub const ONE: u32 = 0x3F80_0000;

/// Bit pattern of the sign bit.
pub const SIGN_BIT: u32 = 0x8000_0000;

/// Bit pattern of positive infinity; larger magnitudes are NaN.
pub const INFINITY: u32 = 0x7F80_0000;

/// The pattern with its sign bit cleared.
pub open spec fn magnitude_of(b: u32) -> u32 {
    if b >= SIGN_BIT {
        (b - SIGN_BIT) as u32
    } else {
        b
    }
}

/// The pattern encodes NaN.
pub open spec fn is_nan_spec(b: u32) -> bool {
    magnitude_of(b) > INFINITY
}

/// Position of a non-NaN value on the number line: strictly monotone in the
/// value, with `+0` and `-0` both at zero.
pub open spec fn ordinal(b: u32) -> int {
    if b >= SIGN_BIT {
        -(magnitude_of(b) as int)
    } else {
        b as int
    }
}

/// `a < b` as IEEE-754 compares them (false when either is NaN).
pub open spec fn lt(a: u32, b: u32) -> bool {
    !is_nan_spec(a) && !is_nan_spec(b) && ordinal(a) < ordinal(b)
}

/// `a <= b` as IEEE-754 compares them (false when either is NaN).
pub open spec fn le(a: u32, b: u32) -> bool {
    !is_nan_spec(a) && !is_nan_spec(b) && ordinal(a) <= ordinal(b)
}

/// `a > 0`.
pub open spec fn positive(a: u32) -> bool {
    lt(ZERO, a)
}

/// Clears the sign bit: the absolute value.
pub fn magnitude(b: u32) -> (r: u32)
    ensures
        r == magnitude_of(b),
{
    if b >= SIGN_BIT {
        b - SIGN_BIT
    } else {
        b
    }
}

/// Whether the pattern encodes NaN.
pub fn is_nan(b: u32) -> (r: bool)
    ensures
        r == is_nan_spec(b),
{
    magnitude(b) > INFINITY
}

/// `a < b` on the encoded values.
pub fn less(a: u32, b: u32) -> (r: bool)
    ensures
        r == lt(a, b),
{
    if is_nan(a) || is_nan(b) {
        return false;
    }
    let ma = magnitude(a);
    let mb = magnitude(b);
    if a >= SIGN_BIT {
        if b >= SIGN_BIT {
            mb < ma
        } else {
            ma != 0 || mb != 0
        }
    } else if b >= SIGN_BIT {
        false
    } else {
        a < b
    }
}

/// `a <= b` on the encoded values.
pub fn less_eq(a: u32, b: u32) -> (r: bool)
    ensures
        r == le(a, b),
{
    if is_nan(a) || is_nan(b) {
        return false;
    }
    !less(b, a)
}

/// `a > 0` on the encoded value.
pub fn is_positive(a: u32) -> (r: bool)
    ensures
        r == positive(a),
{
    less(ZERO, a)
}

} // verus!
