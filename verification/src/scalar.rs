//! Scalars as bit patterns.
//!
//! Every coordinate, colour channel and matrix entry in this crate is the
//! IEEE-754 single-precision bit pattern of the number it stands for, held
//! in a `u32`: one sign bit, eight exponent bits, twenty-three fraction
//! bits. The crate stores, moves and compares such patterns. It never does
//! arithmetic on the numbers; that is left to the caller.
use vstd::prelude::*;

verus! {

/// A single-precision number, as its bit pattern.
pub type Scalar = u32;

/// The bit pattern of positive zero.
pub const ZERO: Scalar = 0;

/// The bit pattern of one.
pub const ONE: Scalar = 0x3F80_0000;

/// The bit pattern of the single-precision number nearest to pi.
pub const PI: Scalar = 0x4049_0FDB;

/// The bit pattern of positive infinity. Its low 31 bits are the smallest
/// that do not belong to a finite number.
pub const INFINITY: Scalar = 0x7F80_0000;

/// The sign bit taken by itself.
pub const SIGN: Scalar = 0x8000_0000;

/// Whether the sign bit is set.
pub open spec fn is_negative(s: Scalar) -> bool {
    s >= SIGN
}

/// The low 31 bits: exponent and fraction without the sign. Among numbers
/// of one sign, a larger magnitude is a number farther from zero.
pub open spec fn magnitude(s: Scalar) -> int {
    if s >= SIGN {
        s - SIGN
    } else {
        s as int
    }
}

/// Whether the pattern is not a number: exponent all ones, fraction not zero.
pub open spec fn is_nan(s: Scalar) -> bool {
    magnitude(s) > INFINITY
}

/// Whether the pattern is a number other than an infinity.
pub open spec fn is_finite(s: Scalar) -> bool {
    magnitude(s) < INFINITY
}

/// Where a number stands on the number line: an integer that is larger
/// exactly for the larger of two numbers. Both zeros stand at 0.
pub open spec fn rank(s: Scalar) -> int {
    if is_negative(s) {
        -magnitude(s)
    } else {
        magnitude(s)
    }
}

/// Whether `a` and `b` are the same number. Positive and negative zero are
/// the same number; what is not a number equals nothing, not even itself.
pub open spec fn is_same_number(a: Scalar, b: Scalar) -> bool {
    !is_nan(a) && !is_nan(b) && rank(a) == rank(b)
}

/// Whether the number `a` is less than the number `b`. Nothing is less than
/// what is not a number, and what is not a number is less than nothing.
pub open spec fn is_less(a: Scalar, b: Scalar) -> bool {
    !is_nan(a) && !is_nan(b) && rank(a) < rank(b)
}

fn low_bits(s: Scalar) -> (m: u32)
    ensures
        m == magnitude(s),
{
    if s >= SIGN {
        s - SIGN
    } else {
        s
    }
}

/// Whether `s` is a number other than an infinity.
pub fn finite(s: Scalar) -> (yes: bool)
    ensures
        yes == is_finite(s),
{
    low_bits(s) < INFINITY
}

/// Whether `a` and `b` are the same number.
pub fn same_number(a: Scalar, b: Scalar) -> (yes: bool)
    ensures
        yes == is_same_number(a, b),
{
    let (ma, mb) = (low_bits(a), low_bits(b));
    if ma > INFINITY || mb > INFINITY {
        false
    } else if ma == 0 && mb == 0 {
        true
    } else {
        a == b
    }
}

/// Whether the number `a` is less than the number `b`.
pub fn less_than(a: Scalar, b: Scalar) -> (yes: bool)
    ensures
        yes == is_less(a, b),
{
    let (ma, mb) = (low_bits(a), low_bits(b));
    if ma > INFINITY || mb > INFINITY {
        false
    } else if a >= SIGN {
        if b >= SIGN {
            mb < ma
        } else {
            ma > 0 || mb > 0
        }
    } else {
        b < SIGN && ma < mb
    }
}

} // verus!
