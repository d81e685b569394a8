//! Numbers are doubles, held by their 64 bits. The library orders, compares
//! and negates them; arithmetic and the decimal form are the host's.

use vstd::prelude::*;

verus! {

/// The bit of the sign.
pub const SIGN: u64 = 0x8000_0000_0000_0000;

/// The bits of positive infinity: every magnitude above it is no number.
pub const INFINITY: u64 = 0x7ff0_0000_0000_0000;

/// The four operations that the host computes.
#[derive(Clone, Copy, Debug, PartialEq, Eq, Structural)]
pub enum Operation {
    Add,
    Subtract,
    Multiply,
    Divide,
}

/// The bits without the sign.
pub open spec fn magnitude(bits: u64) -> u64 {
    if bits >= SIGN {
        (bits - SIGN) as u64
    } else {
        bits
    }
}

/// Whether the bits stand for no number.
pub open spec fn is_nan(bits: u64) -> bool {
    magnitude(bits) > INFINITY
}

/// An integer that orders the numbers as their values do; both zeros have
/// the same.
pub open spec fn order_key(bits: u64) -> int {
    if bits >= SIGN {
        -(magnitude(bits) as int)
    } else {
        magnitude(bits) as int
    }
}

/// `a == b` on doubles: false where either is no number.
pub open spec fn number_equal(a: u64, b: u64) -> bool {
    !is_nan(a) && !is_nan(b) && order_key(a) == order_key(b)
}

/// `a < b` on doubles: false where either is no number.
pub open spec fn number_less(a: u64, b: u64) -> bool {
    !is_nan(a) && !is_nan(b) && order_key(a) < order_key(b)
}

/// `-a` on doubles: the other sign.
pub open spec fn negated(bits: u64) -> u64 {
    if bits >= SIGN {
        (bits - SIGN) as u64
    } else {
        (bits + SIGN) as u64
    }
}

/// The bits without the sign.
fn size(bits: u64) -> (r: u64)
    ensures
        r == magnitude(bits),
{
    if bits >= SIGN {
        bits - SIGN
    } else {
        bits
    }
}

/// `-a`.
pub fn negate(bits: u64) -> (r: u64)
    ensures
        r == negated(bits),
{
    if bits >= SIGN {
        bits - SIGN
    } else {
        bits + SIGN
    }
}

/// `a == b`.
pub fn equal(a: u64, b: u64) -> (r: bool)
    ensures
        r == number_equal(a, b),
{
    let x = size(a);
    let y = size(b);
    if x > INFINITY || y > INFINITY {
        false
    } else if x == 0 && y == 0 {
        true
    } else {
        a == b
    }
}

/// `a < b`.
pub fn less(a: u64, b: u64) -> (r: bool)
    ensures
        r == number_less(a, b),
{
    let x = size(a);
    let y = size(b);
    if x > INFINITY || y > INFINITY {
        false
    } else if a >= SIGN {
        if b >= SIGN {
            x > y
        } else {
            x > 0 || y > 0
        }
    } else {
        b < SIGN && x < y
    }
}

} // verus!
