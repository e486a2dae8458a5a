//! Integer semantics of the arithmetic operations on 32-bit stack values.

use vstd::prelude::*;

verus! {

/// Magnitude of `v`.
pub open spec fn abs(v: int) -> int {
    if v < 0 {
        -v
    } else {
        v
    }
}

/// `b / a` rounded toward zero.
pub open spec fn trunc_div(b: int, a: int) -> int {
    if (b < 0) == (a < 0) {
        abs(b) / abs(a)
    } else {
        -(abs(b) / abs(a))
    }
}

/// Remainder of the division rounded toward zero: it takes the sign of `b`.
pub open spec fn trunc_rem(b: int, a: int) -> int {
    if b < 0 {
        -(abs(b) % abs(a))
    } else {
        abs(b) % abs(a)
    }
}

/// The quotient as a 32-bit value: the one quotient that does not fit,
/// `i32::MIN / -1`, wraps round to `i32::MIN`.
pub open spec fn quotient(b: i32, a: i32) -> i32 {
    if b == i32::MIN && a == -1 {
        i32::MIN
    } else {
        trunc_div(b as int, a as int) as i32
    }
}

/// The remainder as a 32-bit value; `i32::MIN % -1` is 0.
pub open spec fn remainder(b: i32, a: i32) -> i32 {
    if b == i32::MIN && a == -1 {
        0
    } else {
        trunc_rem(b as int, a as int) as i32
    }
}

proof fn lemma_div_bounded(n: int, d: int)
    requires
        n >= 0,
        d >= 1,
    ensures
        0 <= n / d <= n,
        d >= 2 ==> n / d <= n / 2,
{
    assert(0 <= n / d <= n) by (nonlinear_arith)
        requires
            n >= 0,
            d >= 1,
    ;
    assert(d >= 2 ==> n / d <= n / 2) by (nonlinear_arith)
        requires
            n >= 0,
            d >= 1,
    ;
}

/// Truncating division of `b` by `a`, with the one overflowing case wrapped.
pub fn divide(b: i32, a: i32) -> (r: i32)
    requires
        a != 0,
    ensures
        r == quotient(b, a),
{
    proof {
        lemma_div_bounded(abs(b as int), abs(a as int));
    }
    match b.checked_div(a) {
        Some(q) => q,
        None => i32::MIN,
    }
}

/// Remainder of the truncating division of `b` by `a`.
pub fn modulo(b: i32, a: i32) -> (r: i32)
    requires
        a != 0,
    ensures
        r == remainder(b, a),
{
    match b.checked_rem(a) {
        Some(m) => m,
        None => 0,
    }
}

} // verus!
