//! Integer arithmetic with the edges spelled out.
use vstd::prelude::*;

verus! {

/// The quotient of `a` and `b`, rounded towards zero.
pub open spec fn truncated_quotient(a: int, b: int) -> int {
    if a >= 0 && b > 0 {
        a / b
    } else if a >= 0 {
        -(a / (-b))
    } else if b > 0 {
        -((-a) / b)
    } else {
        (-a) / (-b)
    }
}

/// The `i64` closest to `x`.
pub open spec fn clamped(x: int) -> int {
    if x > i64::MAX {
        i64::MAX as int
    } else if x < i64::MIN {
        i64::MIN as int
    } else {
        x
    }
}

/// The number that the low 64 bits of `x` stand for in two's complement.
pub open spec fn wrapped_to_i64(x: int) -> int {
    let low = x % 0x1_0000_0000_0000_0000;
    if low >= 0x8000_0000_0000_0000 {
        low - 0x1_0000_0000_0000_0000
    } else {
        low
    }
}

/// The smaller of the two.
pub open spec fn smaller(a: int, b: int) -> int {
    if a <= b {
        a
    } else {
        b
    }
}

/// The larger of the two.
pub open spec fn larger(a: int, b: int) -> int {
    if a >= b {
        a
    } else {
        b
    }
}

/// A divisor's sign comes out of a quotient.
pub proof fn lemma_negative_divisor(a: int, b: int)
    requires
        b < 0,
    ensures
        a / b == -(a / (-b)),
{
    let c = -b;
    let q = a / c;
    let r = a % c;
    assert(a == c * q + r && 0 <= r < c) by (nonlinear_arith)
        requires
            c > 0,
            q == a / c,
            r == a % c,
    ;
    assert(a / b == -q) by (nonlinear_arith)
        requires
            a == c * q + r,
            0 <= r < c,
            b == -c,
    ;
}

/// The low 64 bits of `x`, read in two's complement.
pub fn wrap_to_i64(x: i128) -> (low: i64)
    ensures
        low == wrapped_to_i64(x as int),
{
    let low: i64 = #[verifier::truncate]
    (x as i64);
    assert(low as int == if (x as u64) >= 0x8000_0000_0000_0000u64 {
        (x as u64) - 0x1_0000_0000_0000_0000
    } else {
        (x as u64) as int
    }) by (bit_vector)
        requires
            low == x as i64,
    ;
    assert(x as u64 == x % 0x1_0000_0000_0000_0000i128) by (bit_vector);
    low
}

/// `a + b`, held at the ends of the `i64` range.
pub fn saturating_sum(a: i64, b: i64) -> (sum: i64)
    ensures
        sum == clamped(a + b),
{
    let exact: i128 = a as i128 + b as i128;
    if exact > i64::MAX as i128 {
        i64::MAX
    } else if exact < i64::MIN as i128 {
        i64::MIN
    } else {
        exact as i64
    }
}

/// `a - b`, held at the ends of the `i64` range.
pub fn saturating_difference(a: i64, b: i64) -> (difference: i64)
    ensures
        difference == clamped(a - b),
{
    let exact: i128 = a as i128 - b as i128;
    if exact > i64::MAX as i128 {
        i64::MAX
    } else if exact < i64::MIN as i128 {
        i64::MIN
    } else {
        exact as i64
    }
}

/// The smaller of two numbers is one of them, and neither is below it; the
/// larger is one of them, and neither is above it.
pub proof fn the_smaller_and_the_larger(a: int, b: int)
    ensures
        smaller(a, b) <= a && smaller(a, b) <= b,
        smaller(a, b) == a || smaller(a, b) == b,
        larger(a, b) >= a && larger(a, b) >= b,
        larger(a, b) == a || larger(a, b) == b,
{
}

/// A quotient that is rounded towards zero falls short of the exact one by less
/// than one, and never goes past it.
pub proof fn quotients_are_rounded_towards_zero(a: int, b: int)
    requires
        b != 0,
    ensures
        ({
            let rest = a - truncated_quotient(a, b) * b;
            &&& a >= 0 ==> 0 <= rest
            &&& a <= 0 ==> rest <= 0
            &&& -b < rest < b || b < rest < -b
        }),
{
    let dividend = if a >= 0 {
        a
    } else {
        -a
    };
    let divisor = if b > 0 {
        b
    } else {
        -b
    };
    let q = dividend / divisor;
    let r = dividend % divisor;
    assert(dividend == divisor * q + r && 0 <= r < divisor) by (nonlinear_arith)
        requires
            divisor > 0,
            q == dividend / divisor,
            r == dividend % divisor,
    ;
    assert((-q) * (-b) == q * b) by (nonlinear_arith);
    assert((-q) * b == -(q * b)) by (nonlinear_arith);
    assert(q * (-b) == -(q * b)) by (nonlinear_arith);
    assert(divisor * q == q * divisor) by (nonlinear_arith);
}

/// A number that is wrapped into the `i64` range keeps its low 64 bits, and one
/// within the range is kept as it is.
pub proof fn wrapping_keeps_the_low_bits(x: i128, low: i64)
    requires
        call_ensures(wrap_to_i64, (x,), low),
    ensures
        (x - low) % 0x1_0000_0000_0000_0000 == 0,
        i64::MIN <= x <= i64::MAX ==> low == x,
{
}

/// A sum or difference within the `i64` range is exact; one beyond an end is
/// held at that end.
pub proof fn saturation_holds_at_the_ends(a: i64, b: i64, sum: i64, difference: i64)
    requires
        call_ensures(saturating_sum, (a, b), sum),
        call_ensures(saturating_difference, (a, b), difference),
    ensures
        i64::MIN <= a + b <= i64::MAX ==> sum == a + b,
        a + b > i64::MAX ==> sum == i64::MAX,
        a + b < i64::MIN ==> sum == i64::MIN,
        i64::MIN <= a - b <= i64::MAX ==> difference == a - b,
        a - b > i64::MAX ==> difference == i64::MAX,
        a - b < i64::MIN ==> difference == i64::MIN,
{
}

} // verus!
