use vstd::prelude::*;

verus! {

/// Absolute value of an integer.
pub open spec fn abs_val(a: int) -> int {
    if a >= 0 {
        a
    } else {
        -a
    }
}

/// Integer division rounded toward zero, as a cast from an exact real
/// quotient truncates.
pub open spec fn div_tz(a: int, b: int) -> int {
    if a >= 0 {
        a / b
    } else {
        -((-a) / b)
    }
}

/// Truncating division by a positive divisor is monotone.
pub proof fn lemma_div_tz_monotone(a: int, b: int, d: int)
    requires
        a <= b,
        d > 0,
    ensures
        div_tz(a, d) <= div_tz(b, d),
{
    if a >= 0 {
        assert(a / d <= b / d) by (nonlinear_arith)
            requires
                0 <= a <= b,
                d > 0,
        ;
    } else if b < 0 {
        assert((-b) / d <= (-a) / d) by (nonlinear_arith)
            requires
                a <= b < 0,
                d > 0,
        ;
    } else {
        assert(0 <= (-a) / d && 0 <= b / d) by (nonlinear_arith)
            requires
                a < 0 <= b,
                d > 0,
        ;
    }
}

/// Truncating division never grows the magnitude.
pub proof fn lemma_div_tz_bounds(a: int, d: int)
    requires
        d > 0,
    ensures
        a >= 0 ==> 0 <= div_tz(a, d) <= a,
        a < 0 ==> a <= div_tz(a, d) <= 0,
{
    if a >= 0 {
        assert(0 <= a / d <= a) by (nonlinear_arith)
            requires
                a >= 0,
                d > 0,
        ;
    } else {
        assert(0 <= (-a) / d <= -a) by (nonlinear_arith)
            requires
                a < 0,
                d > 0,
        ;
    }
}

/// Truncating division inverts an exact multiple.
pub proof fn lemma_div_tz_exact(a: int, d: int)
    requires
        d > 0,
        a % d == 0,
    ensures
        div_tz(a, d) * d == a,
{
    vstd::arithmetic::div_mod::lemma_fundamental_div_mod(a, d);
    let q = a / d;
    assert(a == d * q);
    if a < 0 {
        assert(-a == d * (-q)) by (nonlinear_arith)
            requires
                a == d * q,
        ;
        vstd::arithmetic::div_mod::lemma_div_multiples_vanish(-q, d);
        assert((-a) / d == -q);
        assert(div_tz(a, d) == q);
    }
    assert(q * d == a) by (nonlinear_arith)
        requires
            a == d * q,
    ;
    assert(div_tz(a, d) * d == a);
}

/// Rounds the quotient `a / b` toward zero.
pub fn div_trunc(a: i64, b: i64) -> (r: i64)
    requires
        b > 0,
        a > i64::MIN,
    ensures
        r == div_tz(a as int, b as int),
{
    if a >= 0 {
        a / b
    } else {
        -((-a) / b)
    }
}

} // verus!
