use vstd::prelude::*;

verus! {

/// `base` multiplied by itself `exponent` times; an exponent of zero or less
/// gives the empty product 1.
pub open spec fn power_of(base: int, exponent: int) -> int
    decreases exponent,
{
    if exponent <= 0 {
        1
    } else {
        power_of(base, exponent - 1) * base
    }
}

spec fn abs(x: int) -> int {
    if x < 0 {
        -x
    } else {
        x
    }
}

proof fn lemma_abs_power(base: int, exponent: int)
    ensures
        abs(power_of(base, exponent)) == power_of(abs(base), exponent),
        power_of(abs(base), exponent) >= 0,
    decreases exponent,
{
    if exponent > 0 {
        lemma_abs_power(base, exponent - 1);
        let p = power_of(base, exponent - 1);
        assert(abs(p * base) == abs(p) * abs(base)) by (nonlinear_arith);
        assert(abs(p) * abs(base) >= 0) by (nonlinear_arith);
    }
}

proof fn lemma_power_positive(a: int, k: int)
    requires
        a >= 1,
    ensures
        power_of(a, k) >= 1,
    decreases k,
{
    if k > 0 {
        lemma_power_positive(a, k - 1);
        let p = power_of(a, k - 1);
        assert(p * a >= 1) by (nonlinear_arith)
            requires
                a >= 1,
                p >= 1,
        ;
    }
}

/// For a base of at least two, the powers grow strictly with the exponent.
proof fn lemma_power_grows(a: int, k: int, e: int)
    requires
        a >= 2,
        0 <= k < e,
    ensures
        1 <= power_of(a, k) < power_of(a, e),
    decreases e,
{
    lemma_power_positive(a, k);
    lemma_power_positive(a, e - 1);
    if e > k + 1 {
        lemma_power_grows(a, k, e - 1);
    }
    let p = power_of(a, e - 1);
    assert(p * a > p) by (nonlinear_arith)
        requires
            a >= 2,
            p >= 1,
    ;
}

/// Every power of `base` up to `exponent` lies within the magnitude of the last.
proof fn lemma_partial_power_fits(base: int, k: int, e: int)
    requires
        0 <= k <= e,
        i32::MIN <= power_of(base, e) <= i32::MAX,
    ensures
        i32::MIN <= power_of(base, k) <= i32::MAX,
    decreases k,
{
    lemma_abs_power(base, k);
    lemma_abs_power(base, e);
    if k < e {
        if abs(base) >= 2 {
            lemma_power_grows(abs(base), k, e);
        } else if abs(base) == 1 {
            lemma_power_of_one(k);
        } else if k > 0 {
            assert(power_of(base, k) == power_of(base, k - 1) * 0);
        }
    }
}

proof fn lemma_power_of_one(k: int)
    ensures
        power_of(1, k) == 1,
    decreases k,
{
    if k > 0 {
        lemma_power_of_one(k - 1);
    }
}

/// `base` raised to `exponent` by repeated multiplication; an exponent of zero
/// or less gives 1.
pub fn calculate_power(base: i32, exponent: i32) -> (r: i32)
    requires
        i32::MIN <= power_of(base as int, exponent as int) <= i32::MAX,
    ensures
        r == power_of(base as int, exponent as int),
{
    let mut result: i32 = 1;
    let mut i: i32 = 0;
    while i < exponent
        invariant
            0 <= i,
            exponent <= 0 ==> i == 0,
            exponent > 0 ==> i <= exponent,
            result == power_of(base as int, i as int),
            i32::MIN <= power_of(base as int, exponent as int) <= i32::MAX,
        decreases exponent - i,
    {
        proof {
            lemma_partial_power_fits(base as int, i + 1, exponent as int);
        }
        result = result * base;
        i = i + 1;
    }
    result
}

} // verus!
