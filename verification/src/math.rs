//! Powers of ten, as the contracts' decimal scaling uses them.
use vstd::prelude::*;

verus! {

/// 10 raised to `e`.
pub open spec fn ten_pow(e: nat) -> int
    decreases e,
{
    if e == 0 {
        1
    } else {
        10 * ten_pow((e - 1) as nat)
    }
}

/// Powers of ten are positive and grow with the exponent.
pub proof fn lemma_ten_pow_mono(a: nat, b: nat)
    requires
        a <= b,
    ensures
        1 <= ten_pow(a) <= ten_pow(b),
    decreases b,
{
    if b > a {
        lemma_ten_pow_mono(a, (b - 1) as nat);
    } else if a > 0 {
        lemma_ten_pow_mono((a - 1) as nat, (a - 1) as nat);
    }
}

/// The powers of ten up to the 38th fit in an `i128`.
pub proof fn lemma_ten_pow_bounds(e: nat)
    ensures
        ten_pow(e) >= 1,
        e <= 38 ==> ten_pow(e) <= 100_000_000_000_000_000_000_000_000_000_000_000_000,
{
    lemma_ten_pow_mono(0, e);
    if e <= 38 {
        lemma_ten_pow_mono(e, 38);
        reveal_with_fuel(ten_pow, 39);
    }
}

/// Powers of ten multiply by adding exponents.
pub proof fn lemma_ten_pow_add(a: nat, b: nat)
    ensures
        ten_pow(a + b) == ten_pow(a) * ten_pow(b),
    decreases b,
{
    if b > 0 {
        lemma_ten_pow_add(a, (b - 1) as nat);
        assert(ten_pow(a + b) == 10 * ten_pow((a + b - 1) as nat));
        assert(10 * (ten_pow(a) * ten_pow((b - 1) as nat)) == ten_pow(a) * (10 * ten_pow((b - 1) as nat)))
            by (nonlinear_arith);
    }
}

/// 10 raised to `e`, for the exponents whose power fits in an `i128`.
pub fn pow10(e: u32) -> (r: i128)
    requires
        e <= 38,
    ensures
        r == ten_pow(e as nat),
{
    let mut r: i128 = 1;
    let mut i: u32 = 0;
    while i < e
        invariant
            i <= e <= 38,
            r == ten_pow(i as nat),
        decreases e - i,
    {
        proof {
            lemma_ten_pow_bounds(i as nat);
            lemma_ten_pow_bounds((i + 1) as nat);
        }
        r = r * 10;
        i = i + 1;
    }
    r
}

} // verus!

verus! {

/// Integer division rounded toward zero, as `/` on machine integers divides,
/// for a positive divisor.
pub open spec fn div_trunc(a: int, b: int) -> int {
    if a >= 0 {
        a / b
    } else {
        -((-a) / b)
    }
}

/// Dividing a multiple of a positive `k` by `k`, toward zero, gives back the
/// factor.
pub proof fn lemma_div_trunc_multiple(x: int, k: int)
    requires
        k > 0,
    ensures
        div_trunc(x * k, k) == x,
{
    vstd::arithmetic::div_mod::lemma_div_multiples_vanish(x, k);
    vstd::arithmetic::div_mod::lemma_div_multiples_vanish(-x, k);
    assert(x * k == k * x && -(x * k) == k * (-x)) by (nonlinear_arith);
    if x < 0 {
        assert(x * k < 0) by (nonlinear_arith)
            requires x < 0, k > 0;
    } else {
        assert(x * k >= 0) by (nonlinear_arith)
            requires x >= 0, k > 0;
    }
}

} // verus!
