//! Greatest common divisor on unsigned integers, with the number theory the
//! rest of the crate relies on.

use vstd::prelude::*;

verus! {

/// `d` is a positive integer that divides both `a` and `b`.
pub open spec fn is_common_divisor(d: nat, a: nat, b: nat) -> bool {
    d > 0 && a % d == 0 && b % d == 0
}

/// `g` is the greatest common divisor of `a` and `b`: the largest positive
/// integer dividing both, or `0` when both are `0` (every positive integer
/// divides `0`, so there is no largest one).
pub open spec fn is_gcd(g: nat, a: nat, b: nat) -> bool {
    if a == 0 && b == 0 {
        g == 0
    } else {
        &&& is_common_divisor(g, a, b)
        &&& forall|d: nat| is_common_divisor(d, a, b) ==> d <= g
    }
}

/// `a` and `b` have no common divisor above `1`.
pub open spec fn coprime(a: nat, b: nat) -> bool {
    forall|d: nat| is_common_divisor(d, a, b) ==> d == 1
}

/// The value the Euclidean algorithm reaches from `(a, b)`.
pub open spec fn spec_gcd(a: nat, b: nat) -> nat
    decreases b,
{
    if b == 0 {
        a
    } else {
        spec_gcd(b, a % b)
    }
}

proof fn lemma_divides_combination(d: nat, q: nat, b: nat, r: nat)
    requires
        d > 0,
        b % d == 0,
        r % d == 0,
    ensures
        (q * b + r) % d == 0,
{
    let kb = b / d;
    let kr = r / d;
    assert(b == d * kb) by {
        vstd::arithmetic::div_mod::lemma_fundamental_div_mod(b as int, d as int);
    }
    assert(r == d * kr) by {
        vstd::arithmetic::div_mod::lemma_fundamental_div_mod(r as int, d as int);
    }
    assert(q * b + r == d * (q * kb + kr)) by (nonlinear_arith)
        requires
            b == d * kb,
            r == d * kr,
    ;
    vstd::arithmetic::div_mod::lemma_mod_multiples_basic((q * kb + kr) as int, d as int);
    assert((q * kb + kr) * d == d * (q * kb + kr)) by (nonlinear_arith);
}

proof fn lemma_divides_remainder(d: nat, a: nat, b: nat)
    requires
        d > 0,
        b > 0,
        a % d == 0,
        b % d == 0,
    ensures
        (a % b) % d == 0,
{
    let q = a / b;
    let r = a % b;
    let ka = a / d;
    let kb = b / d;
    vstd::arithmetic::div_mod::lemma_fundamental_div_mod(a as int, b as int);
    vstd::arithmetic::div_mod::lemma_fundamental_div_mod(a as int, d as int);
    vstd::arithmetic::div_mod::lemma_fundamental_div_mod(b as int, d as int);
    assert(r == d * (ka - q * kb)) by (nonlinear_arith)
        requires
            a == b * q + r,
            a == d * ka,
            b == d * kb,
    ;
    vstd::arithmetic::div_mod::lemma_mod_multiples_basic(ka - q * kb, d as int);
    assert((ka - q * kb) * d == d * (ka - q * kb)) by (nonlinear_arith);
}

/// The Euclidean value is positive unless both arguments are zero, and it
/// divides both of them.
pub proof fn lemma_gcd_divides(a: nat, b: nat)
    requires
        a > 0 || b > 0,
    ensures
        is_common_divisor(spec_gcd(a, b), a, b),
    decreases b,
{
    if b == 0 {
        vstd::arithmetic::div_mod::lemma_mod_self_0(a as int);
    } else {
        lemma_gcd_divides(b, a % b);
        let g = spec_gcd(a, b);
        vstd::arithmetic::div_mod::lemma_fundamental_div_mod(a as int, b as int);
        lemma_divides_combination(g, a / b, b, a % b);
        assert((a / b) * b == b * (a / b)) by (nonlinear_arith);
    }
}

/// Every common divisor of `a` and `b` divides the Euclidean value.
pub proof fn lemma_gcd_greatest(d: nat, a: nat, b: nat)
    requires
        is_common_divisor(d, a, b),
    ensures
        spec_gcd(a, b) % d == 0,
        (a > 0 || b > 0) ==> d <= spec_gcd(a, b),
    decreases b,
{
    if b == 0 {
    } else {
        lemma_divides_remainder(d, a, b);
        lemma_gcd_greatest(d, b, a % b);
    }
    if a > 0 || b > 0 {
        lemma_gcd_divides(a, b);
        let g = spec_gcd(a, b);
        if g < d {
            vstd::arithmetic::div_mod::lemma_small_mod(g, d);
        }
    }
}

/// The Euclidean algorithm computes the greatest common divisor.
pub proof fn lemma_spec_gcd_is_gcd(a: nat, b: nat)
    ensures
        is_gcd(spec_gcd(a, b), a, b),
{
    if a == 0 && b == 0 {
    } else {
        lemma_gcd_divides(a, b);
        assert forall|d: nat| is_common_divisor(d, a, b) implies d <= spec_gcd(a, b) by {
            lemma_gcd_greatest(d, a, b);
        }
    }
}

/// Dividing two numbers by their greatest common divisor leaves a coprime
/// pair.
pub proof fn lemma_quotients_coprime(a: nat, b: nat)
    requires
        a > 0 || b > 0,
    ensures
        coprime(a / spec_gcd(a, b), b / spec_gcd(a, b)),
{
    let g = spec_gcd(a, b);
    lemma_gcd_divides(a, b);
    let qa = a / g;
    let qb = b / g;
    vstd::arithmetic::div_mod::lemma_fundamental_div_mod(a as int, g as int);
    vstd::arithmetic::div_mod::lemma_fundamental_div_mod(b as int, g as int);
    assert forall|d: nat| is_common_divisor(d, qa, qb) implies d == 1 by {
        let ka = qa / d;
        let kb = qb / d;
        vstd::arithmetic::div_mod::lemma_fundamental_div_mod(qa as int, d as int);
        vstd::arithmetic::div_mod::lemma_fundamental_div_mod(qb as int, d as int);
        assert(a == (d * g) * ka && b == (d * g) * kb && d * g >= g && (d > 1 ==> d * g > g))
            by (nonlinear_arith)
            requires
                a == g * qa,
                b == g * qb,
                qa == d * ka,
                qb == d * kb,
                d > 0,
                g > 0,
        ;
        vstd::arithmetic::div_mod::lemma_mod_multiples_basic(ka as int, (d * g) as int);
        vstd::arithmetic::div_mod::lemma_mod_multiples_basic(kb as int, (d * g) as int);
        assert(ka * (d * g) == (d * g) * ka) by (nonlinear_arith);
        assert(kb * (d * g) == (d * g) * kb) by (nonlinear_arith);
        lemma_gcd_greatest(d * g, a, b);
    }
}

/// Two coprime numbers, not both zero, have greatest common divisor `1`.
pub proof fn lemma_coprime_gcd_one(a: nat, b: nat)
    requires
        coprime(a, b),
        a > 0 || b > 0,
    ensures
        spec_gcd(a, b) == 1,
{
    lemma_gcd_divides(a, b);
}

/// The additive identity of `u8`, as `num_traits::zero` gives it: `0`.
#[verifier::external_body]
fn zero_u8() -> (z: u8)
    ensures
        z == 0,
{
    num_traits::zero()
}

/// Greatest common divisor by the Euclidean algorithm.
///
/// `gcd(0, 0)` is `0`; otherwise the result is the largest positive integer
/// that divides both arguments.
pub fn gcd(a: u8, b: u8) -> (g: u8)
    ensures
        g == spec_gcd(a as nat, b as nat),
        is_gcd(g as nat, a as nat, b as nat),
{
    let zero: u8 = zero_u8();
    let mut x: u8 = a;
    let mut y: u8 = b;
    while y != zero
        invariant
            zero == 0,
            spec_gcd(x as nat, y as nat) == spec_gcd(a as nat, b as nat),
        decreases y,
    {
        let temp: u8 = y;
        y = x % y;
        x = temp;
    }
    proof {
        lemma_spec_gcd_is_gcd(a as nat, b as nat);
    }
    x
}

} // verus!
