//! Overflow-checked integer arithmetic over a widened domain.
//!
//! Amounts are 64-bit; products are formed in 128 bits, where they always
//! fit, and quotients are narrowed back with a check.

use vstd::prelude::*;
use crate::error::AmmError;

verus! {

/// `r` is the floor of the square root of `v`.
pub open spec fn is_floor_sqrt(v: nat, r: nat) -> bool {
    r * r <= v < (r + 1) * (r + 1)
}

/// The floor of the square root of `v`.
pub open spec fn floor_sqrt(v: nat) -> nat {
    choose|r: nat| is_floor_sqrt(v, r)
}

/// `n / d`, rounded up. Meaningful for `d > 0`.
pub open spec fn ceil_div(n: nat, d: nat) -> nat {
    if n % d == 0 {
        n / d
    } else {
        n / d + 1
    }
}

/// What `mul_div_floor` returns: `a * b / denom` rounded down, or an
/// overflow when `denom` is zero or the quotient exceeds 64 bits.
pub open spec fn spec_mul_div_floor(a: u64, b: u64, denom: u64) -> Result<u64, AmmError> {
    if denom == 0 || (a as nat * b as nat) / (denom as nat) > u64::MAX {
        Err(AmmError::MathOverflow)
    } else {
        Ok(((a as nat * b as nat) / (denom as nat)) as u64)
    }
}

/// What `mul_div_ceil` returns: `a * b / denom` rounded up, or an overflow
/// when `denom` is zero or the rounded quotient exceeds 64 bits.
pub open spec fn spec_mul_div_ceil(a: u64, b: u64, denom: u64) -> Result<u64, AmmError> {
    if denom == 0 || ceil_div(a as nat * b as nat, denom as nat) > u64::MAX {
        Err(AmmError::MathOverflow)
    } else {
        Ok(ceil_div(a as nat * b as nat, denom as nat) as u64)
    }
}

/// The product of two 64-bit values fits in 128 bits.
pub proof fn lemma_wide_product_fits(a: u64, b: u64)
    ensures
        0 <= a * b <= u128::MAX,
{
    assert(0 <= a * b <= 0xFFFF_FFFF_FFFF_FFFF * 0xFFFF_FFFF_FFFF_FFFF) by (nonlinear_arith)
        requires
            0 <= a <= 0xFFFF_FFFF_FFFF_FFFF,
            0 <= b <= 0xFFFF_FFFF_FFFF_FFFF,
    ;
}

/// A number has at most one floor square root.
pub proof fn lemma_floor_sqrt_unique(v: nat, r1: nat, r2: nat)
    requires
        is_floor_sqrt(v, r1),
        is_floor_sqrt(v, r2),
    ensures
        r1 == r2,
{
    assert(r1 == r2) by (nonlinear_arith)
        requires
            r1 * r1 <= v < (r1 + 1) * (r1 + 1),
            r2 * r2 <= v < (r2 + 1) * (r2 + 1),
    ;
}

/// Every number has a floor square root, and `floor_sqrt` names it.
pub proof fn lemma_floor_sqrt_exists(v: nat)
    ensures
        is_floor_sqrt(v, floor_sqrt(v)),
    decreases v,
{
    if v == 0 {
        assert(is_floor_sqrt(0, 0)) by (nonlinear_arith);
    } else {
        lemma_floor_sqrt_exists((v - 1) as nat);
        let r = floor_sqrt((v - 1) as nat);
        if (r + 1) * (r + 1) <= v {
            assert(is_floor_sqrt(v, r + 1)) by (nonlinear_arith)
                requires
                    v - 1 < (r + 1) * (r + 1),
                    (r + 1) * (r + 1) <= v,
            ;
        } else {
            assert(is_floor_sqrt(v, r)) by (nonlinear_arith)
                requires
                    r * r <= v - 1,
                    !((r + 1) * (r + 1) <= v),
            ;
        }
    }
}

/// The floor square root is zero exactly for zero.
pub proof fn lemma_floor_sqrt_zero(v: nat)
    ensures
        floor_sqrt(v) == 0 <==> v == 0,
{
    lemma_floor_sqrt_exists(v);
    let r = floor_sqrt(v);
    assert(r == 0 <==> v == 0) by (nonlinear_arith)
        requires
            r * r <= v < (r + 1) * (r + 1),
    ;
}

/// The floor square root of a product of two 64-bit values fits in 64
/// bits, and is zero exactly when one of the factors is zero.
pub proof fn lemma_floor_sqrt_of_product(a: u64, b: u64)
    ensures
        is_floor_sqrt(a as nat * b as nat, floor_sqrt(a as nat * b as nat)),
        floor_sqrt(a as nat * b as nat) <= u64::MAX,
        floor_sqrt(a as nat * b as nat) == 0 <==> (a == 0 || b == 0),
{
    let v = a as nat * b as nat;
    lemma_floor_sqrt_exists(v);
    lemma_floor_sqrt_zero(v);
    let r = floor_sqrt(v);
    assert(r <= 0xFFFF_FFFF_FFFF_FFFF) by (nonlinear_arith)
        requires
            r * r <= v,
            v == a as nat * b as nat,
            a <= 0xFFFF_FFFF_FFFF_FFFF,
            b <= 0xFFFF_FFFF_FFFF_FFFF,
    ;
    assert(v == 0 <==> (a == 0 || b == 0)) by (nonlinear_arith)
        requires
            v == a as nat * b as nat,
    ;
}

/// Rounding down and up bracket the exact quotient: the floor times the
/// divisor falls short of the dividend by less than one divisor, the
/// ceiling exceeds it by less than one divisor.
pub proof fn lemma_div_brackets(n: nat, d: nat)
    requires
        d > 0,
    ensures
        (n / d) * d <= n < (n / d) * d + d,
        n <= ceil_div(n, d) * d < n + d,
        n / d <= ceil_div(n, d) <= n / d + 1,
{
    vstd::arithmetic::div_mod::lemma_fundamental_div_mod(n as int, d as int);
    vstd::arithmetic::div_mod::lemma_mod_bound(n as int, d as int);
    let q = n / d;
    assert(d * q == q * d) by (nonlinear_arith);
    assert((q + 1) * d == q * d + d) by (nonlinear_arith);
}

/// Calls `num_integer::Roots::sqrt` on a `u128`, whose documentation gives
/// the truncated square root: the result `r` satisfies `r² ≤ v < (r+1)²`.
/// The unsigned implementation has no panicking path.
#[verifier::external_body]
fn roots_sqrt(v: u128) -> (r: u128)
    ensures
        is_floor_sqrt(v as nat, r as nat),
{
    num_integer::Roots::sqrt(&v)
}

/// Multiplies two 64-bit amounts in 128 bits. The product of two 64-bit
/// values always fits, so the overflow branch is never taken; it is checked
/// all the same.
pub fn checked_mul_wide(a: u64, b: u64) -> (r: Result<u128, AmmError>)
    ensures
        a * b <= u128::MAX ==> r == Ok::<u128, AmmError>((a * b) as u128),
        a * b > u128::MAX ==> r == Err::<u128, AmmError>(AmmError::MathOverflow),
        r is Ok,
{
    proof {
        lemma_wide_product_fits(a, b);
    }
    match (a as u128).checked_mul(b as u128) {
        Some(p) => Ok(p),
        None => Err(AmmError::MathOverflow),
    }
}

/// The floor of the square root of a 128-bit value, which always fits in
/// 64 bits.
pub fn integer_sqrt(v: u128) -> (r: u64)
    ensures
        is_floor_sqrt(v as nat, r as nat),
        r == floor_sqrt(v as nat),
{
    let wide: u128 = roots_sqrt(v);
    proof {
        assert(wide <= u64::MAX) by (nonlinear_arith)
            requires
                wide * wide <= v,
                v <= u128::MAX,
        ;
        lemma_floor_sqrt_exists(v as nat);
        lemma_floor_sqrt_unique(v as nat, wide as nat, floor_sqrt(v as nat));
    }
    wide as u64
}

/// `floor(a * b / denom)`, formed in 128 bits so that the product cannot
/// overflow. Fails with `MathOverflow` when `denom` is zero or the quotient
/// does not fit in 64 bits.
pub fn mul_div_floor(a: u64, b: u64, denom: u64) -> (r: Result<u64, AmmError>)
    ensures
        r == spec_mul_div_floor(a, b, denom),
{
    if denom == 0 {
        return Err(AmmError::MathOverflow);
    }
    let product: u128 = match checked_mul_wide(a, b) {
        Ok(p) => p,
        Err(e) => {
            return Err(e);
        },
    };
    let quotient: u128 = product / (denom as u128);
    if quotient > u64::MAX as u128 {
        Err(AmmError::MathOverflow)
    } else {
        Ok(quotient as u64)
    }
}

/// `ceil(a * b / denom)`, formed in 128 bits so that the product cannot
/// overflow. Fails with `MathOverflow` when `denom` is zero or the rounded
/// quotient does not fit in 64 bits.
pub fn mul_div_ceil(a: u64, b: u64, denom: u64) -> (r: Result<u64, AmmError>)
    ensures
        r == spec_mul_div_ceil(a, b, denom),
{
    if denom == 0 {
        return Err(AmmError::MathOverflow);
    }
    let product: u128 = match checked_mul_wide(a, b) {
        Ok(p) => p,
        Err(e) => {
            return Err(e);
        },
    };
    let quotient: u128 = product / (denom as u128);
    let remainder: u128 = product % (denom as u128);
    if remainder == 0 {
        if quotient > u64::MAX as u128 {
            Err(AmmError::MathOverflow)
        } else {
            Ok(quotient as u64)
        }
    } else if quotient >= u64::MAX as u128 {
        Err(AmmError::MathOverflow)
    } else {
        Ok((quotient + 1) as u64)
    }
}

} // verus!
