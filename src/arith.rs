use vstd::prelude::*;

use crate::error::SolSocialError;

verus! {

/// Guarded addition: the sum, or `MathOverflow` when it does not fit in `u64`.
pub fn add_u64(a: u64, b: u64) -> (r: Result<u64, SolSocialError>)
    ensures
        a + b <= u64::MAX ==> r == Ok::<u64, SolSocialError>((a + b) as u64),
        a + b > u64::MAX ==> r == Err::<u64, SolSocialError>(SolSocialError::MathOverflow),
{
    match a.checked_add(b) {
        Some(v) => Ok(v),
        None => Err(SolSocialError::MathOverflow),
    }
}

/// Guarded subtraction: the difference, or `MathUnderflow` when `b > a`.
pub fn sub_u64(a: u64, b: u64) -> (r: Result<u64, SolSocialError>)
    ensures
        b <= a ==> r == Ok::<u64, SolSocialError>((a - b) as u64),
        b > a ==> r == Err::<u64, SolSocialError>(SolSocialError::MathUnderflow),
{
    match a.checked_sub(b) {
        Some(v) => Ok(v),
        None => Err(SolSocialError::MathUnderflow),
    }
}

/// Guarded multiplication: the product, or `MathOverflow` when it does not fit.
pub fn mul_u64(a: u64, b: u64) -> (r: Result<u64, SolSocialError>)
    ensures
        a * b <= u64::MAX ==> r == Ok::<u64, SolSocialError>((a * b) as u64),
        a * b > u64::MAX ==> r == Err::<u64, SolSocialError>(SolSocialError::MathOverflow),
{
    match a.checked_mul(b) {
        Some(v) => Ok(v),
        None => Err(SolSocialError::MathOverflow),
    }
}

/// Guarded floor division: the quotient, or `DivideByZero` when `b == 0`.
pub fn div_u64(a: u64, b: u64) -> (r: Result<u64, SolSocialError>)
    ensures
        b != 0 ==> r == Ok::<u64, SolSocialError>((a / b) as u64),
        b == 0 ==> r == Err::<u64, SolSocialError>(SolSocialError::DivideByZero),
{
    match a.checked_div(b) {
        Some(v) => Ok(v),
        None => Err(SolSocialError::DivideByZero),
    }
}

/// `v * part / whole`, floored, for a fraction `part / whole` of at most
/// one; computed without leaving `u64`: with `v = whole * q + rem`, the
/// result is `q * part + rem * part / whole`.
pub fn mul_div_floor(v: u64, part: u64, whole: u64) -> (r: u64)
    requires
        0 < whole <= 10_000,
        part <= whole,
    ensures
        r == v * part / (whole as int),
        r <= v,
{
    let q = v / whole;
    let rem = v % whole;
    proof {
        let d = whole as int;
        let y = rem * part;
        vstd::arithmetic::div_mod::lemma_fundamental_div_mod(v as int, d);
        vstd::arithmetic::div_mod::lemma_fundamental_div_mod(y, d);
        vstd::arithmetic::div_mod::lemma_mod_bound(y, d);
        assert(v * part == d * (q * part + y / d) + y % d) by (nonlinear_arith)
            requires
                v == d * q + rem,
                y == rem * part,
                y == d * (y / d) + y % d,
        ;
        vstd::arithmetic::div_mod::lemma_fundamental_div_mod_converse(v * part, d, q * part + y / d, y % d);
        assert(rem * part < 100_000_000 && v * part <= v * d) by (nonlinear_arith)
            requires
                v == d * q + rem,
                0 <= rem < d,
                q >= 0,
                0 <= part <= d,
                d <= 10_000,
                v >= 0,
        ;
        vstd::arithmetic::div_mod::lemma_div_is_ordered(v * part, v * d, d);
        vstd::arithmetic::div_mod::lemma_div_multiples_vanish(v as int, d);
        vstd::arithmetic::div_mod::lemma_div_pos_is_pos(y, d);
        assert(q * part >= 0) by (nonlinear_arith)
            requires
                q >= 0,
                part >= 0,
        ;
    }
    q * part + rem * part / whole
}

} // verus!
