//! Discrete "whole key" curve: unit `i` (counting from zero) is worth
//! `i² * KEY_PRICE_SCALE / KEY_PRICE_DIVISOR`, and a trade is priced on the
//! sum of the squares of the units it mints or burns, scaled once.
use vstd::prelude::*;

use crate::arith::{add_u64, mul_u64};
use crate::error::SolSocialError;

verus! {

/// Scale applied to a sum of squares before the divisor.
pub const KEY_PRICE_SCALE: u64 = 1_000_000;

/// Divisor of the scaled sum of squares.
pub const KEY_PRICE_DIVISOR: u64 = 16_000;

/// `0² + 1² + ... + (k-1)²`.
pub open spec fn sum_sq(k: nat) -> nat
    decreases k,
{
    if k == 0 {
        0
    } else {
        (sum_sq((k - 1) as nat) + (k - 1) * (k - 1)) as nat
    }
}

/// Sum of the squares of the units `a, ..., b-1`.
pub open spec fn range_sq(a: nat, b: nat) -> int {
    sum_sq(b) - sum_sq(a)
}

/// Value of the units `a, ..., b-1` on this curve.
pub open spec fn key_value(a: nat, b: nat) -> int {
    range_sq(a, b) * KEY_PRICE_SCALE / (KEY_PRICE_DIVISOR as int)
}

/// What `get_price` returns for buying `n` units at supply `s`.
pub open spec fn key_buy_outcome(s: u64, n: u64) -> Result<u64, SolSocialError> {
    if n == 0 {
        Err(SolSocialError::InvalidAmount)
    } else if s == 0 && n == 1 {
        Ok(0)
    } else if s + n > u64::MAX || 6 * sum_sq((s + n) as nat) > u64::MAX {
        Err(SolSocialError::MathOverflow)
    } else if range_sq(s as nat, (s + n) as nat) * KEY_PRICE_SCALE > u64::MAX {
        Err(SolSocialError::MathOverflow)
    } else {
        Ok(key_value(s as nat, (s + n) as nat) as u64)
    }
}

/// What `get_sell_price` returns for selling `n` units at supply `s`.
pub open spec fn key_sell_outcome(s: u64, n: u64) -> Result<u64, SolSocialError> {
    if n == 0 {
        Err(SolSocialError::InvalidAmount)
    } else if n > s {
        Err(SolSocialError::InsufficientSupply)
    } else if 6 * sum_sq(s as nat) > u64::MAX {
        Err(SolSocialError::MathOverflow)
    } else if range_sq((s - n) as nat, s as nat) * KEY_PRICE_SCALE > u64::MAX {
        Err(SolSocialError::MathOverflow)
    } else {
        Ok(key_value((s - n) as nat, s as nat) as u64)
    }
}

/// Closed form of the sum of squares: `6 * sum_sq(k) == (k-1) k (2k-1)`.
pub proof fn lemma_sum_sq_closed_form(k: nat)
    ensures
        6 * sum_sq(k) == (k - 1) * k * (2 * k - 1),
    decreases k,
{
    if k > 0 {
        let j = (k - 1) as nat;
        lemma_sum_sq_closed_form(j);
        let prev: int = sum_sq(j) as int;
        let cur: int = sum_sq(k) as int;
        let jj: int = j as int;
        let kk: int = k as int;
        assert(cur == prev + jj * jj);
        assert(6 * cur == (kk - 1) * kk * (2 * kk - 1)) by (nonlinear_arith)
            requires
                6 * prev == (jj - 1) * jj * (2 * jj - 1),
                cur == prev + jj * jj,
                jj + 1 == kk,
        ;
        assert(kk == k);
    } else {
        assert(sum_sq(k) == 0);
        assert((k - 1) * k * (2 * k - 1) == 0) by (nonlinear_arith)
            requires
                k == 0,
        ;
    }
}

pub proof fn lemma_sum_sq_monotone(a: nat, b: nat)
    requires
        a <= b,
    ensures
        sum_sq(a) <= sum_sq(b),
    decreases b - a,
{
    if a < b {
        lemma_sum_sq_monotone(a, (b - 1) as nat);
    }
}

/// Above a positive supply, `n` units are worth strictly more than the `n`
/// units below it: the squares differ by `n² (2s - 1)` in total, which the
/// scale lifts past the divisor.
pub proof fn lemma_key_buy_exceeds_sell(s: u64, n: u64)
    requires
        s > 0,
        n > 0,
        key_buy_outcome(s, n) is Ok,
        key_sell_outcome(s, n) is Ok,
    ensures
        key_buy_outcome(s, n)->Ok_0 > key_sell_outcome(s, n)->Ok_0,
{
    let a = (s - n) as nat;
    let b = s as nat;
    let c = (s + n) as nat;
    lemma_sum_sq_closed_form(a);
    lemma_sum_sq_closed_form(b);
    lemma_sum_sq_closed_form(c);
    let x = s as int;
    let k = n as int;
    assert(6 * (range_sq(b, c) - range_sq(a, b)) == 6 * k * k * (2 * x - 1)) by (nonlinear_arith)
        requires
            6 * sum_sq(a) == (x - k - 1) * (x - k) * (2 * (x - k) - 1),
            6 * sum_sq(b) == (x - 1) * x * (2 * x - 1),
            6 * sum_sq(c) == (x + k - 1) * (x + k) * (2 * (x + k) - 1),
            range_sq(a, b) == sum_sq(b) - sum_sq(a),
            range_sq(b, c) == sum_sq(c) - sum_sq(b),
    ;
    assert(k * k * (2 * x - 1) >= 1) by (nonlinear_arith)
        requires
            x >= 1,
            k >= 1,
    ;
    let hi = range_sq(b, c) * KEY_PRICE_SCALE;
    let lo = range_sq(a, b) * KEY_PRICE_SCALE;
    let rb = range_sq(b, c);
    let ra = range_sq(a, b);
    assert(rb >= ra + 1) by (nonlinear_arith)
        requires
            6 * (rb - ra) == 6 * k * k * (2 * x - 1),
            k * k * (2 * x - 1) >= 1,
    ;
    assert(rb * 1_000_000 >= ra * 1_000_000 + 16_000) by (nonlinear_arith)
        requires
            rb >= ra + 1,
    ;
    assert(hi >= lo + KEY_PRICE_DIVISOR);
    vstd::arithmetic::div_mod::lemma_div_is_ordered(lo + KEY_PRICE_DIVISOR, hi, KEY_PRICE_DIVISOR as int);
    vstd::arithmetic::div_mod::lemma_div_plus_one(lo, KEY_PRICE_DIVISOR as int);
    lemma_sum_sq_monotone(a, b);
    vstd::arithmetic::div_mod::lemma_div_pos_is_pos(lo, KEY_PRICE_DIVISOR as int);
}

/// A run of `n` units starting higher is worth at least as much.
pub proof fn lemma_range_sq_monotone(a: nat, b: nat, n: nat)
    requires
        a <= b,
    ensures
        range_sq(a, a + n) <= range_sq(b, b + n),
    decreases b - a,
{
    if a < b {
        let c = (b - 1) as nat;
        lemma_range_sq_monotone(a, c, n);
        assert(sum_sq(c + n + 1) == sum_sq(c + n) + (c + n) * (c + n));
        assert(sum_sq(c + 1) == sum_sq(c) + c * c);
        assert(c * c <= (c + n) * (c + n)) by (nonlinear_arith)
            requires
                c >= 0,
                n >= 0,
        ;
        assert(c + 1 == b);
    }
}

/// For a fixed amount, buying later never costs less on this curve.
pub proof fn lemma_key_buy_monotone_in_supply(s1: u64, s2: u64, n: u64)
    requires
        s1 <= s2,
        key_buy_outcome(s1, n) is Ok,
        key_buy_outcome(s2, n) is Ok,
    ensures
        key_buy_outcome(s1, n)->Ok_0 <= key_buy_outcome(s2, n)->Ok_0,
{
    let r1 = range_sq(s1 as nat, (s1 + n) as nat);
    let r2 = range_sq(s2 as nat, (s2 + n) as nat);
    lemma_range_sq_monotone(s1 as nat, s2 as nat, n as nat);
    lemma_sum_sq_monotone(s1 as nat, (s1 + n) as nat);
    assert(0 <= r1 * 1_000_000 <= r2 * 1_000_000) by (nonlinear_arith)
        requires
            0 <= r1 <= r2,
    ;
    vstd::arithmetic::div_mod::lemma_div_is_ordered(r1 * KEY_PRICE_SCALE, r2 * KEY_PRICE_SCALE, KEY_PRICE_DIVISOR as int);
    vstd::arithmetic::div_mod::lemma_div_pos_is_pos(r2 * KEY_PRICE_SCALE, KEY_PRICE_DIVISOR as int);
}

/// Computes `6 * sum_sq(k)` through its closed form.
fn six_sum_sq(k: u64) -> (r: Result<u64, SolSocialError>)
    ensures
        6 * sum_sq(k as nat) <= u64::MAX ==> r == Ok::<u64, SolSocialError>((6 * sum_sq(k as nat)) as u64),
        6 * sum_sq(k as nat) > u64::MAX ==> r == Err::<u64, SolSocialError>(SolSocialError::MathOverflow),
{
    proof {
        lemma_sum_sq_closed_form(k as nat);
    }
    if k == 0 {
        return Ok(0);
    }
    let below = k - 1;
    proof {
        let x = below as int;
        let y = k as int;
        let z = 2 * y - 1;
        assert(x * y <= x * y * z && (x * y > u64::MAX ==> x * y * z > u64::MAX)) by (nonlinear_arith)
            requires
                x >= 0,
                y >= 1,
                z >= 1,
        ;
        if z > u64::MAX {
            assert(x * y * z > u64::MAX) by (nonlinear_arith)
                requires
                    x + 1 == y,
                    z == 2 * y - 1,
                    z > u64::MAX,
            ;
        }
    }
    let odd = add_u64(k, below)?;
    let pair = mul_u64(below, k)?;
    mul_u64(pair, odd)
}

/// Cost of buying `amount` units at supply `supply`; the founding unit (the
/// first one, bought at supply zero) is free.
pub fn get_price(supply: u64, amount: u64) -> (r: Result<u64, SolSocialError>)
    ensures
        r == key_buy_outcome(supply, amount),
{
    if amount == 0 {
        return Err(SolSocialError::InvalidAmount);
    }
    if supply == 0 && amount == 1 {
        return Ok(0);
    }
    let end = match supply.checked_add(amount) {
        Some(v) => v,
        None => {
            return Err(SolSocialError::MathOverflow);
        },
    };
    let hi = six_sum_sq(end)?;
    proof {
        lemma_sum_sq_monotone(supply as nat, end as nat);
    }
    let lo = six_sum_sq(supply)?;
    let range = (hi - lo) / 6;
    assert(range == range_sq(supply as nat, end as nat));
    let scaled = mul_u64(range, KEY_PRICE_SCALE)?;
    Ok(scaled / KEY_PRICE_DIVISOR)
}

/// Proceeds of selling `amount` units at supply `supply`: the squares of
/// the burnt units, through the same closed form as buying, scaled once.
pub fn get_sell_price(supply: u64, amount: u64) -> (r: Result<u64, SolSocialError>)
    ensures
        r == key_sell_outcome(supply, amount),
{
    if amount == 0 {
        return Err(SolSocialError::InvalidAmount);
    }
    if amount > supply {
        return Err(SolSocialError::InsufficientSupply);
    }
    let start = supply - amount;
    let hi = six_sum_sq(supply)?;
    proof {
        lemma_sum_sq_monotone(start as nat, supply as nat);
    }
    let lo = six_sum_sq(start)?;
    let range = (hi - lo) / 6;
    assert(range == range_sq(start as nat, supply as nat));
    let scaled = mul_u64(range, KEY_PRICE_SCALE)?;
    Ok(scaled / KEY_PRICE_DIVISOR)
}

} // verus!
