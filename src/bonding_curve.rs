//! Quadratic bonding curve: `price(s) = base_price + s² / curve_factor`.
//!
//! Costs and proceeds are the integral of the price between two supplies,
//! `base_price * (b - a) + (b³ - a³) / (3 * curve_factor)`, evaluated with
//! guarded `u64` arithmetic.
use vstd::prelude::*;

use crate::arith::{add_u64, div_u64, mul_u64, sub_u64};
use crate::error::SolSocialError;

verus! {

/// Default scaling factor of the curve.
pub const CURVE_FACTOR: u64 = 1_000_000;

/// Default price of the first unit, in lamports.
pub const BASE_PRICE: u64 = 1_000;

/// Default cap on the supply of one asset.
pub const MAX_SUPPLY: u64 = 1_000_000_000;

/// Fixed-point scale of price-impact figures (six decimal places).
pub const PRICE_PRECISION: u64 = 1_000_000;

/// Price impact above which a trade pays the impact surcharge (1%).
pub const IMPACT_FEE_THRESHOLD: u64 = PRICE_PRECISION / 100;

/// Divisor of the surcharge: a tenth of the excess impact, as a fraction.
pub const IMPACT_FEE_DIVISOR: u64 = PRICE_PRECISION * 10;

/// Shape of a quadratic curve.
#[derive(Debug, Clone, Copy, PartialEq, Eq, Structural)]
pub struct BondingCurveParams {
    pub base_price: u64,
    pub curve_factor: u64,
    pub max_supply: u64,
}

impl Default for BondingCurveParams {
    fn default() -> (r: Self)
        ensures
            r.base_price == BASE_PRICE,
            r.curve_factor == CURVE_FACTOR,
            r.max_supply == MAX_SUPPLY,
    {
        BondingCurveParams { base_price: BASE_PRICE, curve_factor: CURVE_FACTOR, max_supply: MAX_SUPPLY }
    }
}

pub open spec fn cube(x: int) -> int {
    x * x * x
}

/// Exact spot price at supply `s` (floored division, unbounded integers).
pub open spec fn spot_price(s: int, p: BondingCurveParams) -> int {
    p.base_price + (s * s) / (p.curve_factor as int)
}

/// `x / d`, rounded up when `up` holds and down otherwise.
pub open spec fn div_round(x: int, d: int, up: bool) -> int {
    if up && x % d != 0 {
        x / d + 1
    } else {
        x / d
    }
}

/// Value of the curve between supplies `a` and `b`. Buyers pay the cubic
/// term rounded up and sellers receive it rounded down, so the curve never
/// pays out more than it took in.
pub open spec fn curve_integral(a: int, b: int, p: BondingCurveParams, up: bool) -> int {
    p.base_price * (b - a) + div_round(cube(b) - cube(a), 3 * p.curve_factor, up)
}

/// What `calculate_price` returns.
pub open spec fn price_outcome(s: u64, p: BondingCurveParams) -> Result<u64, SolSocialError> {
    if s > p.max_supply {
        Err(SolSocialError::SupplyExceedsMax)
    } else if s * s > u64::MAX {
        Err(SolSocialError::MathOverflow)
    } else if p.curve_factor == 0 {
        Err(SolSocialError::DivideByZero)
    } else if spot_price(s as int, p) > u64::MAX {
        Err(SolSocialError::MathOverflow)
    } else {
        Ok(spot_price(s as int, p) as u64)
    }
}

/// What the integral of the curve between `a` and `b` evaluates to, its
/// cubic term rounded up when `up` holds.
pub open spec fn integral_outcome(a: u64, b: u64, p: BondingCurveParams, up: bool) -> Result<u64, SolSocialError> {
    if b < a {
        Err(SolSocialError::InvalidRange)
    } else if p.base_price * (b - a) > u64::MAX {
        Err(SolSocialError::MathOverflow)
    } else if cube(b as int) > u64::MAX {
        Err(SolSocialError::MathOverflow)
    } else if 3 * p.curve_factor > u64::MAX {
        Err(SolSocialError::MathOverflow)
    } else if p.curve_factor == 0 {
        Err(SolSocialError::DivideByZero)
    } else if curve_integral(a as int, b as int, p, up) > u64::MAX {
        Err(SolSocialError::MathOverflow)
    } else {
        Ok(curve_integral(a as int, b as int, p, up) as u64)
    }
}

/// What `calculate_buy_cost` returns: the curve from `s` up to `s + n`,
/// rounded up.
pub open spec fn buy_cost_outcome(s: u64, n: u64, p: BondingCurveParams) -> Result<u64, SolSocialError> {
    if n == 0 {
        Err(SolSocialError::InvalidAmount)
    } else if s + n > p.max_supply {
        Err(SolSocialError::SupplyExceedsMax)
    } else {
        integral_outcome(s, (s + n) as u64, p, true)
    }
}

/// What `calculate_sell_proceeds` returns: the curve from `s - n` up to `s`,
/// rounded down.
pub open spec fn sell_proceeds_outcome(s: u64, n: u64, p: BondingCurveParams) -> Result<u64, SolSocialError> {
    if n == 0 {
        Err(SolSocialError::InvalidAmount)
    } else if n > s {
        Err(SolSocialError::InsufficientSupply)
    } else {
        integral_outcome((s - n) as u64, s, p, false)
    }
}

/// What `calculate_market_cap` returns: supply times spot price.
pub open spec fn market_cap_outcome(s: u64, p: BondingCurveParams) -> Result<u64, SolSocialError> {
    match price_outcome(s, p) {
        Err(e) => Err(e),
        Ok(price) => if s * price > u64::MAX {
            Err(SolSocialError::MathOverflow)
        } else {
            Ok((s * price) as u64)
        },
    }
}

/// `n` units can be bought at supply `s` for at most `budget`.
pub open spec fn affordable(s: u64, n: u64, budget: u64, p: BondingCurveParams) -> bool {
    match buy_cost_outcome(s, n, p) {
        Ok(cost) => cost <= budget,
        Err(_) => false,
    }
}

/// The bound of the budget search: no more units than remain below the cap,
/// and no more than the budget itself.
pub open spec fn search_bound(s: u64, budget: u64, p: BondingCurveParams) -> int {
    let room: int = if p.max_supply >= s { p.max_supply - s } else { 0 };
    if room < budget { room } else { budget as int }
}

/// The supply after a trade of `n` units in the given direction.
pub open spec fn supply_after(s: u64, n: u64, is_buy: bool) -> int {
    if is_buy { s + n } else { s - n }
}

/// What `calculate_price_impact` returns: the relative move of the spot
/// price, scaled by `PRICE_PRECISION`.
pub open spec fn price_impact_outcome(s: u64, n: u64, is_buy: bool, p: BondingCurveParams) -> Result<
    u64,
    SolSocialError,
> {
    match price_outcome(s, p) {
        Err(e) => Err(e),
        Ok(current) => if is_buy && s + n > u64::MAX {
            Err(SolSocialError::MathOverflow)
        } else if !is_buy && n > s {
            Err(SolSocialError::MathUnderflow)
        } else {
            match price_outcome(supply_after(s, n, is_buy) as u64, p) {
                Err(e) => Err(e),
                Ok(new_price) => {
                    let diff: int = if new_price > current { new_price - current } else { current - new_price };
                    if diff * PRICE_PRECISION > u64::MAX {
                        Err(SolSocialError::MathOverflow)
                    } else if current == 0 {
                        Err(SolSocialError::DivideByZero)
                    } else {
                        Ok((diff * PRICE_PRECISION / (current as int)) as u64)
                    }
                },
            }
        },
    }
}

/// The impact surcharge on a trade of value `v`: a tenth of the impact in
/// excess of the threshold.
pub open spec fn impact_surcharge(v: u64, impact: u64) -> int {
    if impact > IMPACT_FEE_THRESHOLD {
        v * (impact - IMPACT_FEE_THRESHOLD) / (IMPACT_FEE_DIVISOR as int)
    } else {
        0
    }
}

/// What `calculate_trading_fee` returns: the base fee plus the surcharge.
pub open spec fn trading_fee_outcome(v: u64, impact: u64, base_fee_bps: u64) -> Result<u64, SolSocialError> {
    if v * base_fee_bps > u64::MAX {
        Err(SolSocialError::MathOverflow)
    } else if impact > IMPACT_FEE_THRESHOLD && v * (impact - IMPACT_FEE_THRESHOLD) > u64::MAX {
        Err(SolSocialError::MathOverflow)
    } else if v * base_fee_bps / 10_000 + impact_surcharge(v, impact) > u64::MAX {
        Err(SolSocialError::MathOverflow)
    } else {
        Ok((v * base_fee_bps / 10_000 + impact_surcharge(v, impact)) as u64)
    }
}

/// Acceptable curve parameters: positive, with a cap whose square fits in
/// `u64`. (A curve factor above `u64::MAX / 3` is accepted, but every trade
/// on it fails with `MathOverflow`, as the integral's divisor `3 *
/// curve_factor` does not fit.)
pub open spec fn valid_curve_params(p: BondingCurveParams) -> bool {
    &&& p.base_price > 0
    &&& p.curve_factor > 0
    &&& p.max_supply > 0
    &&& p.max_supply * p.max_supply <= u64::MAX
}

pub proof fn lemma_square_overflow_gives_cube_overflow(x: int)
    requires
        x >= 0,
        x * x > u64::MAX,
    ensures
        cube(x) > u64::MAX,
{
    assert(x * x * x >= x * x) by (nonlinear_arith)
        requires
            x >= 1,
    ;
}

pub proof fn lemma_cube_monotone(a: int, b: int)
    requires
        0 <= a <= b,
    ensures
        cube(a) <= cube(b),
{
    assert(a * a <= b * b) by (nonlinear_arith)
        requires
            0 <= a <= b,
    ;
    assert(a * a * a <= b * b * b) by (nonlinear_arith)
        requires
            0 <= a <= b,
            a * a <= b * b,
    ;
}

/// Rounded division brackets the exact quotient: rounded down, `r d <= x <
/// (r + 1) d`; rounded up, `(r - 1) d < x <= r d`.
pub proof fn lemma_div_round_bounds(x: int, d: int, up: bool)
    requires
        x >= 0,
        d > 0,
    ensures
        div_round(x, d, up) >= 0,
        x / d <= div_round(x, d, up) <= x / d + 1,
        up ==> div_round(x, d, up) * d >= x && (div_round(x, d, up) - 1) * d < x,
        !up ==> div_round(x, d, up) * d <= x && x < (div_round(x, d, up) + 1) * d,
{
    vstd::arithmetic::div_mod::lemma_fundamental_div_mod(x, d);
    vstd::arithmetic::div_mod::lemma_mod_bound(x, d);
    vstd::arithmetic::div_mod::lemma_div_pos_is_pos(x, d);
    let q = x / d;
    let m = x % d;
    let r = div_round(x, d, up);
    assert(x == d * q + m);
    if up && m != 0 {
        assert(r * d >= x && (r - 1) * d < x) by (nonlinear_arith)
            requires
                x == d * q + m,
                0 < m < d,
                r == q + 1,
        ;
    } else if up {
        assert(r * d >= x && (r - 1) * d < x) by (nonlinear_arith)
            requires
                x == d * q,
                d > 0,
                r == q,
        ;
    } else {
        assert(r * d <= x && x < (r + 1) * d) by (nonlinear_arith)
            requires
                x == d * q + m,
                0 <= m < d,
                r == q,
        ;
    }
}

pub proof fn lemma_div_round_monotone(x: int, y: int, d: int, up: bool)
    requires
        0 <= x <= y,
        d > 0,
    ensures
        div_round(x, d, up) <= div_round(y, d, up),
{
    lemma_div_round_bounds(x, d, up);
    lemma_div_round_bounds(y, d, up);
    let rx = div_round(x, d, up);
    let ry = div_round(y, d, up);
    if up {
        assert(rx <= ry) by (nonlinear_arith)
            requires
                (rx - 1) * d < x,
                ry * d >= y,
                x <= y,
                d > 0,
        ;
    } else {
        assert(rx <= ry) by (nonlinear_arith)
            requires
                rx * d <= x,
                y < (ry + 1) * d,
                x <= y,
                d > 0,
        ;
    }
}

pub proof fn lemma_integral_monotone(a: int, b1: int, b2: int, p: BondingCurveParams, up: bool)
    requires
        0 <= a <= b1 <= b2,
        p.curve_factor > 0,
    ensures
        curve_integral(a, b1, p, up) <= curve_integral(a, b2, p, up),
        p.base_price * (b1 - a) <= p.base_price * (b2 - a),
{
    lemma_cube_monotone(b1, b2);
    lemma_cube_monotone(a, b1);
    lemma_div_round_monotone(cube(b1) - cube(a), cube(b2) - cube(a), 3 * p.curve_factor, up);
    assert(p.base_price * (b1 - a) <= p.base_price * (b2 - a)) by (nonlinear_arith)
        requires
            0 <= a <= b1 <= b2,
            p.base_price >= 0,
    ;
}

/// The curve is worth at least `base_price` per unit.
pub proof fn lemma_integral_at_least_linear(a: int, b: int, p: BondingCurveParams, up: bool)
    requires
        0 <= a <= b,
        p.curve_factor > 0,
    ensures
        curve_integral(a, b, p, up) >= p.base_price * (b - a),
{
    lemma_cube_monotone(a, b);
    lemma_div_round_bounds(cube(b) - cube(a), 3 * p.curve_factor, up);
}

/// Buying fewer units stays affordable.
pub proof fn lemma_affordable_downward(s: u64, m1: u64, m2: u64, budget: u64, p: BondingCurveParams)
    requires
        1 <= m1 <= m2,
        affordable(s, m2, budget, p),
    ensures
        affordable(s, m1, budget, p),
{
    let b1: int = s + m1;
    let b2: int = s + m2;
    assert(buy_cost_outcome(s, m2, p) is Ok);
    assert(b2 <= p.max_supply);
    assert(integral_outcome(s, b2 as u64, p, true) is Ok);
    assert(p.curve_factor > 0);
    lemma_cube_monotone(b1, b2);
    lemma_integral_monotone(s as int, b1, b2, p, true);
    assert(b1 - s == m1 && b2 - s == m2);
    assert(p.base_price * (b1 - s) <= u64::MAX);
    assert(cube(b1) <= u64::MAX);
    lemma_integral_at_least_linear(s as int, b1, p, true);
    assert(p.base_price * m1 >= 0) by (nonlinear_arith)
        requires
            p.base_price >= 0,
            m1 >= 0,
    ;
    assert(curve_integral(s as int, b2, p, true) <= budget);
    assert(curve_integral(s as int, b1, p, true) <= budget);
    assert(buy_cost_outcome(s, m1, p) == Ok::<u64, SolSocialError>(curve_integral(s as int, b1, p, true) as u64));
}

/// An affordable purchase leaves the supply far below `u64::MAX`: the cube
/// of the new supply must fit.
pub proof fn lemma_affordable_small(s: u64, n: u64, budget: u64, p: BondingCurveParams)
    requires
        affordable(s, n, budget, p),
    ensures
        s + n < 4_194_304,
{
    if s + n >= 4_194_304 {
        lemma_cube_monotone(4_194_304, s + n);
        assert(cube(4_194_304) > u64::MAX);
    }
}

/// Past the search bound nothing is affordable on a curve with a positive
/// base price.
pub proof fn lemma_beyond_bound_unaffordable(s: u64, m: u64, budget: u64, p: BondingCurveParams)
    requires
        p.base_price > 0,
        m > search_bound(s, budget, p),
    ensures
        !affordable(s, m, budget, p),
{
    if m > 0 && s + m <= p.max_supply && p.curve_factor > 0 {
        lemma_integral_at_least_linear(s as int, s + m, p, true);
        assert(p.base_price * m >= m) by (nonlinear_arith)
            requires
                p.base_price >= 1,
                m >= 0,
        ;
    }
}

/// Computes `x³`, or `MathOverflow` when it does not fit in `u64`.
fn calculate_cube(x: u64) -> (r: Result<u64, SolSocialError>)
    ensures
        cube(x as int) <= u64::MAX ==> r == Ok::<u64, SolSocialError>(cube(x as int) as u64),
        cube(x as int) > u64::MAX ==> r == Err::<u64, SolSocialError>(SolSocialError::MathOverflow),
{
    let x_squared = match mul_u64(x, x) {
        Ok(v) => v,
        Err(e) => {
            proof {
                lemma_square_overflow_gives_cube_overflow(x as int);
            }
            return Err(e);
        },
    };
    mul_u64(x_squared, x)
}

/// Price of one unit at the given supply.
pub fn calculate_price(supply: u64, params: &BondingCurveParams) -> (r: Result<u64, SolSocialError>)
    ensures
        r == price_outcome(supply, *params),
{
    if supply > params.max_supply {
        return Err(SolSocialError::SupplyExceedsMax);
    }
    let supply_squared = mul_u64(supply, supply)?;
    let curve_component = div_u64(supply_squared, params.curve_factor)?;
    add_u64(params.base_price, curve_component)
}

/// Value of the curve between two supplies, its cubic term rounded up when
/// `round_up` holds.
fn calculate_integral(from_supply: u64, to_supply: u64, params: &BondingCurveParams, round_up: bool) -> (r:
    Result<u64, SolSocialError>)
    ensures
        r == integral_outcome(from_supply, to_supply, *params, round_up),
{
    if to_supply < from_supply {
        return Err(SolSocialError::InvalidRange);
    }
    let supply_diff = sub_u64(to_supply, from_supply)?;
    let linear_component = mul_u64(params.base_price, supply_diff)?;
    let to_cubed = calculate_cube(to_supply)?;
    proof {
        lemma_cube_monotone(from_supply as int, to_supply as int);
    }
    let from_cubed = calculate_cube(from_supply)?;
    let cube_diff = sub_u64(to_cubed, from_cubed)?;
    let curve_divisor = mul_u64(params.curve_factor, 3)?;
    let floored = div_u64(cube_diff, curve_divisor)?;
    let quadratic_component = if round_up && cube_diff % curve_divisor != 0 {
        proof {
            vstd::arithmetic::div_mod::lemma_div_is_ordered_by_denominator(cube_diff as int, 3, curve_divisor as int);
        }
        floored + 1
    } else {
        floored
    };
    add_u64(linear_component, quadratic_component)
}

/// Cost of buying `amount` units when `current_supply` are out.
pub fn calculate_buy_cost(current_supply: u64, amount: u64, params: &BondingCurveParams) -> (r: Result<
    u64,
    SolSocialError,
>)
    ensures
        r == buy_cost_outcome(current_supply, amount, *params),
{
    if amount == 0 {
        return Err(SolSocialError::InvalidAmount);
    }
    let new_supply = match current_supply.checked_add(amount) {
        Some(v) => v,
        None => {
            return Err(SolSocialError::SupplyExceedsMax);
        },
    };
    if new_supply > params.max_supply {
        return Err(SolSocialError::SupplyExceedsMax);
    }
    calculate_integral(current_supply, new_supply, params, true)
}

/// Proceeds of selling `amount` units when `current_supply` are out.
pub fn calculate_sell_proceeds(current_supply: u64, amount: u64, params: &BondingCurveParams) -> (r:
    Result<u64, SolSocialError>)
    ensures
        r == sell_proceeds_outcome(current_supply, amount, *params),
{
    if amount == 0 {
        return Err(SolSocialError::InvalidAmount);
    }
    if amount > current_supply {
        return Err(SolSocialError::InsufficientSupply);
    }
    let new_supply = current_supply - amount;
    calculate_integral(new_supply, current_supply, params, false)
}

/// The spot price never falls as the supply grows.
pub proof fn lemma_spot_price_monotone(s1: u64, s2: u64, p: BondingCurveParams)
    requires
        s1 < s2,
        p.curve_factor > 0,
    ensures
        spot_price(s2 as int, p) >= spot_price(s1 as int, p),
        price_outcome(s1, p) is Ok && price_outcome(s2, p) is Ok ==> price_outcome(s2, p)->Ok_0 >= price_outcome(
            s1,
            p,
        )->Ok_0,
{
    assert(s1 * s1 <= s2 * s2) by (nonlinear_arith)
        requires
            0 <= s1 < s2,
    ;
    vstd::arithmetic::div_mod::lemma_div_is_ordered(s1 * s1, s2 * s2, p.curve_factor as int);
}

/// Buying `n > 0` units at a positive supply `s` costs strictly more than
/// selling `n` units at `s` brings in: the curve is worth more above `s`
/// than below, and the buy side rounds up while the sell side rounds down.
pub proof fn lemma_buy_cost_exceeds_sell_proceeds(s: u64, n: u64, p: BondingCurveParams)
    requires
        s > 0,
        buy_cost_outcome(s, n, p) is Ok,
        sell_proceeds_outcome(s, n, p) is Ok,
    ensures
        buy_cost_outcome(s, n, p)->Ok_0 > sell_proceeds_outcome(s, n, p)->Ok_0,
{
    let x = s as int;
    let k = n as int;
    let d = 3 * p.curve_factor;
    let above = cube(x + k) - cube(x);
    let below = cube(x) - cube(x - k);
    assert(above > below) by (nonlinear_arith)
        requires
            1 <= k <= x,
            above == (x + k) * (x + k) * (x + k) - x * x * x,
            below == x * x * x - (x - k) * (x - k) * (x - k),
    ;
    lemma_cube_monotone(x - k, x);
    lemma_div_round_bounds(above, d, true);
    lemma_div_round_bounds(below, d, false);
    let hi = div_round(above, d, true);
    let lo = div_round(below, d, false);
    assert(hi > lo) by (nonlinear_arith)
        requires
            hi * d >= above,
            lo * d <= below,
            above > below,
            d > 0,
    ;
}

/// Buying `n` units and selling them straight back moves along the same
/// stretch of the curve, paid rounded up and refunded rounded down: the
/// proceeds never exceed the cost.
pub proof fn lemma_round_trip_on_curve(s: u64, n: u64, p: BondingCurveParams)
    requires
        buy_cost_outcome(s, n, p) is Ok,
    ensures
        s + n <= u64::MAX,
        sell_proceeds_outcome((s + n) as u64, n, p) is Ok,
        sell_proceeds_outcome((s + n) as u64, n, p)->Ok_0 <= buy_cost_outcome(s, n, p)->Ok_0,
{
    let x = cube(s + n) - cube(s as int);
    lemma_cube_monotone(s as int, s + n);
    lemma_div_round_bounds(x, 3 * p.curve_factor, true);
    lemma_div_round_bounds(x, 3 * p.curve_factor, false);
    lemma_integral_at_least_linear(s as int, s + n, p, false);
}

/// For a fixed amount, buying later never costs less: the stretch of the
/// curve above a larger supply is worth at least as much.
pub proof fn lemma_buy_cost_monotone_in_supply(s1: u64, s2: u64, n: u64, p: BondingCurveParams)
    requires
        s1 <= s2,
        buy_cost_outcome(s1, n, p) is Ok,
        buy_cost_outcome(s2, n, p) is Ok,
    ensures
        buy_cost_outcome(s1, n, p)->Ok_0 <= buy_cost_outcome(s2, n, p)->Ok_0,
{
    let a = s1 as int;
    let b = s2 as int;
    let k = n as int;
    let x = cube(a + k) - cube(a);
    let y = cube(b + k) - cube(b);
    assert(x == 3 * (a * a * k) + 3 * (a * k * k) + k * k * k) by (nonlinear_arith)
        requires
            x == (a + k) * (a + k) * (a + k) - a * a * a,
    ;
    assert(y == 3 * (b * b * k) + 3 * (b * k * k) + k * k * k) by (nonlinear_arith)
        requires
            y == (b + k) * (b + k) * (b + k) - b * b * b,
    ;
    assert(0 <= a * a <= b * b) by (nonlinear_arith)
        requires
            0 <= a <= b,
    ;
    assert(0 <= a * a * k <= b * b * k) by (nonlinear_arith)
        requires
            0 <= a * a <= b * b,
            k >= 0,
    ;
    assert(0 <= k * k) by (nonlinear_arith);
    assert(0 <= a * k * k <= b * k * k) by (nonlinear_arith)
        requires
            0 <= a <= b,
            k * k >= 0,
    ;
    assert(0 <= k * k * k) by (nonlinear_arith)
        requires
            k >= 0,
    ;
    lemma_div_round_monotone(x, y, 3 * p.curve_factor, true);
}

/// Market capitalisation: supply times the spot price at that supply.
pub fn calculate_market_cap(supply: u64, params: &BondingCurveParams) -> (r: Result<u64, SolSocialError>)
    ensures
        r == market_cap_outcome(supply, *params),
{
    let price = calculate_price(supply, params)?;
    mul_u64(supply, price)
}

/// Largest number of units that `sol_amount` buys at `current_supply`,
/// found by binary search over the guarded buy cost.
///
/// The search runs up to the room left below the cap and the budget itself;
/// on a curve with a positive base price nothing beyond that is affordable.
pub fn calculate_tokens_for_sol(current_supply: u64, sol_amount: u64, params: &BondingCurveParams) -> (r:
    Result<u64, SolSocialError>)
    ensures
        sol_amount == 0 ==> r == Err::<u64, SolSocialError>(SolSocialError::InvalidAmount),
        sol_amount > 0 ==> r is Ok,
        r matches Ok(n) ==> {
            &&& n <= search_bound(current_supply, sol_amount, *params)
            &&& (n > 0 ==> affordable(current_supply, n, sol_amount, *params))
            &&& forall|m: u64|
                n < m <= search_bound(current_supply, sol_amount, *params) ==> !affordable(
                    current_supply,
                    m,
                    sol_amount,
                    *params,
                )
            &&& params.base_price > 0 ==> forall|m: u64|
                n < m ==> !affordable(current_supply, m, sol_amount, *params)
        },
{
    if sol_amount == 0 {
        return Err(SolSocialError::InvalidAmount);
    }
    let room = params.max_supply.saturating_sub(current_supply);
    let bound = if room < sol_amount { room } else { sol_amount };
    let mut low: u64 = 1;
    let mut high: u64 = bound;
    let mut result: u64 = 0;
    while low <= high
        invariant
            bound == search_bound(current_supply, sol_amount, *params),
            1 <= low,
            high <= bound,
            result + 1 == low,
            low <= high + 1,
            result > 0 ==> affordable(current_supply, result, sol_amount, *params),
            forall|m: u64| high < m <= bound ==> !affordable(current_supply, m, sol_amount, *params),
        decreases high + 1 - low,
    {
        let mid = low + (high - low) / 2;
        let ok = match calculate_buy_cost(current_supply, mid, params) {
            Ok(cost) => cost <= sol_amount,
            Err(_) => false,
        };
        if ok {
            proof {
                lemma_affordable_small(current_supply, mid, sol_amount, *params);
                assert forall|m: u64| high < m <= bound implies !affordable(
                    current_supply,
                    m,
                    sol_amount,
                    *params,
                ) by {}
            }
            result = mid;
            low = mid + 1;
        } else {
            proof {
                assert forall|m: u64| mid <= m <= bound implies !affordable(
                    current_supply,
                    m,
                    sol_amount,
                    *params,
                ) by {
                    if m <= high {
                        if affordable(current_supply, m, sol_amount, *params) {
                            lemma_affordable_downward(current_supply, mid, m, sol_amount, *params);
                        }
                    }
                }
            }
            high = mid - 1;
        }
    }
    proof {
        if params.base_price > 0 {
            assert forall|m: u64| result < m implies !affordable(current_supply, m, sol_amount, *params) by {
                if m > bound {
                    lemma_beyond_bound_unaffordable(current_supply, m, sol_amount, *params);
                }
            }
        }
    }
    Ok(result)
}

/// Relative move of the spot price caused by a trade of `trade_amount`
/// units, scaled by `PRICE_PRECISION`.
pub fn calculate_price_impact(
    current_supply: u64,
    trade_amount: u64,
    is_buy: bool,
    params: &BondingCurveParams,
) -> (r: Result<u64, SolSocialError>)
    ensures
        r == price_impact_outcome(current_supply, trade_amount, is_buy, *params),
{
    let current_price = calculate_price(current_supply, params)?;
    let new_supply = if is_buy {
        match current_supply.checked_add(trade_amount) {
            Some(v) => v,
            None => {
                return Err(SolSocialError::MathOverflow);
            },
        }
    } else {
        sub_u64(current_supply, trade_amount)?
    };
    let new_price = calculate_price(new_supply, params)?;
    let price_diff = if new_price > current_price {
        new_price - current_price
    } else {
        current_price - new_price
    };
    let scaled = mul_u64(price_diff, PRICE_PRECISION)?;
    div_u64(scaled, current_price)
}

/// Fee on a trade of value `trade_value`: `base_fee_bps` basis points, plus
/// a surcharge of a tenth of the price impact beyond 1%.
pub fn calculate_trading_fee(trade_value: u64, price_impact: u64, base_fee_bps: u64) -> (r: Result<
    u64,
    SolSocialError,
>)
    ensures
        r == trading_fee_outcome(trade_value, price_impact, base_fee_bps),
{
    let base_fee = mul_u64(trade_value, base_fee_bps)? / 10_000;
    let impact_fee = if price_impact > IMPACT_FEE_THRESHOLD {
        let excess_impact = price_impact - IMPACT_FEE_THRESHOLD;
        mul_u64(trade_value, excess_impact)? / IMPACT_FEE_DIVISOR
    } else {
        0
    };
    add_u64(base_fee, impact_fee)
}

/// Accepts the parameters of a curve that can be traded on.
pub fn validate_curve_params(params: &BondingCurveParams) -> (r: Result<(), SolSocialError>)
    ensures
        valid_curve_params(*params) ==> r is Ok,
        !valid_curve_params(*params) ==> r == Err::<(), SolSocialError>(SolSocialError::InvalidCurveParams),
{
    if params.base_price == 0 || params.curve_factor == 0 || params.max_supply == 0 {
        return Err(SolSocialError::InvalidCurveParams);
    }
    let m = params.max_supply;
    proof {
        let big: int = u64::MAX as int;
        let q: int = big / (m as int);
        let rem: int = big % (m as int);
        vstd::arithmetic::div_mod::lemma_fundamental_div_mod(big, m as int);
        vstd::arithmetic::div_mod::lemma_mod_bound(big, m as int);
        assert(m <= q <==> m * m <= big) by (nonlinear_arith)
            requires
                m >= 1,
                big == m * q + rem,
                0 <= rem < m,
        ;
    }
    if m > u64::MAX / m {
        return Err(SolSocialError::InvalidCurveParams);
    }
    Ok(())
}

} // verus!
