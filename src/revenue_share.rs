//! Percentage-based revenue sharing and the rewards-per-unit accumulator.
//!
//! A payment enters a pool; the creator and the platform take whole-percent
//! shares, and the rest accrues to holders through a fixed-point
//! accumulator, so that no payment has to visit every holder.
use vstd::prelude::*;

use crate::arith::{add_u64, div_u64, mul_div_floor, mul_u64, sub_u64};
use crate::error::SolSocialError;

verus! {

/// Fixed-point scale of the rewards-per-unit accumulator.
pub const REWARD_PRECISION: u64 = 1_000_000;

/// Revenue collected for one creator, waiting to be shared out.
#[derive(Debug, Clone, Copy, PartialEq, Eq, Structural)]
pub struct RevenuePool {
    pub pending_revenue: u64,
    pub total_distributed: u64,
    pub holder_rewards_pool: u64,
    pub platform_fee_percentage: u8,
    pub last_distribution_timestamp: i64,
}

/// What one distribution pays out: the creator's and the platform's
/// transfers, and what moved into the holders' pool.
#[derive(Debug, Clone, Copy, PartialEq, Eq, Structural)]
pub struct RevenuePayout {
    pub creator_share: u64,
    pub platform_share: u64,
    pub holder_rewards: u64,
}

/// `pct` percent of `total`, floored; any valid percentage of any total
/// can be had.
pub open spec fn share_outcome(total: u64, pct: u8) -> Result<u64, SolSocialError> {
    if pct > 100 {
        Err(SolSocialError::InvalidSharePercentage)
    } else {
        Ok((total * pct / 100) as u64)
    }
}

/// Both percentages are valid and leave a non-negative remainder.
pub open spec fn valid_share_percentages(creator_pct: u8, platform_pct: u8) -> bool {
    creator_pct <= 100 && platform_pct <= 100 && creator_pct + platform_pct <= 100
}

/// What `calculate_holder_rewards` returns: what is left of `total` once the
/// creator and the platform have taken their shares.
pub open spec fn holder_rewards_outcome(total: u64, creator_pct: u8, platform_pct: u8) -> Result<
    u64,
    SolSocialError,
> {
    match share_outcome(total, creator_pct) {
        Err(e) => Err(e),
        Ok(c) => match share_outcome(total, platform_pct) {
            Err(e) => Err(e),
            Ok(p) => if c + p > total {
                Err(SolSocialError::MathUnderflow)
            } else {
                Ok((total - c - p) as u64)
            },
        },
    }
}

/// What `calculate_individual_holder_reward` returns: the holder's
/// pro-rata part of `total`, floored.
pub open spec fn individual_reward_outcome(total: u64, balance: u64, supply: u64) -> Result<
    u64,
    SolSocialError,
> {
    if supply == 0 {
        Err(SolSocialError::InvalidTokenSupply)
    } else if total * balance > u64::MAX {
        Err(SolSocialError::MathOverflow)
    } else {
        Ok((total * balance / (supply as int)) as u64)
    }
}

/// What `calculate_tip_distribution` returns: creator, platform and holder
/// parts of a tip.
pub open spec fn tip_outcome(tip: u64, creator_pct: u8, platform_pct: u8) -> Result<
    (u64, u64, u64),
    SolSocialError,
> {
    if !valid_share_percentages(creator_pct, platform_pct) {
        Err(SolSocialError::InvalidSharePercentage)
    } else {
        let c = tip * creator_pct / 100;
        let p = tip * platform_pct / 100;
        Ok((c as u64, p as u64, (tip - c - p) as u64))
    }
}

/// Accumulator after `new_rewards` enter a pool of `supply` units.
pub open spec fn accrued(rewards_per_token: int, new_rewards: int, supply: int) -> int {
    rewards_per_token + new_rewards * REWARD_PRECISION / supply
}

/// What a holder of `balance` units has earned since the checkpoint.
pub open spec fn claimable(balance: int, rewards_per_token: int, checkpoint: int) -> int {
    balance * (rewards_per_token - checkpoint) / (REWARD_PRECISION as int)
}

/// What `update_rewards_per_token` returns.
pub open spec fn update_rewards_outcome(current: u64, new_rewards: u64, supply: u64) -> Result<
    u64,
    SolSocialError,
> {
    if supply == 0 {
        Err(SolSocialError::InvalidTokenSupply)
    } else if new_rewards * REWARD_PRECISION > u64::MAX {
        Err(SolSocialError::MathOverflow)
    } else if accrued(current as int, new_rewards as int, supply as int) > u64::MAX {
        Err(SolSocialError::MathOverflow)
    } else {
        Ok(accrued(current as int, new_rewards as int, supply as int) as u64)
    }
}

/// What `calculate_accumulated_rewards` returns.
pub open spec fn accumulated_rewards_outcome(balance: u64, supply: u64, rewards_per_token: u64, checkpoint: u64) -> Result<
    u64,
    SolSocialError,
> {
    if supply == 0 {
        Err(SolSocialError::InvalidTokenSupply)
    } else if checkpoint > rewards_per_token {
        Err(SolSocialError::MathUnderflow)
    } else if balance * (rewards_per_token - checkpoint) > u64::MAX {
        Err(SolSocialError::MathOverflow)
    } else {
        Ok(claimable(balance as int, rewards_per_token as int, checkpoint as int) as u64)
    }
}

/// Two valid whole-percent shares never exceed the total.
pub proof fn lemma_percent_shares_fit(total: u64, creator_pct: u8, platform_pct: u8)
    requires
        valid_share_percentages(creator_pct, platform_pct),
    ensures
        0 <= total * creator_pct / 100,
        0 <= total * platform_pct / 100,
        total * creator_pct / 100 + total * platform_pct / 100 <= total,
{
    let t = total as int;
    let c = creator_pct as int;
    let p = platform_pct as int;
    assert(t * c >= 0 && t * p >= 0 && t * c + t * p <= t * 100) by (nonlinear_arith)
        requires
            t >= 0,
            c >= 0,
            p >= 0,
            c + p <= 100,
    ;
    vstd::arithmetic::div_mod::lemma_fundamental_div_mod(t * c, 100);
    vstd::arithmetic::div_mod::lemma_fundamental_div_mod(t * p, 100);
    vstd::arithmetic::div_mod::lemma_mod_bound(t * c, 100);
    vstd::arithmetic::div_mod::lemma_mod_bound(t * p, 100);
}

/// The creator's whole-percent share of `total_revenue`.
pub fn calculate_creator_share(total_revenue: u64, creator_share_percentage: u8) -> (r: Result<
    u64,
    SolSocialError,
>)
    ensures
        r == share_outcome(total_revenue, creator_share_percentage),
{
    if creator_share_percentage > 100 {
        return Err(SolSocialError::InvalidSharePercentage);
    }
    Ok(mul_div_floor(total_revenue, creator_share_percentage as u64, 100))
}

/// The platform's whole-percent share of `total_revenue`.
pub fn calculate_platform_share(total_revenue: u64, platform_fee_percentage: u8) -> (r: Result<
    u64,
    SolSocialError,
>)
    ensures
        r == share_outcome(total_revenue, platform_fee_percentage),
{
    if platform_fee_percentage > 100 {
        return Err(SolSocialError::InvalidSharePercentage);
    }
    Ok(mul_div_floor(total_revenue, platform_fee_percentage as u64, 100))
}

/// What remains of `total_revenue` for the holders.
pub fn calculate_holder_rewards(total_revenue: u64, creator_share_percentage: u8, platform_fee_percentage: u8) -> (r:
    Result<u64, SolSocialError>)
    ensures
        r == holder_rewards_outcome(total_revenue, creator_share_percentage, platform_fee_percentage),
        valid_share_percentages(creator_share_percentage, platform_fee_percentage) ==> r is Ok && (total_revenue
            * creator_share_percentage / 100) + (total_revenue * platform_fee_percentage / 100) + r->Ok_0
            == total_revenue,
{
    proof {
        if valid_share_percentages(creator_share_percentage, platform_fee_percentage) {
            lemma_percent_shares_fit(total_revenue, creator_share_percentage, platform_fee_percentage);
        }
    }
    let creator_share = calculate_creator_share(total_revenue, creator_share_percentage)?;
    let platform_share = calculate_platform_share(total_revenue, platform_fee_percentage)?;
    let rest = sub_u64(total_revenue, creator_share)?;
    sub_u64(rest, platform_share)
}

/// One holder's pro-rata part of `total_holder_rewards`.
pub fn calculate_individual_holder_reward(
    total_holder_rewards: u64,
    holder_token_balance: u64,
    total_token_supply: u64,
) -> (r: Result<u64, SolSocialError>)
    ensures
        r == individual_reward_outcome(total_holder_rewards, holder_token_balance, total_token_supply),
{
    if total_token_supply == 0 {
        return Err(SolSocialError::InvalidTokenSupply);
    }
    let scaled = mul_u64(total_holder_rewards, holder_token_balance)?;
    div_u64(scaled, total_token_supply)
}

/// The pro-rata part of `total_rewards` of each listed balance, in order;
/// fails as the first holder whose part cannot be computed.
pub fn calculate_holder_reward_amounts(total_rewards: u64, holder_balances: &Vec<u64>, total_supply: u64) -> (r:
    Result<Vec<u64>, SolSocialError>)
    ensures
        total_supply == 0 ==> r == Err::<Vec<u64>, SolSocialError>(SolSocialError::InvalidTokenSupply),
        total_supply > 0 && (exists|i: int|
            0 <= i < holder_balances@.len() && total_rewards * #[trigger] holder_balances@[i] > u64::MAX)
            ==> r == Err::<Vec<u64>, SolSocialError>(SolSocialError::MathOverflow),
        r matches Ok(amounts) ==> {
            &&& amounts@.len() == holder_balances@.len()
            &&& forall|i: int|
                0 <= i < amounts@.len() ==> individual_reward_outcome(total_rewards, holder_balances@[i], total_supply)
                    == Ok::<u64, SolSocialError>(#[trigger] amounts@[i])
        },
        total_supply > 0 && (forall|i: int|
            0 <= i < holder_balances@.len() ==> total_rewards * #[trigger] holder_balances@[i] <= u64::MAX)
            ==> r is Ok,
{
    if total_supply == 0 {
        return Err(SolSocialError::InvalidTokenSupply);
    }
    let mut amounts: Vec<u64> = Vec::new();
    let mut i: usize = 0;
    while i < holder_balances.len()
        invariant
            total_supply > 0,
            i <= holder_balances@.len(),
            amounts@.len() == i,
            forall|j: int|
                0 <= j < i ==> individual_reward_outcome(total_rewards, holder_balances@[j], total_supply)
                    == Ok::<u64, SolSocialError>(#[trigger] amounts@[j]),
            forall|j: int| 0 <= j < i ==> total_rewards * #[trigger] holder_balances@[j] <= u64::MAX,
        decreases holder_balances@.len() - i,
    {
        let amount = calculate_individual_holder_reward(total_rewards, holder_balances[i], total_supply)?;
        amounts.push(amount);
        i = i + 1;
    }
    Ok(amounts)
}

/// Creator, platform and holder parts of a tip, in that order.
pub fn calculate_tip_distribution(tip_amount: u64, creator_tip_percentage: u8, platform_tip_fee: u8) -> (r:
    Result<(u64, u64, u64), SolSocialError>)
    ensures
        r == tip_outcome(tip_amount, creator_tip_percentage, platform_tip_fee),
        r matches Ok(parts) ==> parts.0 + parts.1 + parts.2 == tip_amount,
{
    validate_revenue_distribution_params(creator_tip_percentage, platform_tip_fee)?;
    let creator_share = calculate_creator_share(tip_amount, creator_tip_percentage)?;
    let platform_share = calculate_platform_share(tip_amount, platform_tip_fee)?;
    proof {
        let t = tip_amount as int;
        let c = creator_tip_percentage as int;
        let p = platform_tip_fee as int;
        vstd::arithmetic::div_mod::lemma_fundamental_div_mod(t * c, 100);
        vstd::arithmetic::div_mod::lemma_fundamental_div_mod(t * p, 100);
        vstd::arithmetic::div_mod::lemma_mod_bound(t * c, 100);
        vstd::arithmetic::div_mod::lemma_mod_bound(t * p, 100);
        assert(t * c + t * p <= t * 100) by (nonlinear_arith)
            requires
                t >= 0,
                c + p <= 100,
        ;
    }
    let holder_share = tip_amount - creator_share - platform_share;
    Ok((creator_share, platform_share, holder_share))
}

/// Accepts whole-percent shares that leave a non-negative remainder.
pub fn validate_revenue_distribution_params(creator_share_percentage: u8, platform_fee_percentage: u8) -> (r:
    Result<(), SolSocialError>)
    ensures
        valid_share_percentages(creator_share_percentage, platform_fee_percentage) ==> r is Ok,
        !valid_share_percentages(creator_share_percentage, platform_fee_percentage) ==> r == Err::<
            (),
            SolSocialError,
        >(SolSocialError::InvalidSharePercentage),
{
    if creator_share_percentage > 100 || platform_fee_percentage > 100 {
        return Err(SolSocialError::InvalidSharePercentage);
    }
    if creator_share_percentage + platform_fee_percentage > 100 {
        return Err(SolSocialError::InvalidSharePercentage);
    }
    Ok(())
}

/// Rewards a holder of `holder_balance` units has earned since the
/// checkpoint `last_claimed_rewards_per_token`.
pub fn calculate_accumulated_rewards(
    holder_balance: u64,
    total_supply: u64,
    rewards_per_token: u64,
    last_claimed_rewards_per_token: u64,
) -> (r: Result<u64, SolSocialError>)
    ensures
        r == accumulated_rewards_outcome(holder_balance, total_supply, rewards_per_token, last_claimed_rewards_per_token),
{
    if total_supply == 0 {
        return Err(SolSocialError::InvalidTokenSupply);
    }
    let delta = sub_u64(rewards_per_token, last_claimed_rewards_per_token)?;
    let scaled = mul_u64(holder_balance, delta)?;
    div_u64(scaled, REWARD_PRECISION)
}

/// The accumulator after `new_rewards` enter a pool of `total_supply` units.
pub fn update_rewards_per_token(current_rewards_per_token: u64, new_rewards: u64, total_supply: u64) -> (r:
    Result<u64, SolSocialError>)
    ensures
        r == update_rewards_outcome(current_rewards_per_token, new_rewards, total_supply),
{
    if total_supply == 0 {
        return Err(SolSocialError::InvalidTokenSupply);
    }
    let scaled = mul_u64(new_rewards, REWARD_PRECISION)?;
    let increase = div_u64(scaled, total_supply)?;
    add_u64(current_rewards_per_token, increase)
}

/// What `process_revenue_distribution` does to `pool` and pays out.
pub open spec fn revenue_distribution_outcome(pool: RevenuePool, creator_pct: u8, now: i64) -> Result<
    (RevenuePool, RevenuePayout),
    SolSocialError,
> {
    let total = pool.pending_revenue;
    if total == 0 {
        Err(SolSocialError::NoRevenueToDistribute)
    } else {
        match share_outcome(total, creator_pct) {
            Err(e) => Err(e),
            Ok(c) => match share_outcome(total, pool.platform_fee_percentage) {
                Err(e) => Err(e),
                Ok(p) => match holder_rewards_outcome(total, creator_pct, pool.platform_fee_percentage) {
                    Err(e) => Err(e),
                    Ok(h) => if pool.total_distributed + total > u64::MAX {
                        Err(SolSocialError::MathOverflow)
                    } else if pool.holder_rewards_pool + h > u64::MAX {
                        Err(SolSocialError::MathOverflow)
                    } else {
                        Ok(
                            (
                                RevenuePool {
                                    pending_revenue: 0,
                                    total_distributed: (pool.total_distributed + total) as u64,
                                    holder_rewards_pool: (pool.holder_rewards_pool + h) as u64,
                                    last_distribution_timestamp: now,
                                    ..pool
                                },
                                RevenuePayout { creator_share: c, platform_share: p, holder_rewards: h },
                            ),
                        )
                    },
                },
            },
        }
    }
}

/// Shares out the pending revenue of `revenue_pool`: the creator and the
/// platform get their percentages (the host transfers them), the rest moves
/// into the holders' pool, and the pool records the distribution at `now`.
/// On failure the pool is left as it was.
pub fn process_revenue_distribution(revenue_pool: &mut RevenuePool, creator_share_percentage: u8, now: i64) -> (r:
    Result<RevenuePayout, SolSocialError>)
    ensures
        r matches Ok(payout) ==> revenue_distribution_outcome(*old(revenue_pool), creator_share_percentage, now)
            == Ok::<(RevenuePool, RevenuePayout), SolSocialError>((*final(revenue_pool), payout)),
        r matches Err(e) ==> revenue_distribution_outcome(*old(revenue_pool), creator_share_percentage, now)
            == Err::<(RevenuePool, RevenuePayout), SolSocialError>(e) && *final(revenue_pool) == *old(
            revenue_pool,
        ),
{
    let total_revenue = revenue_pool.pending_revenue;
    if total_revenue == 0 {
        return Err(SolSocialError::NoRevenueToDistribute);
    }
    let creator_share = calculate_creator_share(total_revenue, creator_share_percentage)?;
    let platform_share = calculate_platform_share(total_revenue, revenue_pool.platform_fee_percentage)?;
    let holder_rewards = calculate_holder_rewards(
        total_revenue,
        creator_share_percentage,
        revenue_pool.platform_fee_percentage,
    )?;
    let total_distributed = add_u64(revenue_pool.total_distributed, total_revenue)?;
    let holder_rewards_pool = add_u64(revenue_pool.holder_rewards_pool, holder_rewards)?;
    revenue_pool.total_distributed = total_distributed;
    revenue_pool.pending_revenue = 0;
    revenue_pool.holder_rewards_pool = holder_rewards_pool;
    revenue_pool.last_distribution_timestamp = now;
    Ok(RevenuePayout { creator_share, platform_share, holder_rewards })
}

/// Pull-based accrual is proportional: a holder whose balance `b` stays the
/// same while `r1` and then `r2` are distributed over an unchanged supply `t`
/// can claim `b * (r1 + r2) / t`, less at most one unit plus the two
/// accumulator roundings (`2 * b / REWARD_PRECISION`), and never more.
pub proof fn lemma_accrual_is_proportional(
    b: u64,
    t: u64,
    r1: u64,
    r2: u64,
    checkpoint: u64,
    rpt1: u64,
    rpt2: u64,
    claim: u64,
)
    requires
        update_rewards_per_token_spec_ok(checkpoint, r1, t, rpt1),
        update_rewards_per_token_spec_ok(rpt1, r2, t, rpt2),
        accumulated_rewards_outcome(b, t, rpt2, checkpoint) == Ok::<u64, SolSocialError>(claim),
    ensures
        claim * t <= b * (r1 + r2),
        b * (r1 + r2) * REWARD_PRECISION < (claim + 1) * t * REWARD_PRECISION + 2 * b * t,
{
    let pr = REWARD_PRECISION as int;
    let tt = t as int;
    let d1 = r1 * pr / tt;
    let d2 = r2 * pr / tt;
    let delta = b * (d1 + d2);
    vstd::arithmetic::div_mod::lemma_fundamental_div_mod(r1 * pr, tt);
    vstd::arithmetic::div_mod::lemma_fundamental_div_mod(r2 * pr, tt);
    vstd::arithmetic::div_mod::lemma_mod_bound(r1 * pr, tt);
    vstd::arithmetic::div_mod::lemma_mod_bound(r2 * pr, tt);
    vstd::arithmetic::div_mod::lemma_fundamental_div_mod(delta, pr);
    vstd::arithmetic::div_mod::lemma_mod_bound(delta, pr);
    assert(rpt2 - checkpoint == d1 + d2);
    assert(claim == delta / pr);
    let m1 = (r1 * pr) % tt;
    let m2 = (r2 * pr) % tt;
    let md = delta % pr;
    assert(claim * tt <= b * (r1 + r2)) by (nonlinear_arith)
        requires
            r1 * pr == tt * d1 + m1,
            r2 * pr == tt * d2 + m2,
            0 <= m1 < tt,
            0 <= m2 < tt,
            delta == b * (d1 + d2),
            delta == pr * claim + md,
            0 <= md < pr,
            b >= 0,
            tt > 0,
            pr > 0,
            claim >= 0,
    ;
    assert(b * (r1 + r2) * pr < (claim + 1) * tt * pr + 2 * b * tt) by (nonlinear_arith)
        requires
            r1 * pr == tt * d1 + m1,
            r2 * pr == tt * d2 + m2,
            0 <= m1 < tt,
            0 <= m2 < tt,
            delta == b * (d1 + d2),
            delta == pr * claim + md,
            0 <= md < pr,
            b >= 0,
            tt > 0,
            pr > 0,
    ;
}

/// `update_rewards_per_token(current, new_rewards, supply)` returns `Ok(next)`.
pub open spec fn update_rewards_per_token_spec_ok(current: u64, new_rewards: u64, supply: u64, next: u64) -> bool {
    update_rewards_outcome(current, new_rewards, supply) == Ok::<u64, SolSocialError>(next)
}

} // verus!
