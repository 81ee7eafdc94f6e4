//! Ledger mutator: validates a request, prices it on the asset's curve,
//! splits the fees, and applies every change at once, or none.
use vstd::prelude::*;

use crate::arith::{add_u64, div_u64, mul_u64, sub_u64};
use crate::bonding_curve::{
    buy_cost_outcome, calculate_buy_cost, calculate_sell_proceeds, lemma_round_trip_on_curve,
    sell_proceeds_outcome, validate_curve_params, valid_curve_params, BondingCurveParams,
};
use crate::error::SolSocialError;
use crate::fees::{lemma_bps_bounds, split_fees, split_of, valid_fee_config, validate_fee_config, FeeConfig};
use crate::key_curve::{get_price, get_sell_price, key_buy_outcome, key_sell_outcome};
use crate::revenue_share::{
    accumulated_rewards_outcome, claimable, lemma_accrual_is_proportional, update_rewards_outcome,
    update_rewards_per_token, update_rewards_per_token_spec_ok, REWARD_PRECISION,
};

verus! {

/// Identifier of a user (creator, holder or actor) in the host's store.
pub type AccountId = u64;

/// The curve an asset is priced on, chosen at creation and never changed.
#[derive(Debug, Clone, Copy, PartialEq, Eq, Structural)]
pub enum CurveKind {
    /// `base_price + s² / curve_factor`, integrated.
    Quadratic,
    /// Unit `i` is worth `i²`, scaled: whole keys.
    SumOfSquares,
}

/// Where the creator's free founding unit stands.
#[derive(Debug, Clone, Copy, PartialEq, Eq, Structural)]
pub enum FoundingUnit {
    /// No unit has been minted yet: the creator may still take the first
    /// one for free.
    Unminted,
    /// The creator's free unit is among the units out. It brought nothing
    /// into the curve, so the sale that empties the supply refunds it at
    /// nothing.
    HeldFree,
    /// The free unit is no longer on offer, and none is outstanding.
    Settled,
}

/// One creator's tradable asset.
#[derive(Debug, Clone, Copy, PartialEq, Eq, Structural)]
pub struct Asset {
    pub creator_id: AccountId,
    pub total_supply: u64,
    pub curve: CurveKind,
    pub curve_params: BondingCurveParams,
    pub fee_config: FeeConfig,
    pub accumulated_protocol_fees: u64,
    pub accumulated_creator_fees: u64,
    /// Holder rewards that arrived while nobody held a unit.
    pub pending_creator_rewards: u64,
    /// Rewards per unit held, scaled by `REWARD_PRECISION`.
    pub rewards_per_unit: u64,
    /// Gross value of all trades on this asset.
    pub total_volume: u64,
    pub founding: FoundingUnit,
    pub is_active: bool,
    pub created_at: i64,
}

/// Platform-wide totals, changed only by the ledger's trades.
#[derive(Debug, Clone, Copy, PartialEq, Eq, Structural)]
pub struct PlatformState {
    pub total_volume: u64,
    pub total_protocol_fees: u64,
    pub total_trades: u64,
}

/// One holder's position in one asset.
#[derive(Debug, Clone, Copy, PartialEq, Eq, Structural)]
pub struct Holding {
    pub holder_id: AccountId,
    pub asset_id: AccountId,
    pub balance: u64,
    pub total_spent: u64,
    pub total_earned: u64,
    /// Rewards settled at earlier balance changes and not yet claimed.
    pub unclaimed_rewards: u64,
    pub last_claimed_rewards_per_unit: u64,
    pub first_acquired_at: i64,
    pub last_trade_at: i64,
}

#[derive(Debug, Clone, Copy, PartialEq, Eq, Structural)]
pub enum Direction {
    Buy,
    Sell,
}

/// Settlement record of one trade. `holder_reward` is what is left of the
/// gross price after the two fees: on a buy it backs the curve, on a sell it
/// is paid to the seller.
#[derive(Debug, Clone, Copy, PartialEq, Eq, Structural)]
pub struct Trade {
    pub trader_id: AccountId,
    pub asset_id: AccountId,
    pub direction: Direction,
    pub amount: u64,
    pub gross_price: u64,
    pub protocol_fee: u64,
    pub creator_fee: u64,
    pub holder_reward: u64,
    /// Settled holder rewards paid out with a sale that empties the
    /// holding; zero otherwise.
    pub rewards_paid: u64,
    pub supply_after: u64,
    pub timestamp: i64,
}

#[derive(Debug, Clone, Copy, PartialEq, Eq, Structural)]
pub enum EngagementKind {
    Like,
    Share,
    Tip,
    Comment,
}

/// Record of one engagement payment.
#[derive(Debug, Clone, Copy, PartialEq, Eq, Structural)]
pub struct EngagementReward {
    pub actor_id: AccountId,
    pub creator_id: AccountId,
    pub kind: EngagementKind,
    pub reward_amount: u64,
    pub protocol_fee: u64,
    pub creator_fee: u64,
    /// What went to the holders (or to the creator's bucket while nobody
    /// holds a unit).
    pub holder_reward: u64,
    pub timestamp: i64,
}

/// The asset's invariant: a tradable curve, a valid fee split, a supply
/// within the cap, and a free founding unit only while units are out.
pub open spec fn asset_wf(a: Asset) -> bool {
    &&& valid_curve_params(a.curve_params)
    &&& valid_fee_config(a.fee_config)
    &&& a.total_supply <= a.curve_params.max_supply
    &&& a.founding == FoundingUnit::HeldFree ==> a.total_supply >= 1
}

/// The creator's founding unit: the very first unit ever minted for the
/// asset, bought by its creator, is free.
pub open spec fn founding_unit(a: Asset, buyer: AccountId, n: u64) -> bool {
    a.founding == FoundingUnit::Unminted && a.total_supply == 0 && n == 1 && buyer == a.creator_id
}

/// What `quote_buy` returns.
pub open spec fn quote_buy_outcome(a: Asset, buyer: AccountId, n: u64) -> Result<u64, SolSocialError> {
    if n == 0 {
        Err(SolSocialError::InvalidAmount)
    } else if a.total_supply + n > a.curve_params.max_supply {
        Err(SolSocialError::SupplyExceedsMax)
    } else if founding_unit(a, buyer, n) {
        Ok(0)
    } else {
        match a.curve {
            CurveKind::Quadratic => buy_cost_outcome(a.total_supply, n, a.curve_params),
            CurveKind::SumOfSquares => key_buy_outcome(a.total_supply, n),
        }
    }
}

/// Proceeds of the top `n` of `s` units on the asset's curve.
pub open spec fn curve_sell_outcome(a: Asset, s: u64, n: u64) -> Result<u64, SolSocialError> {
    match a.curve {
        CurveKind::Quadratic => sell_proceeds_outcome(s, n, a.curve_params),
        CurveKind::SumOfSquares => key_sell_outcome(s, n),
    }
}

/// The sale burns the creator's free founding unit.
pub open spec fn burns_free_unit(a: Asset, n: u64) -> bool {
    a.founding == FoundingUnit::HeldFree && n == a.total_supply
}

/// What `quote_sell` returns. A sale that burns the free founding unit
/// pays nothing for it.
pub open spec fn quote_sell_outcome(a: Asset, n: u64) -> Result<u64, SolSocialError> {
    if n == 0 {
        Err(SolSocialError::InvalidAmount)
    } else if n > a.total_supply {
        Err(SolSocialError::InsufficientSupply)
    } else if burns_free_unit(a, n) {
        if n == 1 {
            Ok(0)
        } else {
            curve_sell_outcome(a, a.total_supply, (n - 1) as u64)
        }
    } else {
        curve_sell_outcome(a, a.total_supply, n)
    }
}

/// Where the founding unit stands after a buy of `n` units by `buyer`.
pub open spec fn founding_after_buy(a: Asset, buyer: AccountId, n: u64) -> FoundingUnit {
    if founding_unit(a, buyer, n) {
        FoundingUnit::HeldFree
    } else if a.founding == FoundingUnit::Unminted {
        FoundingUnit::Settled
    } else {
        a.founding
    }
}

/// Where the founding unit stands after a sale of `n` units.
pub open spec fn founding_after_sell(a: Asset, n: u64) -> FoundingUnit {
    if burns_free_unit(a, n) {
        FoundingUnit::Settled
    } else {
        a.founding
    }
}

/// The platform totals after a trade of gross value `gross` paying
/// `protocol_fee`, or `None` when one of them would overflow.
pub open spec fn platform_after(pl: PlatformState, gross: u64, protocol_fee: u64) -> Option<PlatformState> {
    if pl.total_volume + gross > u64::MAX || pl.total_protocol_fees + protocol_fee > u64::MAX
        || pl.total_trades + 1 > u64::MAX {
        None
    } else {
        Some(
            PlatformState {
                total_volume: (pl.total_volume + gross) as u64,
                total_protocol_fees: (pl.total_protocol_fees + protocol_fee) as u64,
                total_trades: (pl.total_trades + 1) as u64,
            },
        )
    }
}

/// The holding with its rewards up to accumulator value `rpu` settled into
/// `unclaimed_rewards` and its checkpoint moved to `rpu`.
pub open spec fn settled(h: Holding, rpu: u64) -> Result<Holding, SolSocialError> {
    if h.last_claimed_rewards_per_unit > rpu {
        Err(SolSocialError::MathUnderflow)
    } else if h.balance * (rpu - h.last_claimed_rewards_per_unit) > u64::MAX {
        Err(SolSocialError::MathOverflow)
    } else if h.unclaimed_rewards + claimable(h.balance as int, rpu as int, h.last_claimed_rewards_per_unit as int)
        > u64::MAX {
        Err(SolSocialError::MathOverflow)
    } else {
        Ok(
            Holding {
                unclaimed_rewards: (h.unclaimed_rewards + claimable(
                    h.balance as int,
                    rpu as int,
                    h.last_claimed_rewards_per_unit as int,
                )) as u64,
                last_claimed_rewards_per_unit: rpu,
                ..h
            },
        )
    }
}

/// What `buy` does: the new asset, holding and platform totals, and the
/// trade record.
pub open spec fn buy_outcome(a: Asset, h: Holding, pl: PlatformState, n: u64, max_cost: u64, now: i64) -> Result<
    (Asset, Holding, PlatformState, Trade),
    SolSocialError,
> {
    if n == 0 {
        Err(SolSocialError::InvalidAmount)
    } else if h.asset_id != a.creator_id {
        Err(SolSocialError::HoldingMismatch)
    } else if !a.is_active {
        Err(SolSocialError::AssetInactive)
    } else {
        match quote_buy_outcome(a, h.holder_id, n) {
            Err(e) => Err(e),
            Ok(cost) => if cost == 0 && !founding_unit(a, h.holder_id, n) {
                Err(SolSocialError::InvalidPrice)
            } else if cost > max_cost {
                Err(SolSocialError::CostExceeded)
            } else if !valid_fee_config(a.fee_config) {
                Err(SolSocialError::InvalidFeeSplit)
            } else {
                let f = split_of(cost, a.fee_config);
                match settled(h, a.rewards_per_unit) {
                    Err(e) => Err(e),
                    Ok(hs) => if hs.balance + n > u64::MAX || hs.total_spent + cost > u64::MAX
                        || a.accumulated_protocol_fees + f.protocol_fee > u64::MAX
                        || a.accumulated_creator_fees + f.creator_fee > u64::MAX || a.total_volume + cost
                        > u64::MAX || platform_after(pl, cost, f.protocol_fee) is None {
                        Err(SolSocialError::MathOverflow)
                    } else {
                        Ok(
                            (
                                Asset {
                                    total_supply: (a.total_supply + n) as u64,
                                    accumulated_protocol_fees: (a.accumulated_protocol_fees
                                        + f.protocol_fee) as u64,
                                    accumulated_creator_fees: (a.accumulated_creator_fees + f.creator_fee) as u64,
                                    total_volume: (a.total_volume + cost) as u64,
                                    founding: founding_after_buy(a, h.holder_id, n),
                                    ..a
                                },
                                Holding {
                                    balance: (hs.balance + n) as u64,
                                    total_spent: (hs.total_spent + cost) as u64,
                                    first_acquired_at: if h.balance == 0 {
                                        now
                                    } else {
                                        h.first_acquired_at
                                    },
                                    last_trade_at: now,
                                    ..hs
                                },
                                platform_after(pl, cost, f.protocol_fee)->Some_0,
                                Trade {
                                    trader_id: h.holder_id,
                                    asset_id: a.creator_id,
                                    direction: Direction::Buy,
                                    amount: n,
                                    gross_price: cost,
                                    protocol_fee: f.protocol_fee,
                                    creator_fee: f.creator_fee,
                                    holder_reward: f.holder_reward,
                                    rewards_paid: 0,
                                    supply_after: (a.total_supply + n) as u64,
                                    timestamp: now,
                                },
                            ),
                        )
                    },
                }
            },
        }
    }
}

/// The settled rewards paid out with a sale of `n` units from the settled
/// holding `hs`: all of them when the sale empties it, none otherwise.
pub open spec fn rewards_paid_on_sale(hs: Holding, n: u64) -> u64 {
    if hs.balance == n {
        hs.unclaimed_rewards
    } else {
        0
    }
}

/// What `sell` does: the new asset, holding and platform totals, and the
/// trade record.
pub open spec fn sell_outcome(a: Asset, h: Holding, pl: PlatformState, n: u64, min_proceeds: u64, now: i64) -> Result<
    (Asset, Holding, PlatformState, Trade),
    SolSocialError,
> {
    if n == 0 {
        Err(SolSocialError::InvalidAmount)
    } else if h.asset_id != a.creator_id {
        Err(SolSocialError::HoldingMismatch)
    } else if n > h.balance {
        Err(SolSocialError::InsufficientBalance)
    } else if !a.is_active {
        Err(SolSocialError::AssetInactive)
    } else {
        match quote_sell_outcome(a, n) {
            Err(e) => Err(e),
            Ok(gross) => if !valid_fee_config(a.fee_config) {
                Err(SolSocialError::InvalidFeeSplit)
            } else if split_of(gross, a.fee_config).holder_reward < min_proceeds {
                Err(SolSocialError::ProceedsBelowMinimum)
            } else {
                let f = split_of(gross, a.fee_config);
                match settled(h, a.rewards_per_unit) {
                    Err(e) => Err(e),
                    Ok(hs) => if hs.total_earned + f.holder_reward + rewards_paid_on_sale(hs, n) > u64::MAX
                        || a.accumulated_protocol_fees + f.protocol_fee > u64::MAX
                        || a.accumulated_creator_fees + f.creator_fee > u64::MAX || a.total_volume + gross
                        > u64::MAX || platform_after(pl, gross, f.protocol_fee) is None {
                        Err(SolSocialError::MathOverflow)
                    } else {
                        Ok(
                            (
                                Asset {
                                    total_supply: (a.total_supply - n) as u64,
                                    accumulated_protocol_fees: (a.accumulated_protocol_fees
                                        + f.protocol_fee) as u64,
                                    accumulated_creator_fees: (a.accumulated_creator_fees + f.creator_fee) as u64,
                                    total_volume: (a.total_volume + gross) as u64,
                                    founding: founding_after_sell(a, n),
                                    ..a
                                },
                                Holding {
                                    balance: (hs.balance - n) as u64,
                                    total_earned: (hs.total_earned + f.holder_reward + rewards_paid_on_sale(
                                        hs,
                                        n,
                                    )) as u64,
                                    unclaimed_rewards: (hs.unclaimed_rewards - rewards_paid_on_sale(hs, n)) as u64,
                                    last_trade_at: now,
                                    ..hs
                                },
                                platform_after(pl, gross, f.protocol_fee)->Some_0,
                                Trade {
                                    trader_id: h.holder_id,
                                    asset_id: a.creator_id,
                                    direction: Direction::Sell,
                                    amount: n,
                                    gross_price: gross,
                                    protocol_fee: f.protocol_fee,
                                    creator_fee: f.creator_fee,
                                    holder_reward: f.holder_reward,
                                    rewards_paid: rewards_paid_on_sale(hs, n),
                                    supply_after: (a.total_supply - n) as u64,
                                    timestamp: now,
                                },
                            ),
                        )
                    },
                }
            },
        }
    }
}

/// What `distribute_engagement_reward` does to the asset, and its record.
pub open spec fn engagement_outcome(a: Asset, actor_id: AccountId, kind: EngagementKind, reward: u64, now: i64) -> Result<
    (Asset, EngagementReward),
    SolSocialError,
> {
    if reward == 0 {
        Err(SolSocialError::InvalidAmount)
    } else if !a.is_active {
        Err(SolSocialError::AssetInactive)
    } else if !valid_fee_config(a.fee_config) {
        Err(SolSocialError::InvalidFeeSplit)
    } else {
        let f = split_of(reward, a.fee_config);
        if a.accumulated_protocol_fees + f.protocol_fee > u64::MAX || a.accumulated_creator_fees + f.creator_fee
            > u64::MAX {
            Err(SolSocialError::MathOverflow)
        } else if a.total_supply == 0 && a.pending_creator_rewards + f.holder_reward > u64::MAX {
            Err(SolSocialError::MathOverflow)
        } else if a.total_supply > 0 && update_rewards_outcome(a.rewards_per_unit, f.holder_reward, a.total_supply) is Err {
            Err(update_rewards_outcome(a.rewards_per_unit, f.holder_reward, a.total_supply)->Err_0)
        } else {
            let base = Asset {
                accumulated_protocol_fees: (a.accumulated_protocol_fees + f.protocol_fee) as u64,
                accumulated_creator_fees: (a.accumulated_creator_fees + f.creator_fee) as u64,
                ..a
            };
            let next = if a.total_supply == 0 {
                Asset { pending_creator_rewards: (a.pending_creator_rewards + f.holder_reward) as u64, ..base }
            } else {
                Asset {
                    rewards_per_unit: update_rewards_outcome(
                        a.rewards_per_unit,
                        f.holder_reward,
                        a.total_supply,
                    )->Ok_0,
                    ..base
                }
            };
            Ok(
                (
                    next,
                    EngagementReward {
                        actor_id,
                        creator_id: a.creator_id,
                        kind,
                        reward_amount: reward,
                        protocol_fee: f.protocol_fee,
                        creator_fee: f.creator_fee,
                        holder_reward: f.holder_reward,
                        timestamp: now,
                    },
                ),
            )
        }
    }
}

/// What `claim_holder_rewards` pays and leaves in the holding.
pub open spec fn claim_outcome(a: Asset, h: Holding) -> Result<(Holding, u64), SolSocialError> {
    if h.asset_id != a.creator_id {
        Err(SolSocialError::HoldingMismatch)
    } else {
    match settled(h, a.rewards_per_unit) {
        Err(e) => Err(e),
        Ok(hs) => if hs.total_earned + hs.unclaimed_rewards > u64::MAX {
            Err(SolSocialError::MathOverflow)
        } else {
            Ok(
                (
                    Holding {
                        unclaimed_rewards: 0,
                        total_earned: (hs.total_earned + hs.unclaimed_rewards) as u64,
                        ..hs
                    },
                    hs.unclaimed_rewards,
                ),
            )
        },
    }
    }
}

/// No free-money loop: buying `n` units and selling the same `n` units right
/// back never pays the trader more than the purchase cost, and the supply
/// and the trader's balance end where they started. This holds for the
/// creator's free founding unit too, which is refunded at nothing.
pub proof fn lemma_round_trip_never_profits(
    a0: Asset,
    h0: Holding,
    p0: PlatformState,
    n: u64,
    max_cost: u64,
    min_proceeds: u64,
    t1: i64,
    t2: i64,
    a1: Asset,
    h1: Holding,
    p1: PlatformState,
    bought: Trade,
    a2: Asset,
    h2: Holding,
    p2: PlatformState,
    sold: Trade,
)
    requires
        asset_wf(a0),
        buy_outcome(a0, h0, p0, n, max_cost, t1) == Ok::<(Asset, Holding, PlatformState, Trade), SolSocialError>(
            (a1, h1, p1, bought),
        ),
        sell_outcome(a1, h1, p1, n, min_proceeds, t2) == Ok::<
            (Asset, Holding, PlatformState, Trade),
            SolSocialError,
        >((a2, h2, p2, sold)),
    ensures
        sold.gross_price <= bought.gross_price,
        sold.holder_reward <= bought.gross_price,
        a2.total_supply == a0.total_supply,
        h2.balance == h0.balance,
{
    let s = a0.total_supply;
    assert(a1.total_supply == s + n);
    lemma_split_bounded(sold.gross_price, a1.fee_config);
    if founding_unit(a0, h0.holder_id, n) {
        assert(burns_free_unit(a1, n));
    } else {
        assert(!burns_free_unit(a1, n));
        match a0.curve {
            CurveKind::Quadratic => {
                lemma_round_trip_on_curve(s, n, a0.curve_params);
            },
            CurveKind::SumOfSquares => {
                if s == 0 && n == 1 {
                    assert(bought.gross_price == 0);
                } else {
                    assert(quote_sell_outcome(a1, n) == quote_buy_outcome(a0, h0.holder_id, n));
                }
            },
        }
    }
}

/// Engagement rewards reach holders in proportion to their balance: a holder
/// of `b` units, settled at the accumulator's current value, who keeps that
/// balance while two payments leave holder parts `g1` and `g2` over an
/// unchanged supply `t`, can claim `b * (g1 + g2) / t`, less at most one
/// unit plus the accumulator's rounding (`2 * b / REWARD_PRECISION`), and
/// never more.
pub proof fn lemma_engagement_rewards_are_proportional(
    a0: Asset,
    h: Holding,
    actor: AccountId,
    k1: EngagementKind,
    k2: EngagementKind,
    r1: u64,
    r2: u64,
    t1: i64,
    t2: i64,
    a1: Asset,
    e1: EngagementReward,
    a2: Asset,
    e2: EngagementReward,
    h2: Holding,
    paid: u64,
)
    requires
        a0.total_supply > 0,
        h.unclaimed_rewards == 0,
        h.last_claimed_rewards_per_unit == a0.rewards_per_unit,
        engagement_outcome(a0, actor, k1, r1, t1) == Ok::<(Asset, EngagementReward), SolSocialError>((a1, e1)),
        engagement_outcome(a1, actor, k2, r2, t2) == Ok::<(Asset, EngagementReward), SolSocialError>((a2, e2)),
        claim_outcome(a2, h) == Ok::<(Holding, u64), SolSocialError>((h2, paid)),
    ensures
        ({
            let g1 = split_of(r1, a0.fee_config).holder_reward;
            let g2 = split_of(r2, a0.fee_config).holder_reward;
            let t = a0.total_supply;
            let b = h.balance;
            &&& paid * t <= b * (g1 + g2)
            &&& b * (g1 + g2) * REWARD_PRECISION < (paid + 1) * t * REWARD_PRECISION + 2 * b * t
        }),
{
    let g1 = split_of(r1, a0.fee_config).holder_reward;
    let g2 = split_of(r2, a0.fee_config).holder_reward;
    let t = a0.total_supply;
    assert(a1.total_supply == t && a1.fee_config == a0.fee_config);
    assert(update_rewards_per_token_spec_ok(a0.rewards_per_unit, g1, t, a1.rewards_per_unit));
    assert(update_rewards_per_token_spec_ok(a1.rewards_per_unit, g2, t, a2.rewards_per_unit));
    assert(accumulated_rewards_outcome(h.balance, t, a2.rewards_per_unit, a0.rewards_per_unit) == Ok::<
        u64,
        SolSocialError,
    >(paid));
    lemma_accrual_is_proportional(
        h.balance,
        t,
        g1,
        g2,
        a0.rewards_per_unit,
        a1.rewards_per_unit,
        a2.rewards_per_unit,
        paid,
    );
}

/// Each part of a split is at most the gross value.
pub proof fn lemma_split_bounded(v: u64, c: FeeConfig)
    requires
        valid_fee_config(c),
    ensures
        split_of(v, c).holder_reward <= v,
        split_of(v, c).protocol_fee + split_of(v, c).creator_fee + split_of(v, c).holder_reward == v,
{
    lemma_bps_bounds(v as int, c.protocol_bps as int, c.creator_bps as int);
}

/// Creates an asset for `creator_id`: no supply, no fees collected, the
/// founding unit still on offer, active.
pub fn create_asset(
    creator_id: AccountId,
    curve: CurveKind,
    curve_params: BondingCurveParams,
    fee_config: FeeConfig,
    now: i64,
) -> (r: Result<Asset, SolSocialError>)
    ensures
        !valid_curve_params(curve_params) ==> r == Err::<Asset, SolSocialError>(SolSocialError::InvalidCurveParams),
        valid_curve_params(curve_params) && !valid_fee_config(fee_config) ==> r == Err::<Asset, SolSocialError>(
            SolSocialError::InvalidFeeSplit,
        ),
        valid_curve_params(curve_params) && valid_fee_config(fee_config) ==> r is Ok,
        r matches Ok(a) ==> {
            &&& asset_wf(a)
            &&& a == (Asset {
                creator_id,
                total_supply: 0,
                curve,
                curve_params,
                fee_config,
                accumulated_protocol_fees: 0,
                accumulated_creator_fees: 0,
                pending_creator_rewards: 0,
                rewards_per_unit: 0,
                total_volume: 0,
                founding: FoundingUnit::Unminted,
                is_active: true,
                created_at: now,
            })
        },
{
    if validate_curve_params(&curve_params).is_err() {
        return Err(SolSocialError::InvalidCurveParams);
    }
    validate_fee_config(&fee_config)?;
    Ok(
        Asset {
            creator_id,
            total_supply: 0,
            curve,
            curve_params,
            fee_config,
            accumulated_protocol_fees: 0,
            accumulated_creator_fees: 0,
            pending_creator_rewards: 0,
            rewards_per_unit: 0,
            total_volume: 0,
            founding: FoundingUnit::Unminted,
            is_active: true,
            created_at: now,
        },
    )
}

/// A fresh, empty position of `holder_id` in the asset of `asset_id`, with
/// its reward checkpoint at the asset's current accumulator.
pub fn open_holding(asset: &Asset, holder_id: AccountId, now: i64) -> (r: Holding)
    ensures
        r == (Holding {
            holder_id,
            asset_id: asset.creator_id,
            balance: 0,
            total_spent: 0,
            total_earned: 0,
            unclaimed_rewards: 0,
            last_claimed_rewards_per_unit: asset.rewards_per_unit,
            first_acquired_at: now,
            last_trade_at: now,
        }),
{
    Holding {
        holder_id,
        asset_id: asset.creator_id,
        balance: 0,
        total_spent: 0,
        total_earned: 0,
        unclaimed_rewards: 0,
        last_claimed_rewards_per_unit: asset.rewards_per_unit,
        first_acquired_at: now,
        last_trade_at: now,
    }
}

/// Price of buying `amount` units for `buyer_id`, without changing anything.
pub fn quote_buy(asset: &Asset, buyer_id: AccountId, amount: u64) -> (r: Result<u64, SolSocialError>)
    ensures
        r == quote_buy_outcome(*asset, buyer_id, amount),
{
    if amount == 0 {
        return Err(SolSocialError::InvalidAmount);
    }
    match asset.total_supply.checked_add(amount) {
        Some(end) => {
            if end > asset.curve_params.max_supply {
                return Err(SolSocialError::SupplyExceedsMax);
            }
        },
        None => {
            return Err(SolSocialError::SupplyExceedsMax);
        },
    }
    if is_founding_unit(asset, buyer_id, amount) {
        return Ok(0);
    }
    match asset.curve {
        CurveKind::Quadratic => calculate_buy_cost(asset.total_supply, amount, &asset.curve_params),
        CurveKind::SumOfSquares => get_price(asset.total_supply, amount),
    }
}

/// Whether a buy of `amount` units by `buyer_id` takes the founding unit.
fn is_founding_unit(asset: &Asset, buyer_id: AccountId, amount: u64) -> (r: bool)
    ensures
        r == founding_unit(*asset, buyer_id, amount),
{
    asset.founding == FoundingUnit::Unminted && asset.total_supply == 0 && amount == 1 && buyer_id
        == asset.creator_id
}

/// Proceeds of the top `amount` of `supply` units on the asset's curve.
fn curve_sell(asset: &Asset, supply: u64, amount: u64) -> (r: Result<u64, SolSocialError>)
    ensures
        r == curve_sell_outcome(*asset, supply, amount),
{
    match asset.curve {
        CurveKind::Quadratic => calculate_sell_proceeds(supply, amount, &asset.curve_params),
        CurveKind::SumOfSquares => get_sell_price(supply, amount),
    }
}

/// Gross proceeds of selling `amount` units, without changing anything.
/// The sale that empties the supply while the creator's free founding unit
/// is out pays nothing for that unit.
pub fn quote_sell(asset: &Asset, amount: u64) -> (r: Result<u64, SolSocialError>)
    ensures
        r == quote_sell_outcome(*asset, amount),
{
    if amount == 0 {
        return Err(SolSocialError::InvalidAmount);
    }
    if amount > asset.total_supply {
        return Err(SolSocialError::InsufficientSupply);
    }
    if asset.founding == FoundingUnit::HeldFree && amount == asset.total_supply {
        if amount == 1 {
            return Ok(0);
        }
        return curve_sell(asset, asset.total_supply, amount - 1);
    }
    curve_sell(asset, asset.total_supply, amount)
}

/// Adds a trade of gross value `gross` paying `protocol_fee` to the
/// platform totals, or `None` when one of them would overflow.
fn platform_with_trade(platform: &PlatformState, gross: u64, protocol_fee: u64) -> (r: Option<PlatformState>)
    ensures
        r == platform_after(*platform, gross, protocol_fee),
{
    let total_volume = match platform.total_volume.checked_add(gross) {
        Some(v) => v,
        None => {
            return None;
        },
    };
    let total_protocol_fees = match platform.total_protocol_fees.checked_add(protocol_fee) {
        Some(v) => v,
        None => {
            return None;
        },
    };
    let total_trades = match platform.total_trades.checked_add(1) {
        Some(v) => v,
        None => {
            return None;
        },
    };
    Some(PlatformState { total_volume, total_protocol_fees, total_trades })
}

/// Settles the rewards a holding has earned up to accumulator value `rpu`.
fn settle(h: &Holding, rpu: u64) -> (r: Result<Holding, SolSocialError>)
    ensures
        r == settled(*h, rpu),
{
    let delta = sub_u64(rpu, h.last_claimed_rewards_per_unit)?;
    let scaled = mul_u64(h.balance, delta)?;
    let owed = div_u64(scaled, REWARD_PRECISION)?;
    let unclaimed = add_u64(h.unclaimed_rewards, owed)?;
    Ok(Holding { unclaimed_rewards: unclaimed, last_claimed_rewards_per_unit: rpu, ..*h })
}

/// Buys `amount` units for the holder of `holding`, paying at most
/// `max_cost`. Only the creator's founding unit may come for free; any
/// other purchase priced at zero is refused. On success the supply, the
/// balance, the fee and volume totals of the asset and of the platform, and
/// the holder's settled rewards change together and the trade record is
/// returned; on failure nothing changes.
pub fn buy(
    asset: &mut Asset,
    holding: &mut Holding,
    platform: &mut PlatformState,
    amount: u64,
    max_cost: u64,
    now: i64,
) -> (r: Result<Trade, SolSocialError>)
    ensures
        r matches Ok(t) ==> buy_outcome(*old(asset), *old(holding), *old(platform), amount, max_cost, now) == Ok::<
            (Asset, Holding, PlatformState, Trade),
            SolSocialError,
        >((*final(asset), *final(holding), *final(platform), t)),
        r matches Err(e) ==> buy_outcome(*old(asset), *old(holding), *old(platform), amount, max_cost, now)
            == Err::<(Asset, Holding, PlatformState, Trade), SolSocialError>(e),
        r is Err ==> *final(asset) == *old(asset) && *final(holding) == *old(holding) && *final(platform) == *old(
            platform,
        ),
        asset_wf(*old(asset)) ==> asset_wf(*final(asset)),
{
    if amount == 0 {
        return Err(SolSocialError::InvalidAmount);
    }
    if holding.asset_id != asset.creator_id {
        return Err(SolSocialError::HoldingMismatch);
    }
    if !asset.is_active {
        return Err(SolSocialError::AssetInactive);
    }
    let cost = quote_buy(asset, holding.holder_id, amount)?;
    let founding = is_founding_unit(asset, holding.holder_id, amount);
    if cost == 0 && !founding {
        return Err(SolSocialError::InvalidPrice);
    }
    if cost > max_cost {
        return Err(SolSocialError::CostExceeded);
    }
    let split = split_fees(cost, &asset.fee_config)?;
    let settled_holding = settle(holding, asset.rewards_per_unit)?;
    let balance = add_u64(settled_holding.balance, amount)?;
    let total_spent = add_u64(settled_holding.total_spent, cost)?;
    let protocol_total = add_u64(asset.accumulated_protocol_fees, split.protocol_fee)?;
    let creator_total = add_u64(asset.accumulated_creator_fees, split.creator_fee)?;
    let volume = add_u64(asset.total_volume, cost)?;
    let next_platform = match platform_with_trade(platform, cost, split.protocol_fee) {
        Some(p) => p,
        None => {
            return Err(SolSocialError::MathOverflow);
        },
    };
    let supply_after = asset.total_supply + amount;
    let first_acquired_at = if holding.balance == 0 {
        now
    } else {
        holding.first_acquired_at
    };
    let next_founding = if founding {
        FoundingUnit::HeldFree
    } else if asset.founding == FoundingUnit::Unminted {
        FoundingUnit::Settled
    } else {
        asset.founding
    };
    *holding = Holding { balance, total_spent, first_acquired_at, last_trade_at: now, ..settled_holding };
    asset.total_supply = supply_after;
    asset.accumulated_protocol_fees = protocol_total;
    asset.accumulated_creator_fees = creator_total;
    asset.total_volume = volume;
    asset.founding = next_founding;
    *platform = next_platform;
    Ok(
        Trade {
            trader_id: holding.holder_id,
            asset_id: asset.creator_id,
            direction: Direction::Buy,
            amount,
            gross_price: cost,
            protocol_fee: split.protocol_fee,
            creator_fee: split.creator_fee,
            holder_reward: split.holder_reward,
            rewards_paid: 0,
            supply_after,
            timestamp: now,
        },
    )
}

/// Sells `amount` units of the holder of `holding`, receiving at least
/// `min_proceeds` after fees. A sale that empties the holding also pays out
/// its settled rewards, so an emptied holding owes nothing and can be
/// removed. On success everything changes together and the trade record is
/// returned; on failure nothing changes.
pub fn sell(
    asset: &mut Asset,
    holding: &mut Holding,
    platform: &mut PlatformState,
    amount: u64,
    min_proceeds: u64,
    now: i64,
) -> (r: Result<Trade, SolSocialError>)
    ensures
        r matches Ok(t) ==> sell_outcome(*old(asset), *old(holding), *old(platform), amount, min_proceeds, now)
            == Ok::<(Asset, Holding, PlatformState, Trade), SolSocialError>(
            (*final(asset), *final(holding), *final(platform), t),
        ),
        r matches Err(e) ==> sell_outcome(*old(asset), *old(holding), *old(platform), amount, min_proceeds, now)
            == Err::<(Asset, Holding, PlatformState, Trade), SolSocialError>(e),
        r is Err ==> *final(asset) == *old(asset) && *final(holding) == *old(holding) && *final(platform) == *old(
            platform,
        ),
        asset_wf(*old(asset)) ==> asset_wf(*final(asset)),
        r is Ok && final(holding).balance == 0 ==> final(holding).unclaimed_rewards == 0,
{
    if amount == 0 {
        return Err(SolSocialError::InvalidAmount);
    }
    if holding.asset_id != asset.creator_id {
        return Err(SolSocialError::HoldingMismatch);
    }
    if amount > holding.balance {
        return Err(SolSocialError::InsufficientBalance);
    }
    if !asset.is_active {
        return Err(SolSocialError::AssetInactive);
    }
    let gross = quote_sell(asset, amount)?;
    let split = split_fees(gross, &asset.fee_config)?;
    if split.holder_reward < min_proceeds {
        return Err(SolSocialError::ProceedsBelowMinimum);
    }
    let settled_holding = settle(holding, asset.rewards_per_unit)?;
    let rewards_paid = if settled_holding.balance == amount {
        settled_holding.unclaimed_rewards
    } else {
        0
    };
    let earned = add_u64(settled_holding.total_earned, split.holder_reward)?;
    let total_earned = add_u64(earned, rewards_paid)?;
    let protocol_total = add_u64(asset.accumulated_protocol_fees, split.protocol_fee)?;
    let creator_total = add_u64(asset.accumulated_creator_fees, split.creator_fee)?;
    let volume = add_u64(asset.total_volume, gross)?;
    let next_platform = match platform_with_trade(platform, gross, split.protocol_fee) {
        Some(p) => p,
        None => {
            return Err(SolSocialError::MathOverflow);
        },
    };
    let next_founding = if asset.founding == FoundingUnit::HeldFree && amount == asset.total_supply {
        FoundingUnit::Settled
    } else {
        asset.founding
    };
    let supply_after = asset.total_supply - amount;
    *holding = Holding {
        balance: settled_holding.balance - amount,
        total_earned,
        unclaimed_rewards: settled_holding.unclaimed_rewards - rewards_paid,
        last_trade_at: now,
        ..settled_holding
    };
    asset.total_supply = supply_after;
    asset.accumulated_protocol_fees = protocol_total;
    asset.accumulated_creator_fees = creator_total;
    asset.total_volume = volume;
    asset.founding = next_founding;
    *platform = next_platform;
    Ok(
        Trade {
            trader_id: holding.holder_id,
            asset_id: asset.creator_id,
            direction: Direction::Sell,
            amount,
            gross_price: gross,
            protocol_fee: split.protocol_fee,
            creator_fee: split.creator_fee,
            holder_reward: split.holder_reward,
            rewards_paid,
            supply_after,
            timestamp: now,
        },
    )
}

/// Pays an engagement reward (a like, share, tip or comment) into the asset:
/// the platform and the creator take their fees and the rest is spread over
/// the current holders through the accumulator, or kept for the creator
/// while nobody holds a unit. On failure nothing changes.
pub fn distribute_engagement_reward(
    asset: &mut Asset,
    actor_id: AccountId,
    kind: EngagementKind,
    reward_amount: u64,
    now: i64,
) -> (r: Result<EngagementReward, SolSocialError>)
    ensures
        r matches Ok(rec) ==> engagement_outcome(*old(asset), actor_id, kind, reward_amount, now) == Ok::<
            (Asset, EngagementReward),
            SolSocialError,
        >((*final(asset), rec)),
        r matches Err(e) ==> engagement_outcome(*old(asset), actor_id, kind, reward_amount, now) == Err::<
            (Asset, EngagementReward),
            SolSocialError,
        >(e),
        r is Err ==> *final(asset) == *old(asset),
        asset_wf(*old(asset)) ==> asset_wf(*final(asset)),
{
    if reward_amount == 0 {
        return Err(SolSocialError::InvalidAmount);
    }
    if !asset.is_active {
        return Err(SolSocialError::AssetInactive);
    }
    let split = split_fees(reward_amount, &asset.fee_config)?;
    let protocol_total = add_u64(asset.accumulated_protocol_fees, split.protocol_fee)?;
    let creator_total = add_u64(asset.accumulated_creator_fees, split.creator_fee)?;
    if asset.total_supply == 0 {
        let pending = add_u64(asset.pending_creator_rewards, split.holder_reward)?;
        asset.pending_creator_rewards = pending;
    } else {
        let rpu = update_rewards_per_token(asset.rewards_per_unit, split.holder_reward, asset.total_supply)?;
        asset.rewards_per_unit = rpu;
    }
    asset.accumulated_protocol_fees = protocol_total;
    asset.accumulated_creator_fees = creator_total;
    Ok(
        EngagementReward {
            actor_id,
            creator_id: asset.creator_id,
            kind,
            reward_amount,
            protocol_fee: split.protocol_fee,
            creator_fee: split.creator_fee,
            holder_reward: split.holder_reward,
            timestamp: now,
        },
    )
}

/// Pays the holder everything earned up to now: the rewards settled at
/// earlier balance changes plus those accrued since the checkpoint. The
/// checkpoint moves to the current accumulator, so the same accrual is never
/// paid twice. On failure nothing changes.
pub fn claim_holder_rewards(asset: &Asset, holding: &mut Holding) -> (r: Result<u64, SolSocialError>)
    ensures
        r matches Ok(paid) ==> claim_outcome(*asset, *old(holding)) == Ok::<(Holding, u64), SolSocialError>(
            (*final(holding), paid),
        ),
        r matches Err(e) ==> claim_outcome(*asset, *old(holding)) == Err::<(Holding, u64), SolSocialError>(e),
        r is Err ==> *final(holding) == *old(holding),
{
    if holding.asset_id != asset.creator_id {
        return Err(SolSocialError::HoldingMismatch);
    }
    let settled_holding = settle(holding, asset.rewards_per_unit)?;
    let paid = settled_holding.unclaimed_rewards;
    let total_earned = add_u64(settled_holding.total_earned, paid)?;
    *holding = Holding { unclaimed_rewards: 0, total_earned, ..settled_holding };
    Ok(paid)
}

/// A holding can be removed from the store once its balance is back to
/// zero: the sale that emptied it paid out its settled rewards.
pub fn holding_is_closable(holding: &Holding) -> (r: bool)
    ensures
        r == (holding.balance == 0),
{
    holding.balance == 0
}

/// Pays the creator the holder rewards that arrived while nobody held a
/// unit, and empties that bucket.
pub fn claim_creator_rewards(asset: &mut Asset) -> (r: u64)
    ensures
        r == old(asset).pending_creator_rewards,
        *final(asset) == (Asset { pending_creator_rewards: 0, ..*old(asset) }),
        asset_wf(*old(asset)) ==> asset_wf(*final(asset)),
{
    let paid = asset.pending_creator_rewards;
    asset.pending_creator_rewards = 0;
    paid
}

} // verus!
