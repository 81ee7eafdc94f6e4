use solsocial::bonding_curve::BondingCurveParams;
use solsocial::error::SolSocialError;
use solsocial::fees::{bps_share, split_fees, validate_fee_config, FeeConfig, FeeSplit};
use solsocial::ledger::{
    buy, claim_holder_rewards, create_asset, distribute_engagement_reward, holding_is_closable,
    claim_creator_rewards, open_holding, quote_buy, quote_sell, sell, Asset, CurveKind, Direction, EngagementKind, FoundingUnit,
    PlatformState,
};

const CREATOR: u64 = 7;
const ALICE: u64 = 11;
const BOB: u64 = 12;

fn small_curve() -> BondingCurveParams {
    BondingCurveParams { base_price: 1000, curve_factor: 1_000_000, max_supply: 1000 }
}

fn fees(protocol_bps: u64, creator_bps: u64, holder_bps: u64) -> FeeConfig {
    FeeConfig { protocol_bps, creator_bps, holder_bps }
}

fn no_totals() -> PlatformState {
    PlatformState { total_volume: 0, total_protocol_fees: 0, total_trades: 0 }
}

fn quadratic_asset(config: FeeConfig) -> Asset {
    create_asset(CREATOR, CurveKind::Quadratic, small_curve(), config, 100).unwrap()
}

#[test]
fn fee_split_of_ten_thousand() {
    let split = split_fees(10_000, &fees(500, 500, 9000)).unwrap();
    assert_eq!(split, FeeSplit { protocol_fee: 500, creator_fee: 500, holder_reward: 9000 });
}

#[test]
fn fee_split_loses_no_dust() {
    let config = fees(333, 777, 1234);
    for v in [0u64, 1, 9_999, 10_001, 123_456_789, u64::MAX / 2, u64::MAX] {
        let s = split_fees(v, &config).unwrap();
        assert_eq!(s.protocol_fee as u128 + s.creator_fee as u128 + s.holder_reward as u128, v as u128);
        assert_eq!(s.protocol_fee as u128, v as u128 * 333 / 10_000);
        assert_eq!(s.creator_fee as u128, v as u128 * 777 / 10_000);
    }
}

#[test]
fn fee_split_rejects_rates_above_the_whole() {
    assert_eq!(split_fees(100, &fees(5000, 5000, 1)), Err(SolSocialError::InvalidFeeSplit));
    assert_eq!(validate_fee_config(&fees(5000, 5000, 0)), Ok(()));
    assert_eq!(validate_fee_config(&fees(u64::MAX, 1, 0)), Err(SolSocialError::InvalidFeeSplit));
}

#[test]
fn bps_share_never_overflows() {
    assert_eq!(bps_share(u64::MAX, 10_000), u64::MAX);
    assert_eq!(bps_share(u64::MAX, 5_000), u64::MAX / 2);
    assert_eq!(bps_share(19_999, 1), 1);
}

#[test]
fn asset_creation_validates_its_configuration() {
    let bad_curve = BondingCurveParams { base_price: 0, curve_factor: 1, max_supply: 1 };
    assert_eq!(
        create_asset(CREATOR, CurveKind::Quadratic, bad_curve, fees(0, 0, 0), 0),
        Err(SolSocialError::InvalidCurveParams)
    );
    assert_eq!(
        create_asset(CREATOR, CurveKind::Quadratic, small_curve(), fees(9000, 2000, 0), 0),
        Err(SolSocialError::InvalidFeeSplit)
    );
    let a = quadratic_asset(fees(500, 500, 9000));
    assert_eq!(a.total_supply, 0);
    assert!(a.is_active);
    assert_eq!(a.created_at, 100);
    assert_eq!(quote_buy(&a, ALICE, 1), Ok(1001));
    assert_eq!(a.founding, FoundingUnit::Unminted);
}

#[test]
fn founding_unit_is_free_and_the_next_one_is_not() {
    let mut a = quadratic_asset(fees(500, 500, 9000));
    let mut pl = no_totals();
    let mut creator = open_holding(&a, CREATOR, 100);
    let founding = buy(&mut a, &mut creator, &mut pl, 1, 0, 101).unwrap();
    assert_eq!(founding.gross_price, 0);
    assert_eq!(founding.supply_after, 1);
    assert_eq!(creator.balance, 1);

    let mut alice = open_holding(&a, ALICE, 102);
    let next_cost = quote_buy(&a, ALICE, 1).unwrap();
    assert!(next_cost > 0);
    let t = buy(&mut a, &mut alice, &mut pl, 1, next_cost, 103).unwrap();
    assert_eq!(t.gross_price, next_cost);
    assert_eq!(t.direction, Direction::Buy);
    assert_eq!(a.total_supply, 2);
}

#[test]
fn selling_more_than_held_is_rejected_without_change() {
    let mut a = quadratic_asset(fees(500, 500, 9000));
    let mut pl = no_totals();
    let mut alice = open_holding(&a, ALICE, 100);
    buy(&mut a, &mut alice, &mut pl, 2, u64::MAX, 101).unwrap();
    let asset_before = a;
    let alice_before = alice;
    assert_eq!(sell(&mut a, &mut alice, &mut pl, 3, 0, 102), Err(SolSocialError::InsufficientBalance));
    assert_eq!(a, asset_before);
    assert_eq!(alice, alice_before);
    a.is_active = false;
    assert_eq!(sell(&mut a, &mut alice, &mut pl, 3, 0, 102), Err(SolSocialError::InsufficientBalance));
}

#[test]
fn buy_above_the_cost_bound_is_rejected_without_change() {
    let mut a = quadratic_asset(fees(500, 500, 9000));
    let mut pl = no_totals();
    let mut alice = open_holding(&a, ALICE, 100);
    let cost = quote_buy(&a, ALICE, 5).unwrap();
    let asset_before = a;
    let alice_before = alice;
    assert_eq!(buy(&mut a, &mut alice, &mut pl, 5, cost - 1, 101), Err(SolSocialError::CostExceeded));
    assert_eq!(a, asset_before);
    assert_eq!(alice, alice_before);
    assert!(buy(&mut a, &mut alice, &mut pl, 5, cost, 101).is_ok());
}

#[test]
fn buy_records_fees_and_balances() {
    let mut a = quadratic_asset(fees(500, 300, 9200));
    let mut pl = no_totals();
    let mut alice = open_holding(&a, ALICE, 100);
    let t = buy(&mut a, &mut alice, &mut pl, 10, u64::MAX, 150).unwrap();
    // 1000 * 10 + 1000 / 3_000_000, rounded up
    assert_eq!(t.gross_price, 10_001);
    assert_eq!(t.protocol_fee, 500);
    assert_eq!(t.creator_fee, 300);
    assert_eq!(t.holder_reward, 9_201);
    assert_eq!(t.trader_id, ALICE);
    assert_eq!(t.asset_id, CREATOR);
    assert_eq!(t.timestamp, 150);
    assert_eq!(a.accumulated_protocol_fees, 500);
    assert_eq!(a.accumulated_creator_fees, 300);
    assert_eq!(alice.balance, 10);
    assert_eq!(alice.total_spent, 10_001);
    assert_eq!(a.total_volume, 10_001);
    assert_eq!(pl, PlatformState { total_volume: 10_001, total_protocol_fees: 500, total_trades: 1 });
    assert_eq!(alice.first_acquired_at, 150);
    assert_eq!(alice.last_trade_at, 150);
}

#[test]
fn round_trip_never_pays_more_than_it_cost() {
    for curve in [CurveKind::Quadratic, CurveKind::SumOfSquares] {
        let mut a = create_asset(CREATOR, curve, small_curve(), fees(250, 250, 0), 0).unwrap();
    let mut pl = no_totals();
        let mut bob = open_holding(&a, BOB, 0);
        buy(&mut a, &mut bob, &mut pl, 5, u64::MAX, 1).unwrap();
        let mut alice = open_holding(&a, ALICE, 1);
        let supply_before = a.total_supply;
        let bought = buy(&mut a, &mut alice, &mut pl, 10, u64::MAX, 2).unwrap();
        let sold = sell(&mut a, &mut alice, &mut pl, 10, 0, 3).unwrap();
        assert_eq!(sold.direction, Direction::Sell);
        assert!(sold.holder_reward <= bought.gross_price);
        assert_eq!(a.total_supply, supply_before);
        assert_eq!(alice.balance, 0);
        assert!(holding_is_closable(&alice));
    }
}

#[test]
fn sell_below_the_proceeds_bound_is_rejected() {
    let mut a = quadratic_asset(fees(500, 500, 0));
    let mut pl = no_totals();
    let mut alice = open_holding(&a, ALICE, 0);
    buy(&mut a, &mut alice, &mut pl, 4, u64::MAX, 1).unwrap();
    let gross = quote_sell(&a, 4).unwrap();
    let before = a;
    assert_eq!(sell(&mut a, &mut alice, &mut pl, 4, gross, 2), Err(SolSocialError::ProceedsBelowMinimum));
    assert_eq!(a, before);
    let t = sell(&mut a, &mut alice, &mut pl, 4, gross - gross / 10, 2).unwrap();
    assert_eq!(t.holder_reward, gross - t.protocol_fee - t.creator_fee);
    assert_eq!(alice.total_earned, t.holder_reward);
}

#[test]
fn trades_are_validated() {
    let mut a = quadratic_asset(fees(0, 0, 0));
    let mut pl = no_totals();
    let mut alice = open_holding(&a, ALICE, 0);
    assert_eq!(buy(&mut a, &mut alice, &mut pl, 0, u64::MAX, 1), Err(SolSocialError::InvalidAmount));
    assert_eq!(buy(&mut a, &mut alice, &mut pl, 1001, u64::MAX, 1), Err(SolSocialError::SupplyExceedsMax));
    assert_eq!(sell(&mut a, &mut alice, &mut pl, 0, 0, 1), Err(SolSocialError::InvalidAmount));
    a.is_active = false;
    assert_eq!(buy(&mut a, &mut alice, &mut pl, 1, u64::MAX, 1), Err(SolSocialError::AssetInactive));
    assert_eq!(sell(&mut a, &mut alice, &mut pl, 1, 0, 1), Err(SolSocialError::InsufficientBalance));
    assert_eq!(quote_sell(&a, 1), Err(SolSocialError::InsufficientSupply));
}

#[test]
fn rewards_accrue_in_proportion_to_balance() {
    let mut a = quadratic_asset(fees(0, 0, 10_000));
    let mut pl = no_totals();
    let mut alice = open_holding(&a, ALICE, 0);
    let mut bob = open_holding(&a, BOB, 0);
    buy(&mut a, &mut alice, &mut pl, 1, u64::MAX, 1).unwrap();
    buy(&mut a, &mut bob, &mut pl, 2, u64::MAX, 1).unwrap();
    let r = distribute_engagement_reward(&mut a, 99, EngagementKind::Tip, 1000, 2).unwrap();
    assert_eq!(r.reward_amount, 1000);
    assert_eq!(r.holder_reward, 1000);
    assert_eq!(r.creator_id, CREATOR);
    distribute_engagement_reward(&mut a, 99, EngagementKind::Like, 3000, 3).unwrap();
    // exact shares are 4000 / 3 and 8000 / 3
    let paid_alice = claim_holder_rewards(&a, &mut alice).unwrap();
    let paid_bob = claim_holder_rewards(&a, &mut bob).unwrap();
    assert_eq!(paid_alice, 1333);
    assert_eq!(paid_bob, 2666);
    assert_eq!(claim_holder_rewards(&a, &mut alice), Ok(0));
}

#[test]
fn rewards_settle_when_the_balance_changes() {
    let mut a = quadratic_asset(fees(0, 0, 10_000));
    let mut pl = no_totals();
    let mut alice = open_holding(&a, ALICE, 0);
    buy(&mut a, &mut alice, &mut pl, 2, u64::MAX, 1).unwrap();
    distribute_engagement_reward(&mut a, 99, EngagementKind::Share, 500, 2).unwrap();
    buy(&mut a, &mut alice, &mut pl, 3, u64::MAX, 3).unwrap();
    assert_eq!(alice.unclaimed_rewards, 500);
    let mut bob = open_holding(&a, BOB, 4);
    buy(&mut a, &mut bob, &mut pl, 5, u64::MAX, 4).unwrap();
    distribute_engagement_reward(&mut a, 99, EngagementKind::Comment, 1000, 5).unwrap();
    assert_eq!(claim_holder_rewards(&a, &mut alice), Ok(1000));
    assert_eq!(claim_holder_rewards(&a, &mut bob), Ok(500));
}

#[test]
fn rewards_without_holders_go_to_the_creator_bucket() {
    let mut a = quadratic_asset(fees(1000, 1000, 8000));
    distribute_engagement_reward(&mut a, 99, EngagementKind::Tip, 1000, 1).unwrap();
    assert_eq!(a.accumulated_protocol_fees, 100);
    assert_eq!(a.accumulated_creator_fees, 100);
    assert_eq!(a.pending_creator_rewards, 800);
    assert_eq!(a.rewards_per_unit, 0);
    assert_eq!(
        distribute_engagement_reward(&mut a, 99, EngagementKind::Tip, 0, 1),
        Err(SolSocialError::InvalidAmount)
    );
}

#[test]
fn sum_of_squares_asset_trades_on_its_own_curve() {
    let mut a = create_asset(CREATOR, CurveKind::SumOfSquares, small_curve(), fees(0, 0, 0), 0).unwrap();
    let mut pl = no_totals();
    let mut alice = open_holding(&a, ALICE, 0);
    let t = buy(&mut a, &mut alice, &mut pl, 3, u64::MAX, 1).unwrap();
    // (0 + 1 + 4) * 62.5
    assert_eq!(t.gross_price, 312);
    assert_eq!(quote_sell(&a, 3), Ok(312));
}

#[test]
fn zero_priced_purchase_is_refused_except_the_founding_unit() {
    let mut a = create_asset(CREATOR, CurveKind::SumOfSquares, small_curve(), fees(0, 0, 0), 0).unwrap();
    let mut pl = no_totals();
    let mut alice = open_holding(&a, ALICE, 0);
    assert_eq!(quote_buy(&a, ALICE, 1), Ok(0));
    assert_eq!(buy(&mut a, &mut alice, &mut pl, 1, u64::MAX, 1), Err(SolSocialError::InvalidPrice));
    let mut creator = open_holding(&a, CREATOR, 0);
    assert_eq!(buy(&mut a, &mut creator, &mut pl, 1, 0, 1).map(|t| t.gross_price), Ok(0));
}

#[test]
fn founding_unit_round_trip_pays_nothing_and_is_not_free_again() {
    let mut a = quadratic_asset(fees(500, 500, 0));
    let mut pl = no_totals();
    let mut creator = open_holding(&a, CREATOR, 0);
    assert_eq!(buy(&mut a, &mut creator, &mut pl, 1, 0, 1).map(|t| t.gross_price), Ok(0));
    assert_eq!(a.founding, FoundingUnit::HeldFree);
    let sold = sell(&mut a, &mut creator, &mut pl, 1, 0, 2).unwrap();
    assert_eq!(sold.gross_price, 0);
    assert_eq!(sold.holder_reward, 0);
    assert_eq!(a.total_supply, 0);
    assert_eq!(a.founding, FoundingUnit::Settled);
    assert_eq!(quote_buy(&a, CREATOR, 1), Ok(1001));
    assert_eq!(buy(&mut a, &mut creator, &mut pl, 1, 0, 3), Err(SolSocialError::CostExceeded));
}

#[test]
fn emptying_sale_refunds_the_free_unit_at_nothing() {
    let mut a = quadratic_asset(fees(0, 0, 0));
    let mut pl = no_totals();
    let mut creator = open_holding(&a, CREATOR, 0);
    buy(&mut a, &mut creator, &mut pl, 1, 0, 1).unwrap();
    let paid = buy(&mut a, &mut creator, &mut pl, 2, u64::MAX, 2).unwrap().gross_price;
    // units 1 and 2 were paid for, unit 0 was not
    let sold = sell(&mut a, &mut creator, &mut pl, 3, 0, 3).unwrap();
    assert_eq!(sold.gross_price, 2000);
    assert!(sold.gross_price <= paid);
}

#[test]
fn holding_of_another_asset_is_refused() {
    let mut a = quadratic_asset(fees(0, 0, 0));
    let mut pl = no_totals();
    let mut stray = open_holding(&a, ALICE, 0);
    stray.asset_id = CREATOR + 1;
    assert_eq!(buy(&mut a, &mut stray, &mut pl, 1, u64::MAX, 1), Err(SolSocialError::HoldingMismatch));
    assert_eq!(sell(&mut a, &mut stray, &mut pl, 1, 0, 1), Err(SolSocialError::HoldingMismatch));
    assert_eq!(claim_holder_rewards(&a, &mut stray), Err(SolSocialError::HoldingMismatch));
}

#[test]
fn trades_accumulate_platform_and_asset_volume() {
    let mut a = quadratic_asset(fees(1000, 0, 0));
    let mut pl = no_totals();
    let mut alice = open_holding(&a, ALICE, 0);
    let b = buy(&mut a, &mut alice, &mut pl, 2, u64::MAX, 1).unwrap();
    let s = sell(&mut a, &mut alice, &mut pl, 1, 0, 2).unwrap();
    assert_eq!(a.total_volume, b.gross_price + s.gross_price);
    assert_eq!(pl.total_volume, b.gross_price + s.gross_price);
    assert_eq!(pl.total_protocol_fees, b.protocol_fee + s.protocol_fee);
    assert_eq!(pl.total_trades, 2);
}

#[test]
fn emptying_sale_pays_settled_rewards_and_closes_the_holding() {
    let mut a = quadratic_asset(fees(0, 0, 10_000));
    let mut pl = no_totals();
    let mut alice = open_holding(&a, ALICE, 0);
    let mut bob = open_holding(&a, BOB, 0);
    buy(&mut a, &mut alice, &mut pl, 2, u64::MAX, 1).unwrap();
    buy(&mut a, &mut bob, &mut pl, 2, u64::MAX, 1).unwrap();
    distribute_engagement_reward(&mut a, 99, EngagementKind::Tip, 400, 2).unwrap();
    let partial = sell(&mut a, &mut alice, &mut pl, 1, 0, 3).unwrap();
    assert_eq!(partial.rewards_paid, 0);
    assert_eq!(alice.unclaimed_rewards, 200);
    assert!(!holding_is_closable(&alice));
    let last = sell(&mut a, &mut alice, &mut pl, 1, 0, 4).unwrap();
    assert_eq!(last.rewards_paid, 200);
    assert_eq!(alice.balance, 0);
    assert_eq!(alice.unclaimed_rewards, 0);
    assert_eq!(alice.total_earned, partial.holder_reward + last.holder_reward + 200);
    assert!(holding_is_closable(&alice));
}

#[test]
fn creator_collects_rewards_kept_while_nobody_held() {
    let mut a = quadratic_asset(fees(0, 0, 10_000));
    distribute_engagement_reward(&mut a, 99, EngagementKind::Like, 700, 1).unwrap();
    assert_eq!(claim_creator_rewards(&mut a), 700);
    assert_eq!(a.pending_creator_rewards, 0);
    assert_eq!(claim_creator_rewards(&mut a), 0);
}
