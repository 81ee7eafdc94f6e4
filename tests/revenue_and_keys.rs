use solsocial::error::SolSocialError;
use solsocial::keys::{ErrorCode, GlobalState, UserKeyBalance, UserKeys};
use solsocial::revenue_share::{
    calculate_accumulated_rewards, calculate_creator_share, calculate_holder_reward_amounts,
    calculate_holder_rewards, calculate_individual_holder_reward, calculate_platform_share,
    calculate_tip_distribution, process_revenue_distribution, update_rewards_per_token,
    validate_revenue_distribution_params, RevenuePayout, RevenuePool,
};

#[test]
fn shares_are_whole_percentages() {
    assert_eq!(calculate_creator_share(1000, 30), Ok(300));
    assert_eq!(calculate_platform_share(999, 10), Ok(99));
    assert_eq!(calculate_creator_share(1000, 101), Err(SolSocialError::InvalidSharePercentage));
    assert_eq!(calculate_platform_share(u64::MAX, 2), Ok((u64::MAX as u128 * 2 / 100) as u64));
    assert_eq!(calculate_creator_share(u64::MAX, 100), Ok(u64::MAX));
}

#[test]
fn holders_get_the_remainder() {
    assert_eq!(calculate_holder_rewards(1000, 30, 20), Ok(500));
    assert_eq!(calculate_holder_rewards(999, 33, 33), Ok(341));
    assert_eq!(calculate_holder_rewards(1000, 60, 60), Err(SolSocialError::MathUnderflow));
    let big = u64::MAX / 2;
    let c = calculate_creator_share(big, 5).unwrap();
    let p = calculate_platform_share(big, 5).unwrap();
    let h = calculate_holder_rewards(big, 5, 5).unwrap();
    assert_eq!(c as u128 + p as u128 + h as u128, big as u128);
    assert_eq!(c as u128, big as u128 * 5 / 100);
}

#[test]
fn individual_reward_is_pro_rata() {
    assert_eq!(calculate_individual_holder_reward(900, 10, 30), Ok(300));
    assert_eq!(calculate_individual_holder_reward(1000, 1, 3), Ok(333));
    assert_eq!(calculate_individual_holder_reward(900, 10, 0), Err(SolSocialError::InvalidTokenSupply));
}

#[test]
fn reward_amounts_for_each_holder() {
    assert_eq!(calculate_holder_reward_amounts(900, &vec![10, 20, 0], 30), Ok(vec![300, 600, 0]));
    assert_eq!(calculate_holder_reward_amounts(900, &vec![], 30), Ok(vec![]));
    assert_eq!(
        calculate_holder_reward_amounts(900, &vec![1], 0),
        Err(SolSocialError::InvalidTokenSupply)
    );
    assert_eq!(
        calculate_holder_reward_amounts(u64::MAX, &vec![1, 2], 5),
        Err(SolSocialError::MathOverflow)
    );
}

#[test]
fn tips_split_three_ways() {
    assert_eq!(calculate_tip_distribution(1001, 10, 5), Ok((100, 50, 851)));
    assert_eq!(calculate_tip_distribution(1000, 90, 20), Err(SolSocialError::InvalidSharePercentage));
    assert_eq!(calculate_tip_distribution(1000, 101, 0), Err(SolSocialError::InvalidSharePercentage));
    let big = u64::MAX / 2;
    let (c, p, h) = calculate_tip_distribution(big, 5, 5).unwrap();
    assert_eq!(c as u128 + p as u128 + h as u128, big as u128);
    assert_eq!(p as u128, big as u128 * 5 / 100);
}

#[test]
fn distribution_parameters_are_validated() {
    assert_eq!(validate_revenue_distribution_params(50, 50), Ok(()));
    assert_eq!(validate_revenue_distribution_params(51, 50), Err(SolSocialError::InvalidSharePercentage));
    assert_eq!(validate_revenue_distribution_params(0, 255), Err(SolSocialError::InvalidSharePercentage));
}

#[test]
fn accumulator_and_claims() {
    assert_eq!(update_rewards_per_token(5, 100, 3), Ok(33_333_338));
    assert_eq!(update_rewards_per_token(5, 100, 0), Err(SolSocialError::InvalidTokenSupply));
    assert_eq!(update_rewards_per_token(u64::MAX, 1, 1), Err(SolSocialError::MathOverflow));
    assert_eq!(calculate_accumulated_rewards(10, 100, 3_000_000, 1_000_000), Ok(20));
    assert_eq!(calculate_accumulated_rewards(10, 100, 1, 2), Err(SolSocialError::MathUnderflow));
    assert_eq!(calculate_accumulated_rewards(10, 0, 2, 1), Err(SolSocialError::InvalidTokenSupply));
}

#[test]
fn two_distributions_accrue_proportionally() {
    let (b, t, r1, r2) = (7u64, 9u64, 1000u64, 2500u64);
    let rpt1 = update_rewards_per_token(0, r1, t).unwrap();
    let rpt2 = update_rewards_per_token(rpt1, r2, t).unwrap();
    let claim = calculate_accumulated_rewards(b, t, rpt2, 0).unwrap();
    // exact share: 7 * 3500 / 9 = 2722.2
    assert!(claim * t <= b * (r1 + r2));
    assert!(claim + 1 >= b * (r1 + r2) / t);
    assert_eq!(claim, 2722);
}

#[test]
fn revenue_pool_is_shared_out() {
    let mut pool = RevenuePool {
        pending_revenue: 1000,
        total_distributed: 50,
        holder_rewards_pool: 5,
        platform_fee_percentage: 10,
        last_distribution_timestamp: 0,
    };
    let payout = process_revenue_distribution(&mut pool, 30, 77).unwrap();
    assert_eq!(payout, RevenuePayout { creator_share: 300, platform_share: 100, holder_rewards: 600 });
    assert_eq!(pool.pending_revenue, 0);
    assert_eq!(pool.total_distributed, 1050);
    assert_eq!(pool.holder_rewards_pool, 605);
    assert_eq!(pool.last_distribution_timestamp, 77);
    let before = pool;
    assert_eq!(process_revenue_distribution(&mut pool, 30, 78), Err(SolSocialError::NoRevenueToDistribute));
    assert_eq!(pool, before);
}

#[test]
fn revenue_pool_refuses_bad_percentages_without_change() {
    let mut pool = RevenuePool {
        pending_revenue: 1000,
        total_distributed: 0,
        holder_rewards_pool: 0,
        platform_fee_percentage: 80,
        last_distribution_timestamp: 0,
    };
    let before = pool;
    assert_eq!(process_revenue_distribution(&mut pool, 30, 1), Err(SolSocialError::MathUnderflow));
    assert_eq!(process_revenue_distribution(&mut pool, 130, 1), Err(SolSocialError::InvalidSharePercentage));
    assert_eq!(pool, before);
}

fn blank_keys() -> UserKeys {
    UserKeys {
        owner: 0,
        total_supply: 9,
        current_price: 9,
        holders_count: 9,
        trading_fee_collected: 9,
        creator_fee_collected: 9,
        is_active: false,
        created_at: 9,
        last_trade_at: 9,
        bump: 9,
    }
}

#[test]
fn user_keys_start_empty() {
    let mut keys = blank_keys();
    keys.initialize(5, 254, 1234);
    assert_eq!(keys.owner, 5);
    assert_eq!(keys.total_supply, 0);
    assert_eq!(keys.current_price, 1_000_000);
    assert!(keys.is_active);
    assert_eq!(keys.created_at, 1234);
    assert_eq!(keys.get_current_price(), 1_000_000);
}

#[test]
fn user_keys_linear_price() {
    let keys = blank_keys();
    assert_eq!(keys.calculate_price(0, 3, true), Ok(3_300_000));
    assert_eq!(keys.calculate_price(3, 3, false), Ok(3_300_000));
    assert_eq!(keys.calculate_price(10, 1, true), Ok(2_000_000));
    assert_eq!(keys.calculate_price(10, 1, false), Ok(1_900_000));
    assert_eq!(keys.calculate_price(10, 0, true), Ok(0));
    assert_eq!(keys.calculate_price(2, 3, false), Err(ErrorCode::MathUnderflow));
    assert_eq!(keys.calculate_price(u64::MAX, 2, true), Err(ErrorCode::MathOverflow));
}

#[test]
fn user_keys_follow_trades() {
    let mut keys = blank_keys();
    keys.initialize(5, 1, 0);
    assert_eq!(keys.update_after_trade(4, true, 10), Ok(()));
    assert_eq!(keys.total_supply, 4);
    assert_eq!(keys.holders_count, 1);
    assert_eq!(keys.current_price, 1_400_000);
    assert_eq!(keys.last_trade_at, 10);
    assert_eq!(keys.update_after_trade(1, false, 11), Ok(()));
    assert_eq!(keys.total_supply, 3);
    assert_eq!(keys.current_price, 1_300_000);
    let before = keys;
    assert_eq!(keys.update_after_trade(5, false, 12), Err(ErrorCode::MathUnderflow));
    assert_eq!(keys, before);
    assert_eq!(keys.add_trading_fee(10), Ok(()));
    assert_eq!(keys.add_creator_fee(20), Ok(()));
    assert_eq!(keys.trading_fee_collected, 10);
    assert_eq!(keys.creator_fee_collected, 20);
    assert_eq!(keys.add_creator_fee(u64::MAX), Err(ErrorCode::MathOverflow));
}

#[test]
fn key_balance_tracks_purchases_and_sales() {
    let mut bal = UserKeyBalance {
        owner: 0,
        key_owner: 0,
        balance: 3,
        last_purchase_price: 3,
        total_spent: 3,
        total_earned: 3,
        purchase_count: 3,
        sale_count: 3,
        first_purchase_at: 3,
        last_trade_at: 3,
        bump: 3,
    };
    bal.initialize(1, 2, 8, 50);
    assert_eq!(bal.balance, 0);
    assert_eq!(bal.last_trade_at, 50);
    assert_eq!(bal.add_keys(4, 1000, 60), Ok(()));
    assert_eq!(bal.balance, 4);
    assert_eq!(bal.last_purchase_price, 250);
    assert_eq!(bal.first_purchase_at, 60);
    assert_eq!(bal.add_keys(1, 500, 70), Ok(()));
    assert_eq!(bal.first_purchase_at, 60);
    assert_eq!(bal.purchase_count, 2);
    assert_eq!(bal.remove_keys(6, 10, 80), Err(ErrorCode::InsufficientBalance));
    assert_eq!(bal.remove_keys(5, 900, 80), Ok(()));
    assert_eq!(bal.balance, 0);
    assert_eq!(bal.sale_count, 1);
    assert_eq!(bal.get_profit_loss(), -600);
}

#[test]
fn global_state_fees_and_totals() {
    let mut g = GlobalState {
        authority: 0,
        trading_fee_bps: 0,
        creator_fee_bps: 0,
        protocol_fee_bps: 0,
        total_keys_created: 0,
        total_volume: 0,
        total_fees_collected: 0,
        is_paused: true,
        bump: 0,
    };
    g.initialize(3, 4);
    assert!(!g.is_paused);
    assert_eq!(g.calculate_fees(10_000), Ok((500, 500, 100)));
    assert_eq!(g.calculate_fees(u64::MAX), Err(ErrorCode::MathOverflow));
    assert_eq!(g.add_volume(40), Ok(()));
    assert_eq!(g.add_fees(4), Ok(()));
    assert_eq!(g.increment_keys_created(), Ok(()));
    assert_eq!((g.total_volume, g.total_fees_collected, g.total_keys_created), (40, 4, 1));
    assert_eq!(g.add_volume(u64::MAX), Err(ErrorCode::MathOverflow));
}
