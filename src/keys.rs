//! Per-creator key accounts on a linear price schedule, holders' key
//! balances, and platform-wide totals.
use vstd::prelude::*;

use crate::ledger::AccountId;

verus! {

/// Price of the first key, in lamports.
pub const KEY_BASE_PRICE: u64 = 1_000_000;

/// Price step per key already out, in lamports.
pub const KEY_PRICE_INCREMENT: u64 = 100_000;

/// Failures of the key accounts.
#[derive(Debug, Clone, Copy, PartialEq, Eq, Structural)]
pub enum ErrorCode {
    MathOverflow,
    MathUnderflow,
    InsufficientBalance,
    InvalidAmount,
    TradingPaused,
    Unauthorized,
    KeysNotActive,
}

/// One creator's key account.
#[derive(Debug, Clone, Copy, PartialEq, Eq, Structural)]
pub struct UserKeys {
    pub owner: AccountId,
    pub total_supply: u64,
    pub current_price: u64,
    pub holders_count: u32,
    pub trading_fee_collected: u64,
    pub creator_fee_collected: u64,
    pub is_active: bool,
    pub created_at: i64,
    pub last_trade_at: i64,
    pub bump: u8,
}

/// Price of key number `i` (counting from zero).
pub open spec fn key_unit_price(i: int) -> int {
    KEY_BASE_PRICE + i * KEY_PRICE_INCREMENT
}

/// Price of the `n` keys `a, a+1, ..., a+n-1`.
pub open spec fn linear_sum(a: int, n: nat) -> int
    decreases n,
{
    if n == 0 {
        0
    } else {
        linear_sum(a, (n - 1) as nat) + key_unit_price(a + n - 1)
    }
}

/// What `UserKeys::calculate_price` returns: the keys above `supply` for a
/// buy, the keys just below it for a sell.
pub open spec fn keys_price_outcome(supply: u64, amount: u64, is_buy: bool) -> Result<u64, ErrorCode> {
    if amount == 0 {
        Ok(0)
    } else if !is_buy && amount > supply {
        Err(ErrorCode::MathUnderflow)
    } else {
        let start: int = if is_buy { supply as int } else { supply - amount };
        if linear_sum(start, amount as nat) > u64::MAX {
            Err(ErrorCode::MathOverflow)
        } else {
            Ok(linear_sum(start, amount as nat) as u64)
        }
    }
}

pub proof fn lemma_linear_sum_grows(a: int, n: nat, m: nat)
    requires
        a >= 0,
        n <= m,
    ensures
        linear_sum(a, n) <= linear_sum(a, m),
        n < m ==> key_unit_price(a + n) <= linear_sum(a, m),
    decreases m - n,
{
    if n < m {
        lemma_linear_sum_grows(a, n, (m - 1) as nat);
        assert(key_unit_price(a + m - 1) >= key_unit_price(a + n)) by (nonlinear_arith)
            requires
                n <= m - 1,
        ;
        lemma_linear_sum_nonneg(a, (m - 1) as nat);
    }
}

pub proof fn lemma_linear_sum_nonneg(a: int, n: nat)
    requires
        a >= 0,
    ensures
        linear_sum(a, n) >= 0,
    decreases n,
{
    if n > 0 {
        lemma_linear_sum_nonneg(a, (n - 1) as nat);
        assert(key_unit_price(a + n - 1) >= 0) by (nonlinear_arith)
            requires
                a + n - 1 >= 0,
        ;
    }
}

/// Taking the lowest key off the front.
pub proof fn lemma_linear_sum_front(a: int, n: nat)
    ensures
        linear_sum(a, n + 1) == key_unit_price(a) + linear_sum(a + 1, n),
    decreases n,
{
    if n > 0 {
        let j = (n - 1) as nat;
        lemma_linear_sum_front(a, j);
        assert(linear_sum(a, n + 1) == linear_sum(a, n) + key_unit_price(a + n));
        assert(linear_sum(a + 1, n) == linear_sum(a + 1, j) + key_unit_price(a + 1 + j));
        assert(linear_sum(a, j + 1) == linear_sum(a, n));
    } else {
        assert(linear_sum(a, 1) == linear_sum(a, 0) + key_unit_price(a));
    }
}

/// What `UserKeys::update_after_trade` makes of `k`.
pub open spec fn keys_trade_outcome(k: UserKeys, supply_change: i64, is_buy: bool, now: i64) -> Result<
    UserKeys,
    ErrorCode,
> {
    let change = supply_change as u64;
    let supply: int = if is_buy {
        k.total_supply + change
    } else {
        k.total_supply - change
    };
    let holders: int = if is_buy && supply_change > 0 {
        k.holders_count + 1
    } else {
        k.holders_count as int
    };
    if is_buy && supply > u64::MAX {
        Err(ErrorCode::MathOverflow)
    } else if is_buy && holders > u32::MAX {
        Err(ErrorCode::MathOverflow)
    } else if !is_buy && supply < 0 {
        Err(ErrorCode::MathUnderflow)
    } else if key_unit_price(supply) > u64::MAX {
        Err(ErrorCode::MathOverflow)
    } else {
        Ok(
            UserKeys {
                total_supply: supply as u64,
                holders_count: holders as u32,
                current_price: key_unit_price(supply) as u64,
                last_trade_at: now,
                ..k
            },
        )
    }
}

/// Recording a buy of `n` keys and then a sale of the same `n` keys
/// always succeeds and brings the supply and the spot price back to where
/// they were.
pub proof fn lemma_keys_buy_then_sell_restores(k: UserKeys, n: i64, t1: i64, t2: i64, k1: UserKeys)
    requires
        n >= 0,
        keys_trade_outcome(k, n, true, t1) == Ok::<UserKeys, ErrorCode>(k1),
    ensures
        keys_trade_outcome(k1, n, false, t2) is Ok,
        keys_trade_outcome(k1, n, false, t2)->Ok_0.total_supply == k.total_supply,
        keys_trade_outcome(k1, n, false, t2)->Ok_0.current_price == key_unit_price(k.total_supply as int),
{
    assert(key_unit_price(k.total_supply as int) <= key_unit_price(k1.total_supply as int)) by (nonlinear_arith)
        requires
            k.total_supply <= k1.total_supply,
    ;
}

/// What `UserKeyBalance::add_keys` makes of `b`.
pub open spec fn add_keys_outcome(b: UserKeyBalance, amount: u64, price_paid: u64, now: i64) -> Result<
    UserKeyBalance,
    ErrorCode,
> {
    if b.balance + amount > u64::MAX || b.total_spent + price_paid > u64::MAX || b.purchase_count + 1
        > u32::MAX {
        Err(ErrorCode::MathOverflow)
    } else {
        Ok(
            UserKeyBalance {
                balance: (b.balance + amount) as u64,
                last_purchase_price: if amount == 0 {
                    0
                } else {
                    price_paid / amount
                },
                total_spent: (b.total_spent + price_paid) as u64,
                purchase_count: (b.purchase_count + 1) as u32,
                first_purchase_at: if b.balance == 0 {
                    now
                } else {
                    b.first_purchase_at
                },
                last_trade_at: now,
                ..b
            },
        )
    }
}

/// What `UserKeyBalance::remove_keys` makes of `b`.
pub open spec fn remove_keys_outcome(b: UserKeyBalance, amount: u64, price_received: u64, now: i64) -> Result<
    UserKeyBalance,
    ErrorCode,
> {
    if amount > b.balance {
        Err(ErrorCode::InsufficientBalance)
    } else if b.total_earned + price_received > u64::MAX || b.sale_count + 1 > u32::MAX {
        Err(ErrorCode::MathOverflow)
    } else {
        Ok(
            UserKeyBalance {
                balance: (b.balance - amount) as u64,
                total_earned: (b.total_earned + price_received) as u64,
                sale_count: (b.sale_count + 1) as u32,
                last_trade_at: now,
                ..b
            },
        )
    }
}

/// Selling back the keys just bought succeeds whenever the earnings and the
/// sale count still fit, and leaves the balance where it was.
pub proof fn lemma_add_then_remove_keys(
    b: UserKeyBalance,
    amount: u64,
    price_paid: u64,
    price_received: u64,
    t1: i64,
    t2: i64,
    b1: UserKeyBalance,
)
    requires
        add_keys_outcome(b, amount, price_paid, t1) == Ok::<UserKeyBalance, ErrorCode>(b1),
        b.total_earned + price_received <= u64::MAX,
        b.sale_count + 1 <= u32::MAX,
    ensures
        remove_keys_outcome(b1, amount, price_received, t2) is Ok,
        remove_keys_outcome(b1, amount, price_received, t2)->Ok_0.balance == b.balance,
        remove_keys_outcome(b1, amount, price_received, t2)->Ok_0.total_earned == b.total_earned + price_received,
{
}

/// Price of key `i`, or `MathOverflow`.
fn key_price_at(i: u64) -> (r: Result<u64, ErrorCode>)
    ensures
        key_unit_price(i as int) <= u64::MAX ==> r == Ok::<u64, ErrorCode>(key_unit_price(i as int) as u64),
        key_unit_price(i as int) > u64::MAX ==> r == Err::<u64, ErrorCode>(ErrorCode::MathOverflow),
{
    let step = match i.checked_mul(KEY_PRICE_INCREMENT) {
        Some(v) => v,
        None => {
            return Err(ErrorCode::MathOverflow);
        },
    };
    match KEY_BASE_PRICE.checked_add(step) {
        Some(v) => Ok(v),
        None => Err(ErrorCode::MathOverflow),
    }
}

impl UserKeys {
    /// Opens the key account of `owner` at `now`.
    pub fn initialize(&mut self, owner: AccountId, bump: u8, now: i64)
        ensures
            *final(self) == (UserKeys {
                owner,
                total_supply: 0,
                current_price: KEY_BASE_PRICE,
                holders_count: 0,
                trading_fee_collected: 0,
                creator_fee_collected: 0,
                is_active: true,
                created_at: now,
                last_trade_at: now,
                bump,
            }),
    {
        self.owner = owner;
        self.total_supply = 0;
        self.current_price = KEY_BASE_PRICE;
        self.holders_count = 0;
        self.trading_fee_collected = 0;
        self.creator_fee_collected = 0;
        self.is_active = true;
        self.created_at = now;
        self.last_trade_at = now;
        self.bump = bump;
    }

    /// Price of trading `amount` keys at `supply`, summed key by key.
    pub fn calculate_price(&self, supply: u64, amount: u64, is_buy: bool) -> (r: Result<u64, ErrorCode>)
        ensures
            r == keys_price_outcome(supply, amount, is_buy),
    {
        if amount == 0 {
            return Ok(0);
        }
        if !is_buy && amount > supply {
            return Err(ErrorCode::MathUnderflow);
        }
        let start: u64 = if is_buy {
            supply
        } else {
            supply - amount
        };
        let mut total: u64 = 0;
        let mut i: u64 = 0;
        if is_buy {
            while i < amount
                invariant
                    is_buy,
                    0 < amount,
                    i <= amount,
                    start == supply,
                    total == linear_sum(start as int, i as nat),
                decreases amount - i,
            {
                proof {
                    lemma_linear_sum_grows(start as int, (i + 1) as nat, amount as nat);
                    lemma_linear_sum_grows(start as int, i as nat, amount as nat);
                }
                let key = match supply.checked_add(i) {
                    Some(v) => v,
                    None => {
                        proof {
                            assert(key_unit_price(start + i) > u64::MAX);
                        }
                        return Err(ErrorCode::MathOverflow);
                    },
                };
                let price = key_price_at(key)?;
                total = match total.checked_add(price) {
                    Some(v) => v,
                    None => {
                        return Err(ErrorCode::MathOverflow);
                    },
                };
                i = i + 1;
            }
        } else {
            while i < amount
                invariant
                    !is_buy,
                    0 < amount,
                    i <= amount <= supply,
                    start == supply - amount,
                    total == linear_sum(supply - i, i as nat),
                decreases amount - i,
            {
                let key = supply - i - 1;
                proof {
                    lemma_linear_sum_front(key as int, i as nat);
                    lemma_linear_sum_nonneg(supply - i, i as nat);
                    let below: nat = (amount - i - 1) as nat;
                    let upper: nat = (i + 1) as nat;
                    lemma_linear_sum_split(start as int, below, upper);
                    lemma_linear_sum_nonneg(start as int, below);
                    lemma_linear_sum_nonneg(key as int, upper);
                }
                let price = key_price_at(key)?;
                total = match total.checked_add(price) {
                    Some(v) => v,
                    None => {
                        return Err(ErrorCode::MathOverflow);
                    },
                };
                i = i + 1;
            }
        }
        Ok(total)
    }

    /// Records a trade of `supply_change` keys at `now`: the supply moves,
    /// a buy counts one more holder, and the spot price is refreshed. On
    /// failure nothing changes.
    pub fn update_after_trade(&mut self, supply_change: i64, is_buy: bool, now: i64) -> (r: Result<(), ErrorCode>)
        ensures
            r matches Ok(()) ==> keys_trade_outcome(*old(self), supply_change, is_buy, now) == Ok::<
                UserKeys,
                ErrorCode,
            >(*final(self)),
            r matches Err(e) ==> keys_trade_outcome(*old(self), supply_change, is_buy, now) == Err::<
                UserKeys,
                ErrorCode,
            >(e),
            r is Err ==> *final(self) == *old(self),
    {
        #[verifier::truncate]
        let change = supply_change as u64;
        let mut next = *self;
        if is_buy {
            next.total_supply = match self.total_supply.checked_add(change) {
                Some(v) => v,
                None => {
                    return Err(ErrorCode::MathOverflow);
                },
            };
            if supply_change > 0 {
                next.holders_count = match self.holders_count.checked_add(1) {
                    Some(v) => v,
                    None => {
                        return Err(ErrorCode::MathOverflow);
                    },
                };
            }
        } else {
            next.total_supply = match self.total_supply.checked_sub(change) {
                Some(v) => v,
                None => {
                    return Err(ErrorCode::MathUnderflow);
                },
            };
        }
        next.current_price = key_price_at(next.total_supply)?;
        next.last_trade_at = now;
        *self = next;
        Ok(())
    }

    /// Adds `fee` to the trading fees collected.
    pub fn add_trading_fee(&mut self, fee: u64) -> (r: Result<(), ErrorCode>)
        ensures
            old(self).trading_fee_collected + fee <= u64::MAX ==> r is Ok && *final(self) == (UserKeys {
                trading_fee_collected: (old(self).trading_fee_collected + fee) as u64,
                ..*old(self)
            }),
            old(self).trading_fee_collected + fee > u64::MAX ==> r == Err::<(), ErrorCode>(ErrorCode::MathOverflow)
                && *final(self) == *old(self),
    {
        self.trading_fee_collected = match self.trading_fee_collected.checked_add(fee) {
            Some(v) => v,
            None => {
                return Err(ErrorCode::MathOverflow);
            },
        };
        Ok(())
    }

    /// Adds `fee` to the creator fees collected.
    pub fn add_creator_fee(&mut self, fee: u64) -> (r: Result<(), ErrorCode>)
        ensures
            old(self).creator_fee_collected + fee <= u64::MAX ==> r is Ok && *final(self) == (UserKeys {
                creator_fee_collected: (old(self).creator_fee_collected + fee) as u64,
                ..*old(self)
            }),
            old(self).creator_fee_collected + fee > u64::MAX ==> r == Err::<(), ErrorCode>(ErrorCode::MathOverflow)
                && *final(self) == *old(self),
    {
        self.creator_fee_collected = match self.creator_fee_collected.checked_add(fee) {
            Some(v) => v,
            None => {
                return Err(ErrorCode::MathOverflow);
            },
        };
        Ok(())
    }

    /// Spot price at the current supply.
    pub fn get_current_price(&self) -> (r: u64)
        requires
            key_unit_price(self.total_supply as int) <= u64::MAX,
        ensures
            r == key_unit_price(self.total_supply as int),
    {
        KEY_BASE_PRICE + self.total_supply * KEY_PRICE_INCREMENT
    }
}

/// One holder's balance of one creator's keys.
#[derive(Debug, Clone, Copy, PartialEq, Eq, Structural)]
pub struct UserKeyBalance {
    pub owner: AccountId,
    pub key_owner: AccountId,
    pub balance: u64,
    pub last_purchase_price: u64,
    pub total_spent: u64,
    pub total_earned: u64,
    pub purchase_count: u32,
    pub sale_count: u32,
    pub first_purchase_at: i64,
    pub last_trade_at: i64,
    pub bump: u8,
}

impl UserKeyBalance {
    /// Opens an empty balance of `owner` in the keys of `key_owner`.
    pub fn initialize(&mut self, owner: AccountId, key_owner: AccountId, bump: u8, now: i64)
        ensures
            *final(self) == (UserKeyBalance {
                owner,
                key_owner,
                balance: 0,
                last_purchase_price: 0,
                total_spent: 0,
                total_earned: 0,
                purchase_count: 0,
                sale_count: 0,
                first_purchase_at: 0,
                last_trade_at: now,
                bump,
            }),
    {
        self.owner = owner;
        self.key_owner = key_owner;
        self.balance = 0;
        self.last_purchase_price = 0;
        self.total_spent = 0;
        self.total_earned = 0;
        self.purchase_count = 0;
        self.sale_count = 0;
        self.first_purchase_at = 0;
        self.last_trade_at = now;
        self.bump = bump;
    }

    /// Records the purchase of `amount` keys for `price_paid` at `now`; the
    /// last purchase price is the price per key. On failure nothing changes.
    pub fn add_keys(&mut self, amount: u64, price_paid: u64, now: i64) -> (r: Result<(), ErrorCode>)
        ensures
            r matches Ok(()) ==> add_keys_outcome(*old(self), amount, price_paid, now) == Ok::<
                UserKeyBalance,
                ErrorCode,
            >(*final(self)),
            r matches Err(e) ==> add_keys_outcome(*old(self), amount, price_paid, now) == Err::<
                UserKeyBalance,
                ErrorCode,
            >(e) && *final(self) == *old(self),
    {
        let balance = match self.balance.checked_add(amount) {
            Some(v) => v,
            None => {
                return Err(ErrorCode::MathOverflow);
            },
        };
        let total_spent = match self.total_spent.checked_add(price_paid) {
            Some(v) => v,
            None => {
                return Err(ErrorCode::MathOverflow);
            },
        };
        let purchase_count = match self.purchase_count.checked_add(1) {
            Some(v) => v,
            None => {
                return Err(ErrorCode::MathOverflow);
            },
        };
        if self.balance == 0 {
            self.first_purchase_at = now;
        }
        self.balance = balance;
        self.last_purchase_price = match price_paid.checked_div(amount) {
            Some(v) => v,
            None => 0,
        };
        self.total_spent = total_spent;
        self.purchase_count = purchase_count;
        self.last_trade_at = now;
        Ok(())
    }

    /// Records the sale of `amount` keys for `price_received` at `now`. On
    /// failure nothing changes.
    pub fn remove_keys(&mut self, amount: u64, price_received: u64, now: i64) -> (r: Result<(), ErrorCode>)
        ensures
            r matches Ok(()) ==> remove_keys_outcome(*old(self), amount, price_received, now) == Ok::<
                UserKeyBalance,
                ErrorCode,
            >(*final(self)),
            r matches Err(e) ==> remove_keys_outcome(*old(self), amount, price_received, now) == Err::<
                UserKeyBalance,
                ErrorCode,
            >(e) && *final(self) == *old(self),
    {
        if self.balance < amount {
            return Err(ErrorCode::InsufficientBalance);
        }
        let total_earned = match self.total_earned.checked_add(price_received) {
            Some(v) => v,
            None => {
                return Err(ErrorCode::MathOverflow);
            },
        };
        let sale_count = match self.sale_count.checked_add(1) {
            Some(v) => v,
            None => {
                return Err(ErrorCode::MathOverflow);
            },
        };
        self.balance = self.balance - amount;
        self.total_earned = total_earned;
        self.sale_count = sale_count;
        self.last_trade_at = now;
        Ok(())
    }

    /// Earned minus spent, exactly.
    pub fn get_profit_loss(&self) -> (r: i128)
        ensures
            r == self.total_earned - self.total_spent,
    {
        self.total_earned as i128 - self.total_spent as i128
    }
}

/// Platform-wide settings and totals.
#[derive(Debug, Clone, Copy, PartialEq, Eq, Structural)]
pub struct GlobalState {
    pub authority: AccountId,
    pub trading_fee_bps: u16,
    pub creator_fee_bps: u16,
    pub protocol_fee_bps: u16,
    pub total_keys_created: u64,
    pub total_volume: u64,
    pub total_fees_collected: u64,
    pub is_paused: bool,
    pub bump: u8,
}

/// `bps` basis points of `amount`, floored, or `MathOverflow` when the
/// product does not fit.
pub open spec fn fee_part(amount: u64, bps: u16) -> Result<u64, ErrorCode> {
    if amount * bps > u64::MAX {
        Err(ErrorCode::MathOverflow)
    } else {
        Ok((amount * bps / 10_000) as u64)
    }
}

fn fee_of(amount: u64, bps: u16) -> (r: Result<u64, ErrorCode>)
    ensures
        r == fee_part(amount, bps),
{
    match amount.checked_mul(bps as u64) {
        Some(v) => Ok(v / 10_000),
        None => Err(ErrorCode::MathOverflow),
    }
}

impl GlobalState {
    /// Opens the platform state: 5% trading fee, 5% creator fee, 1% protocol
    /// fee, no totals, not paused.
    pub fn initialize(&mut self, authority: AccountId, bump: u8)
        ensures
            *final(self) == (GlobalState {
                authority,
                trading_fee_bps: 500,
                creator_fee_bps: 500,
                protocol_fee_bps: 100,
                total_keys_created: 0,
                total_volume: 0,
                total_fees_collected: 0,
                is_paused: false,
                bump,
            }),
    {
        self.authority = authority;
        self.trading_fee_bps = 500;
        self.creator_fee_bps = 500;
        self.protocol_fee_bps = 100;
        self.total_keys_created = 0;
        self.total_volume = 0;
        self.total_fees_collected = 0;
        self.is_paused = false;
        self.bump = bump;
    }

    /// Trading, creator and protocol fees on `amount`, in that order.
    pub fn calculate_fees(&self, amount: u64) -> (r: Result<(u64, u64, u64), ErrorCode>)
        ensures
            fee_part(amount, self.trading_fee_bps) is Ok && fee_part(amount, self.creator_fee_bps) is Ok
                && fee_part(amount, self.protocol_fee_bps) is Ok ==> r == Ok::<(u64, u64, u64), ErrorCode>(
                (
                    fee_part(amount, self.trading_fee_bps)->Ok_0,
                    fee_part(amount, self.creator_fee_bps)->Ok_0,
                    fee_part(amount, self.protocol_fee_bps)->Ok_0,
                ),
            ),
            !(fee_part(amount, self.trading_fee_bps) is Ok && fee_part(amount, self.creator_fee_bps) is Ok
                && fee_part(amount, self.protocol_fee_bps) is Ok) ==> r == Err::<(u64, u64, u64), ErrorCode>(
                ErrorCode::MathOverflow,
            ),
    {
        let trading_fee = fee_of(amount, self.trading_fee_bps)?;
        let creator_fee = fee_of(amount, self.creator_fee_bps)?;
        let protocol_fee = fee_of(amount, self.protocol_fee_bps)?;
        Ok((trading_fee, creator_fee, protocol_fee))
    }

    /// Adds `volume` to the traded volume.
    pub fn add_volume(&mut self, volume: u64) -> (r: Result<(), ErrorCode>)
        ensures
            old(self).total_volume + volume <= u64::MAX ==> r is Ok && *final(self) == (GlobalState {
                total_volume: (old(self).total_volume + volume) as u64,
                ..*old(self)
            }),
            old(self).total_volume + volume > u64::MAX ==> r == Err::<(), ErrorCode>(ErrorCode::MathOverflow)
                && *final(self) == *old(self),
    {
        self.total_volume = match self.total_volume.checked_add(volume) {
            Some(v) => v,
            None => {
                return Err(ErrorCode::MathOverflow);
            },
        };
        Ok(())
    }

    /// Adds `fees` to the fees collected.
    pub fn add_fees(&mut self, fees: u64) -> (r: Result<(), ErrorCode>)
        ensures
            old(self).total_fees_collected + fees <= u64::MAX ==> r is Ok && *final(self) == (GlobalState {
                total_fees_collected: (old(self).total_fees_collected + fees) as u64,
                ..*old(self)
            }),
            old(self).total_fees_collected + fees > u64::MAX ==> r == Err::<(), ErrorCode>(ErrorCode::MathOverflow)
                && *final(self) == *old(self),
    {
        self.total_fees_collected = match self.total_fees_collected.checked_add(fees) {
            Some(v) => v,
            None => {
                return Err(ErrorCode::MathOverflow);
            },
        };
        Ok(())
    }

    /// Counts one more creator's keys.
    pub fn increment_keys_created(&mut self) -> (r: Result<(), ErrorCode>)
        ensures
            old(self).total_keys_created < u64::MAX ==> r is Ok && *final(self) == (GlobalState {
                total_keys_created: (old(self).total_keys_created + 1) as u64,
                ..*old(self)
            }),
            old(self).total_keys_created == u64::MAX ==> r == Err::<(), ErrorCode>(ErrorCode::MathOverflow)
                && *final(self) == *old(self),
    {
        self.total_keys_created = match self.total_keys_created.checked_add(1) {
            Some(v) => v,
            None => {
                return Err(ErrorCode::MathOverflow);
            },
        };
        Ok(())
    }
}

/// Splitting a run of keys in two.
pub proof fn lemma_linear_sum_split(a: int, n: nat, m: nat)
    ensures
        linear_sum(a, n + m) == linear_sum(a, n) + linear_sum(a + n, m),
    decreases m,
{
    if m > 0 {
        lemma_linear_sum_split(a, n, (m - 1) as nat);
        assert(linear_sum(a, n + m) == linear_sum(a, (n + m - 1) as nat) + key_unit_price(a + n + m - 1));
    }
}

} // verus!
