//! Pricing, settlement and reward-accrual engine for personal social tokens.
//!
//! Each creator owns an asset whose unit price follows a bonding curve; every
//! trade and engagement payment is split between the platform, the creator and
//! the asset's holders, and holder rewards accrue through a per-unit
//! accumulator.
pub mod error;
pub mod arith;
pub mod bonding_curve;
pub mod key_curve;
pub mod fees;
pub mod revenue_share;
pub mod ledger;
pub mod keys;
