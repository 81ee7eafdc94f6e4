use vstd::prelude::*;

verus! {

/// Every way an engine operation can be refused.
///
/// Arithmetic failures (`MathOverflow`, `MathUnderflow`, `DivideByZero`),
/// validation failures, slippage failures and configuration failures are all
/// terminal for the request and never come with a partial state change.
#[derive(Debug, Clone, Copy, PartialEq, Eq, Structural)]
pub enum SolSocialError {
    MathOverflow,
    MathUnderflow,
    DivideByZero,
    InvalidAmount,
    InsufficientBalance,
    InsufficientSupply,
    SupplyExceedsMax,
    InvalidRange,
    InvalidCurveParams,
    AssetInactive,
    CostExceeded,
    ProceedsBelowMinimum,
    InvalidFeeSplit,
    InvalidSharePercentage,
    InvalidTokenSupply,
    MismatchedArrayLengths,
    NoRevenueToDistribute,
    InvalidPrice,
    Unauthorized,
    HoldingMismatch,
}

} // verus!
