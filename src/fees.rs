//! Fee splitter: divides a gross value between the platform, the creator and
//! the holders by basis points, flooring each fee and leaving the dust with
//! the holders' remainder.
use vstd::prelude::*;

use crate::arith::mul_div_floor;
use crate::error::SolSocialError;

verus! {

/// 10000 basis points make the whole value.
pub const BPS_DENOMINATOR: u64 = 10_000;

/// Basis-point rates of one asset.
#[derive(Debug, Clone, Copy, PartialEq, Eq, Structural)]
pub struct FeeConfig {
    pub protocol_bps: u64,
    pub creator_bps: u64,
    pub holder_bps: u64,
}

/// The three parts of a gross value.
#[derive(Debug, Clone, Copy, PartialEq, Eq, Structural)]
pub struct FeeSplit {
    pub protocol_fee: u64,
    pub creator_fee: u64,
    pub holder_reward: u64,
}

/// The rates add up to at most the whole value.
pub open spec fn valid_fee_config(c: FeeConfig) -> bool {
    c.protocol_bps + c.creator_bps + c.holder_bps <= BPS_DENOMINATOR
}

/// `bps` basis points of `v`, floored.
pub open spec fn bps_of(v: int, bps: int) -> int {
    v * bps / (BPS_DENOMINATOR as int)
}

/// The split of `v` under `c`: floored platform and creator fees, and the
/// rest for the holders.
pub open spec fn split_of(v: u64, c: FeeConfig) -> FeeSplit {
    FeeSplit {
        protocol_fee: bps_of(v as int, c.protocol_bps as int) as u64,
        creator_fee: bps_of(v as int, c.creator_bps as int) as u64,
        holder_reward: (v - bps_of(v as int, c.protocol_bps as int) - bps_of(v as int, c.creator_bps as int)) as u64,
    }
}

pub proof fn lemma_bps_bounds(v: int, a: int, b: int)
    requires
        v >= 0,
        a >= 0,
        b >= 0,
        a + b <= BPS_DENOMINATOR,
    ensures
        0 <= bps_of(v, a),
        0 <= bps_of(v, b),
        bps_of(v, a) + bps_of(v, b) <= v,
{
    let d = BPS_DENOMINATOR as int;
    vstd::arithmetic::div_mod::lemma_div_pos_is_pos(v * a, d);
    vstd::arithmetic::div_mod::lemma_div_pos_is_pos(v * b, d);
    assert(v * a >= 0 && v * b >= 0) by (nonlinear_arith)
        requires
            v >= 0,
            a >= 0,
            b >= 0,
    ;
    vstd::arithmetic::div_mod::lemma_fundamental_div_mod(v * a, d);
    vstd::arithmetic::div_mod::lemma_fundamental_div_mod(v * b, d);
    vstd::arithmetic::div_mod::lemma_mod_bound(v * a, d);
    vstd::arithmetic::div_mod::lemma_mod_bound(v * b, d);
    assert(d * bps_of(v, a) + d * bps_of(v, b) <= v * a + v * b);
    assert(v * a + v * b <= v * d) by (nonlinear_arith)
        requires
            v >= 0,
            a + b <= d,
    ;
    assert(bps_of(v, a) + bps_of(v, b) <= v) by (nonlinear_arith)
        requires
            d * bps_of(v, a) + d * bps_of(v, b) <= v * d,
            d > 0,
    ;
}

/// `bps` basis points of `v`, floored, computed without ever leaving `u64`:
/// `v = 10000 q + r` gives `v * bps / 10000 = q * bps + r * bps / 10000`.
pub fn bps_share(v: u64, bps: u64) -> (r: u64)
    requires
        bps <= BPS_DENOMINATOR,
    ensures
        r == bps_of(v as int, bps as int),
{
    mul_div_floor(v, bps, BPS_DENOMINATOR)
}

/// Accepts a configuration whose rates add up to at most 10000.
pub fn validate_fee_config(config: &FeeConfig) -> (r: Result<(), SolSocialError>)
    ensures
        valid_fee_config(*config) ==> r is Ok,
        !valid_fee_config(*config) ==> r == Err::<(), SolSocialError>(SolSocialError::InvalidFeeSplit),
{
    if config.protocol_bps > BPS_DENOMINATOR || config.creator_bps > BPS_DENOMINATOR || config.holder_bps
        > BPS_DENOMINATOR {
        return Err(SolSocialError::InvalidFeeSplit);
    }
    if config.protocol_bps + config.creator_bps + config.holder_bps > BPS_DENOMINATOR {
        return Err(SolSocialError::InvalidFeeSplit);
    }
    Ok(())
}

/// Splits `gross_value` under `config`; the three parts always add up to
/// the gross value, whatever its size.
pub fn split_fees(gross_value: u64, config: &FeeConfig) -> (r: Result<FeeSplit, SolSocialError>)
    ensures
        valid_fee_config(*config) ==> r == Ok::<FeeSplit, SolSocialError>(split_of(gross_value, *config)),
        !valid_fee_config(*config) ==> r == Err::<FeeSplit, SolSocialError>(SolSocialError::InvalidFeeSplit),
        r matches Ok(s) ==> s.protocol_fee + s.creator_fee + s.holder_reward == gross_value,
{
    validate_fee_config(config)?;
    let protocol_fee = bps_share(gross_value, config.protocol_bps);
    let creator_fee = bps_share(gross_value, config.creator_bps);
    proof {
        lemma_bps_bounds(gross_value as int, config.protocol_bps as int, config.creator_bps as int);
    }
    let holder_reward = gross_value - protocol_fee - creator_fee;
    Ok(FeeSplit { protocol_fee, creator_fee, holder_reward })
}

/// No dust is lost: under a valid configuration the platform fee, the
/// creator fee and the holders' reward add up exactly to the gross value.
pub proof fn lemma_split_conserves_value(gross_value: u64, config: FeeConfig)
    requires
        valid_fee_config(config),
    ensures
        split_of(gross_value, config).protocol_fee + split_of(gross_value, config).creator_fee + split_of(
            gross_value,
            config,
        ).holder_reward == gross_value,
{
    lemma_bps_bounds(gross_value as int, config.protocol_bps as int, config.creator_bps as int);
}

} // verus!
