use vstd::prelude::*;

use crate::address::Address;
use crate::error::ErrorCode;
use crate::fees::{DISCOUNT_RATE_DENOMINATOR, FEE_RATE_DENOMINATOR_VALUE};

verus! {

/// Protocol-wide fee configuration of the factory that owns a pool.
///
/// All rates are numerators over the fixed 10^6 denominator, except
/// `fee_token_discount_rate`, which is in basis points (10^4).
#[derive(Clone, Copy, Debug, PartialEq, Eq)]
pub struct AmmConfig {
    /// Bump used to derive the configuration account.
    pub bump: u8,
    /// Whether creating new pools under this configuration is disabled.
    pub disable_create_pool: bool,
    /// Index of this configuration; several may exist.
    pub index: u16,
    /// Total trade fee rate charged on a swap.
    pub trade_fee_rate: u64,
    /// Share of the trade fee that belongs to the protocol.
    pub protocol_fee_rate: u64,
    /// Share of the trade fee that belongs to the fund.
    pub fund_fee_rate: u64,
    /// Flat fee for creating a pool.
    pub create_pool_fee: u64,
    /// Owner of the accrued protocol fees.
    pub protocol_owner: Address,
    /// Owner of the accrued fund fees.
    pub fund_owner: Address,
    /// Pool-creator fee rate charged on a swap.
    pub creator_fee_rate: u64,
    /// Receiver of separately paid fees.
    pub fee_receiver: Address,
    /// Mint of the alternative fee-payment token; all-zero when disabled.
    pub fee_token_mint: Address,
    /// Discount granted when fees are paid in the fee token, in basis points.
    pub fee_token_discount_rate: u64,
}

impl AmmConfig {
    /// Configuration invariants: the curve-charged rates stay under the
    /// denominator and the trade-fee shares do not exceed the whole.
    pub open spec fn wf(&self) -> bool {
        &&& self.trade_fee_rate + self.creator_fee_rate < FEE_RATE_DENOMINATOR_VALUE
        &&& self.protocol_fee_rate <= FEE_RATE_DENOMINATOR_VALUE
        &&& self.fund_fee_rate <= FEE_RATE_DENOMINATOR_VALUE
        &&& self.protocol_fee_rate + self.fund_fee_rate <= FEE_RATE_DENOMINATOR_VALUE
        &&& self.fee_token_discount_rate <= DISCOUNT_RATE_DENOMINATOR
    }
}

/// Builds a fee configuration, rejecting any rate set that violates the
/// configuration invariants. Invariant violations are refused here, at
/// configuration-write time, never deferred to swap time.
pub fn create_amm_config(
    index: u16,
    trade_fee_rate: u64,
    protocol_fee_rate: u64,
    fund_fee_rate: u64,
    create_pool_fee: u64,
    creator_fee_rate: u64,
    fee_receiver: Address,
    protocol_owner: Address,
    fund_owner: Address,
) -> (r: Result<AmmConfig, ErrorCode>)
    ensures
        r is Ok <==> {
            &&& trade_fee_rate + creator_fee_rate < FEE_RATE_DENOMINATOR_VALUE
            &&& protocol_fee_rate <= FEE_RATE_DENOMINATOR_VALUE
            &&& fund_fee_rate <= FEE_RATE_DENOMINATOR_VALUE
            &&& protocol_fee_rate + fund_fee_rate <= FEE_RATE_DENOMINATOR_VALUE
        },
        r is Err ==> r == Err::<AmmConfig, ErrorCode>(ErrorCode::InvalidInput),
        r is Ok ==> {
            let c = r->Ok_0;
            &&& c.wf()
            &&& c.index == index
            &&& c.trade_fee_rate == trade_fee_rate
            &&& c.protocol_fee_rate == protocol_fee_rate
            &&& c.fund_fee_rate == fund_fee_rate
            &&& c.create_pool_fee == create_pool_fee
            &&& c.creator_fee_rate == creator_fee_rate
            &&& c.fee_receiver@ == fee_receiver@
            &&& c.protocol_owner@ == protocol_owner@
            &&& c.fund_owner@ == fund_owner@
            &&& c.fee_token_mint.is_zero()
            &&& c.fee_token_discount_rate == 0
        },
{
    if !(trade_fee_rate < FEE_RATE_DENOMINATOR_VALUE && creator_fee_rate
        < FEE_RATE_DENOMINATOR_VALUE && trade_fee_rate + creator_fee_rate
        < FEE_RATE_DENOMINATOR_VALUE) {
        return Err(ErrorCode::InvalidInput);
    }
    if protocol_fee_rate > FEE_RATE_DENOMINATOR_VALUE {
        return Err(ErrorCode::InvalidInput);
    }
    if fund_fee_rate > FEE_RATE_DENOMINATOR_VALUE {
        return Err(ErrorCode::InvalidInput);
    }
    if protocol_fee_rate + fund_fee_rate > FEE_RATE_DENOMINATOR_VALUE {
        return Err(ErrorCode::InvalidInput);
    }
    Ok(
        AmmConfig {
            bump: 0,
            disable_create_pool: false,
            index,
            trade_fee_rate,
            protocol_fee_rate,
            fund_fee_rate,
            create_pool_fee,
            protocol_owner,
            fund_owner,
            creator_fee_rate,
            fee_receiver,
            fee_token_mint: Address::zero(),
            fee_token_discount_rate: 0,
        },
    )
}

} // verus!
