use vstd::prelude::*;

use crate::address::{address_eq, Address};
use crate::error::ErrorCode;
use crate::fees::DISCOUNT_RATE_DENOMINATOR;

verus! {

/// Configuration of the discount fee-payment path: the settlement token,
/// its treasury, the reference pools that price it, and the discount rate.
///
/// Owned by its own authority, independent of any pool; a swap only reads
/// it, and only the authorized update path below mutates it.
#[derive(Clone, Copy, Debug, PartialEq, Eq)]
pub struct ProtocolTokenConfig {
    /// Bump used to derive the configuration account.
    pub bump: u8,
    /// Mint of the settlement (protocol) token.
    pub protocol_token_mint: Address,
    /// Discount on the protocol fee when paid in the settlement token, in
    /// basis points; strictly between 0 and 10^4.
    pub discount_rate: u64,
    /// Authority allowed to update this configuration.
    pub authority: Address,
    /// Treasury that receives settlement-token fee payments.
    pub treasury: Address,
    /// Settlement-token / USD reference pool: the primary price source.
    pub kedolog_usdc_pool: Address,
    /// Native-asset / USD reference pool.
    pub sol_usdc_pool: Address,
    /// Settlement-token / native-asset reference pool (alternative path).
    pub kedolog_sol_pool: Address,
    /// Mint of the USD-pegged reference asset, for identity checks.
    pub usdc_mint: Address,
}

impl ProtocolTokenConfig {
    /// The discount rate is strictly between 0% and 100%.
    pub open spec fn wf(&self) -> bool {
        0 < self.discount_rate < DISCOUNT_RATE_DENOMINATOR
    }
}

/// Builds the discount configuration, rejecting a discount rate of zero or
/// of one hundred percent or more at configuration-write time.
pub fn create_protocol_token_config(
    protocol_token_mint: Address,
    discount_rate: u64,
    authority: Address,
    treasury: Address,
    kedolog_usdc_pool: Address,
    sol_usdc_pool: Address,
    kedolog_sol_pool: Address,
    usdc_mint: Address,
) -> (r: Result<ProtocolTokenConfig, ErrorCode>)
    ensures
        r is Ok <==> 0 < discount_rate < DISCOUNT_RATE_DENOMINATOR,
        r is Err ==> r == Err::<ProtocolTokenConfig, ErrorCode>(ErrorCode::InvalidInput),
        r is Ok ==> {
            let c = r->Ok_0;
            &&& c.wf()
            &&& c.protocol_token_mint@ == protocol_token_mint@
            &&& c.discount_rate == discount_rate
            &&& c.authority@ == authority@
            &&& c.treasury@ == treasury@
            &&& c.kedolog_usdc_pool@ == kedolog_usdc_pool@
            &&& c.sol_usdc_pool@ == sol_usdc_pool@
            &&& c.kedolog_sol_pool@ == kedolog_sol_pool@
            &&& c.usdc_mint@ == usdc_mint@
        },
{
    if !(0 < discount_rate && discount_rate < DISCOUNT_RATE_DENOMINATOR) {
        return Err(ErrorCode::InvalidInput);
    }
    Ok(
        ProtocolTokenConfig {
            bump: 0,
            protocol_token_mint,
            discount_rate,
            authority,
            treasury,
            kedolog_usdc_pool,
            sol_usdc_pool,
            kedolog_sol_pool,
            usdc_mint,
        },
    )
}

/// Applies an authorized update to the discount configuration. Every field
/// is optional; a caller that is not the stored authority is refused, a new
/// discount rate outside (0, 10^4) is refused, and on any refusal the
/// configuration is left unchanged. Ownership transfers are explicit through
/// `new_authority`.
pub fn update_protocol_token_config(
    config: &mut ProtocolTokenConfig,
    authority: &Address,
    discount_rate: Option<u64>,
    treasury: Option<Address>,
    kedolog_usdc_pool: Option<Address>,
    sol_usdc_pool: Option<Address>,
    kedolog_sol_pool: Option<Address>,
    new_authority: Option<Address>,
) -> (r: Result<(), ErrorCode>)
    requires
        old(config).wf(),
    ensures
        final(config).wf(),
        authority@ != old(config).authority@ ==> r == Err::<(), ErrorCode>(ErrorCode::InvalidOwner)
            && *final(config) == *old(config),
        authority@ == old(config).authority@ && (discount_rate matches Some(d) && !(0 < d
            < DISCOUNT_RATE_DENOMINATOR)) ==> r == Err::<(), ErrorCode>(ErrorCode::InvalidInput)
            && *final(config) == *old(config),
        authority@ == old(config).authority@ && (discount_rate matches Some(d) ==> 0 < d
            < DISCOUNT_RATE_DENOMINATOR) ==> r is Ok && *final(config) == (ProtocolTokenConfig {
            discount_rate: match discount_rate {
                Some(d) => d,
                None => old(config).discount_rate,
            },
            treasury: match treasury {
                Some(t) => t,
                None => old(config).treasury,
            },
            kedolog_usdc_pool: match kedolog_usdc_pool {
                Some(p) => p,
                None => old(config).kedolog_usdc_pool,
            },
            sol_usdc_pool: match sol_usdc_pool {
                Some(p) => p,
                None => old(config).sol_usdc_pool,
            },
            kedolog_sol_pool: match kedolog_sol_pool {
                Some(p) => p,
                None => old(config).kedolog_sol_pool,
            },
            authority: match new_authority {
                Some(a) => a,
                None => old(config).authority,
            },
            ..*old(config)
        }),
{
    if !address_eq(authority, &config.authority) {
        return Err(ErrorCode::InvalidOwner);
    }
    match discount_rate {
        Some(rate) => {
            if !(0 < rate && rate < DISCOUNT_RATE_DENOMINATOR) {
                return Err(ErrorCode::InvalidInput);
            }
            config.discount_rate = rate;
        },
        None => {},
    }
    match treasury {
        Some(t) => {
            config.treasury = t;
        },
        None => {},
    }
    match kedolog_usdc_pool {
        Some(p) => {
            config.kedolog_usdc_pool = p;
        },
        None => {},
    }
    match sol_usdc_pool {
        Some(p) => {
            config.sol_usdc_pool = p;
        },
        None => {},
    }
    match kedolog_sol_pool {
        Some(p) => {
            config.kedolog_sol_pool = p;
        },
        None => {},
    }
    match new_authority {
        Some(a) => {
            config.authority = a;
        },
        None => {},
    }
    Ok(())
}

} // verus!
