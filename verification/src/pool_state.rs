use vstd::prelude::*;

use crate::address::{address_eq, Address};
use crate::amm_config::AmmConfig;
use crate::error::ErrorCode;

verus! {

/// Bit positions of the pool status byte; a set bit disables the operation.
#[derive(Clone, Copy, Debug, PartialEq, Eq, Structural)]
pub enum PoolStatusBitIndex {
    Deposit,
    Withdraw,
    Swap,
}

/// Which leg the pool-creator fee is charged on.
#[derive(Clone, Copy, Debug, PartialEq, Eq, Structural)]
pub enum CreatorFeeOn {
    /// On the input leg, whichever token that is.
    BothToken,
    /// Always on the token-0 leg.
    OnlyToken0,
    /// Always on the token-1 leg.
    OnlyToken1,
}

/// Direction of a swap relative to the pool's token ordering.
#[derive(Clone, Copy, Debug, PartialEq, Eq, Structural)]
pub enum TradeDirection {
    /// Token 0 in, token 1 out.
    ZeroForOne,
    /// Token 1 in, token 0 out.
    OneForZero,
}

/// The state a pool owns: identities of its accounts, its status and fee
/// accounting totals. Reserve balances live in the two vault accounts and
/// reach the library as snapshot values.
#[derive(Clone, Copy, Debug, PartialEq, Eq)]
pub struct PoolState {
    /// The fee configuration this pool trades under.
    pub amm_config: Address,
    /// Creator of the pool.
    pub pool_creator: Address,
    /// Custodial vault of token 0.
    pub token_0_vault: Address,
    /// Custodial vault of token 1.
    pub token_1_vault: Address,
    /// Mint of the pool's liquidity-provider token.
    pub lp_mint: Address,
    /// Mint of token 0.
    pub token_0_mint: Address,
    /// Mint of token 1.
    pub token_1_mint: Address,
    /// Vault receiving alternative fee-token payments.
    pub fee_token_vault: Address,
    /// Account holding the pool's price observations.
    pub observation_key: Address,
    /// Bump of the pool authority.
    pub auth_bump: u8,
    /// Status bits; a set bit disables the corresponding operation.
    pub status: u8,
    /// Timestamp from which swapping is allowed.
    pub open_time: u64,
    /// Last epoch the pool was touched in.
    pub recent_epoch: u64,
    /// Accrued, not yet collected, protocol fees in token 0.
    pub protocol_fees_token_0: u64,
    /// Accrued protocol fees in token 1.
    pub protocol_fees_token_1: u64,
    /// Accrued fund fees in token 0.
    pub fund_fees_token_0: u64,
    /// Accrued fund fees in token 1.
    pub fund_fees_token_1: u64,
    /// Accrued creator fees in token 0.
    pub creator_fees_token_0: u64,
    /// Accrued creator fees in token 1.
    pub creator_fees_token_1: u64,
    /// Total alternative fee-token amount collected.
    pub collected_fee_token_amount: u64,
    /// Whether the creator fee is charged at all.
    pub enable_creator_fee: bool,
    /// Which leg the creator fee is charged on.
    pub creator_fee_on: CreatorFeeOn,
}

/// Everything the curve needs about one swap request's direction and the
/// pool's tradable reserves, read once at request entry.
#[derive(Clone, Copy, Debug, PartialEq, Eq, Structural)]
pub struct SwapParams {
    pub trade_direction: TradeDirection,
    /// Input-side reserve net of accrued fees.
    pub total_input_token_amount: u64,
    /// Output-side reserve net of accrued fees.
    pub total_output_token_amount: u64,
    /// Pre-trade price of token 0 in token 1, as a 64.64 fixed point.
    pub token_0_price_x64: u128,
    /// Pre-trade price of token 1 in token 0, as a 64.64 fixed point.
    pub token_1_price_x64: u128,
    /// Whether the creator fee falls on the input leg of this request.
    pub is_creator_fee_on_input: bool,
}

/// The 64.64 fixed-point unit.
pub const Q64: u128 = 0x1_0000_0000_0000_0000;

impl PoolState {
    /// Whether the operation at `bit` is enabled: its status bit is clear.
    pub open spec fn spec_status_enabled(&self, bit: PoolStatusBitIndex) -> bool {
        self.status & (1u8 << PoolState::spec_status_bit(bit)) == 0
    }

    pub open spec fn spec_status_bit(bit: PoolStatusBitIndex) -> u8 {
        match bit {
            PoolStatusBitIndex::Deposit => 0,
            PoolStatusBitIndex::Withdraw => 1,
            PoolStatusBitIndex::Swap => 2,
        }
    }

    /// Reads one status bit; true means the operation is enabled.
    pub fn get_status_by_bit(&self, bit: PoolStatusBitIndex) -> (r: bool)
        ensures
            r == self.spec_status_enabled(bit),
    {
        let idx: u8 = match bit {
            PoolStatusBitIndex::Deposit => 0,
            PoolStatusBitIndex::Withdraw => 1,
            PoolStatusBitIndex::Swap => 2,
        };
        self.status & (1u8 << idx) == 0
    }

    /// Replaces the whole status byte.
    pub fn set_status(&mut self, status: u8)
        ensures
            *final(self) == (PoolState { status, ..*old(self) }),
    {
        self.status = status;
    }

    /// The creator fee rate actually charged: zero while the creator fee is
    /// disabled for this pool.
    pub fn adjust_creator_fee_rate(&self, creator_fee_rate: u64) -> (r: u64)
        ensures
            r == (if self.enable_creator_fee {
                creator_fee_rate
            } else {
                0u64
            }),
    {
        if self.enable_creator_fee {
            creator_fee_rate
        } else {
            0
        }
    }

    /// Whether the creator fee falls on the input leg for a direction.
    pub open spec fn spec_creator_fee_on_input(&self, direction: TradeDirection) -> bool {
        match self.creator_fee_on {
            CreatorFeeOn::BothToken => true,
            CreatorFeeOn::OnlyToken0 => direction == TradeDirection::ZeroForOne,
            CreatorFeeOn::OnlyToken1 => direction == TradeDirection::OneForZero,
        }
    }

    /// The token-0 reserve that is actually tradable: the vault balance net
    /// of every fee accrued in token 0, or `None` where the accrued fees
    /// exceed the balance.
    pub open spec fn spec_total_token_0(&self, vault_amount: u64) -> Option<u64> {
        let fees = self.protocol_fees_token_0 + self.fund_fees_token_0 + self.creator_fees_token_0;
        if fees > vault_amount {
            None
        } else {
            Some((vault_amount - fees) as u64)
        }
    }

    /// The tradable token-1 reserve, as for token 0.
    pub open spec fn spec_total_token_1(&self, vault_amount: u64) -> Option<u64> {
        let fees = self.protocol_fees_token_1 + self.fund_fees_token_1 + self.creator_fees_token_1;
        if fees > vault_amount {
            None
        } else {
            Some((vault_amount - fees) as u64)
        }
    }

    /// The swap parameters as a mathematical function of the pool state, the
    /// vault identities the caller presented, and the vault balances.
    pub open spec fn spec_get_swap_params(
        &self,
        input_vault_key: Seq<u8>,
        output_vault_key: Seq<u8>,
        input_vault_amount: u64,
        output_vault_amount: u64,
    ) -> Result<SwapParams, ErrorCode> {
        let direction = if input_vault_key == self.token_0_vault@ && output_vault_key
            == self.token_1_vault@ {
            Some(TradeDirection::ZeroForOne)
        } else if input_vault_key == self.token_1_vault@ && output_vault_key
            == self.token_0_vault@ {
            Some(TradeDirection::OneForZero)
        } else {
            None
        };
        if direction is None {
            Err(ErrorCode::InvalidInput)
        } else {
            let dir = direction->Some_0;
            let totals = if dir == TradeDirection::ZeroForOne {
                (
                    self.spec_total_token_0(input_vault_amount),
                    self.spec_total_token_1(output_vault_amount),
                )
            } else {
                (
                    self.spec_total_token_1(input_vault_amount),
                    self.spec_total_token_0(output_vault_amount),
                )
            };
            if totals.0 is None || totals.1 is None {
                Err(ErrorCode::MathOverflow)
            } else {
                let total_in = totals.0->Some_0;
                let total_out = totals.1->Some_0;
                if total_in == 0 || total_out == 0 {
                    Err(ErrorCode::InvalidInput)
                } else {
                    let total_0: int = if dir == TradeDirection::ZeroForOne {
                        total_in as int
                    } else {
                        total_out as int
                    };
                    let total_1: int = if dir == TradeDirection::ZeroForOne {
                        total_out as int
                    } else {
                        total_in as int
                    };
                    Ok(
                        SwapParams {
                            trade_direction: dir,
                            total_input_token_amount: total_in,
                            total_output_token_amount: total_out,
                            token_0_price_x64: (total_1 * Q64 / total_0) as u128,
                            token_1_price_x64: (total_0 * Q64 / total_1) as u128,
                            is_creator_fee_on_input: self.spec_creator_fee_on_input(dir),
                        },
                    )
                }
            }
        }
    }

    /// Takes the one read-snapshot of a swap request: direction from the
    /// presented vault identities, tradable reserves net of accrued fees,
    /// and the pre-trade prices. Vaults that match neither pool vault are
    /// refused; reserves that accrued fees would overdraw, and empty
    /// reserves, are refused.
    pub fn get_swap_params(
        &self,
        input_vault_key: &Address,
        output_vault_key: &Address,
        input_vault_amount: u64,
        output_vault_amount: u64,
    ) -> (r: Result<SwapParams, ErrorCode>)
        ensures
            r == self.spec_get_swap_params(
                input_vault_key@,
                output_vault_key@,
                input_vault_amount,
                output_vault_amount,
            ),
            r is Ok ==> 1 <= r->Ok_0.total_input_token_amount && 1
                <= r->Ok_0.total_output_token_amount,
    {
        let direction: TradeDirection = if address_eq(input_vault_key, &self.token_0_vault)
            && address_eq(output_vault_key, &self.token_1_vault) {
            TradeDirection::ZeroForOne
        } else if address_eq(input_vault_key, &self.token_1_vault) && address_eq(
            output_vault_key,
            &self.token_0_vault,
        ) {
            TradeDirection::OneForZero
        } else {
            return Err(ErrorCode::InvalidInput);
        };
        let (total_in, total_out) = match direction {
            TradeDirection::ZeroForOne => {
                let t0 = self.total_token_0(input_vault_amount);
                let t1 = self.total_token_1(output_vault_amount);
                match (t0, t1) {
                    (Some(a), Some(b)) => (a, b),
                    _ => {
                        return Err(ErrorCode::MathOverflow);
                    },
                }
            },
            TradeDirection::OneForZero => {
                let t1 = self.total_token_1(input_vault_amount);
                let t0 = self.total_token_0(output_vault_amount);
                match (t1, t0) {
                    (Some(a), Some(b)) => (a, b),
                    _ => {
                        return Err(ErrorCode::MathOverflow);
                    },
                }
            },
        };
        if total_in == 0 || total_out == 0 {
            return Err(ErrorCode::InvalidInput);
        }
        let (total_0, total_1): (u64, u64) = match direction {
            TradeDirection::ZeroForOne => (total_in, total_out),
            TradeDirection::OneForZero => (total_out, total_in),
        };
        proof {
            assert(total_1 * Q64 <= u64::MAX * (Q64 as int)) by (nonlinear_arith)
                requires
                    total_1 <= u64::MAX,
            ;
            assert(total_0 * Q64 <= u64::MAX * (Q64 as int)) by (nonlinear_arith)
                requires
                    total_0 <= u64::MAX,
            ;
            assert(total_1 * Q64 / (total_0 as int) >= 0) by (nonlinear_arith)
                requires
                    total_1 >= 0,
                    Q64 > 0,
                    total_0 >= 1,
            ;
            assert(total_0 * Q64 / (total_1 as int) >= 0) by (nonlinear_arith)
                requires
                    total_0 >= 0,
                    Q64 > 0,
                    total_1 >= 1,
            ;
        }
        let token_0_price_x64: u128 = (total_1 as u128) * Q64 / (total_0 as u128);
        let token_1_price_x64: u128 = (total_0 as u128) * Q64 / (total_1 as u128);
        let is_creator_fee_on_input = match self.creator_fee_on {
            CreatorFeeOn::BothToken => true,
            CreatorFeeOn::OnlyToken0 => matches!(direction, TradeDirection::ZeroForOne),
            CreatorFeeOn::OnlyToken1 => matches!(direction, TradeDirection::OneForZero),
        };
        Ok(
            SwapParams {
                trade_direction: direction,
                total_input_token_amount: total_in,
                total_output_token_amount: total_out,
                token_0_price_x64,
                token_1_price_x64,
                is_creator_fee_on_input,
            },
        )
    }

    /// Tradable token-0 reserve, executable form.
    pub fn total_token_0(&self, vault_amount: u64) -> (r: Option<u64>)
        ensures
            r == self.spec_total_token_0(vault_amount),
    {
        let fees: u128 = self.protocol_fees_token_0 as u128 + self.fund_fees_token_0 as u128
            + self.creator_fees_token_0 as u128;
        if fees > vault_amount as u128 {
            None
        } else {
            Some(vault_amount - (fees as u64))
        }
    }

    /// Tradable token-1 reserve, executable form.
    pub fn total_token_1(&self, vault_amount: u64) -> (r: Option<u64>)
        ensures
            r == self.spec_total_token_1(vault_amount),
    {
        let fees: u128 = self.protocol_fees_token_1 as u128 + self.fund_fees_token_1 as u128
            + self.creator_fees_token_1 as u128;
        if fees > vault_amount as u128 {
            None
        } else {
            Some(vault_amount - (fees as u64))
        }
    }

    /// The pool after one swap's fee components are added to its accrual
    /// totals: the protocol and fund fees on the input-side token, the
    /// creator fee on the leg it was charged on. Overflow of any total
    /// refuses the whole update.
    pub open spec fn spec_update_fees(
        self,
        protocol_fee: u64,
        fund_fee: u64,
        creator_fee: u64,
        direction: TradeDirection,
    ) -> Result<PoolState, ErrorCode> {
        let creator_on_input = self.spec_creator_fee_on_input(direction);
        let creator_on_0 = (creator_on_input && direction == TradeDirection::ZeroForOne) || (
        !creator_on_input && direction == TradeDirection::OneForZero);
        let (old_protocol, old_fund) = if direction == TradeDirection::ZeroForOne {
            (self.protocol_fees_token_0, self.fund_fees_token_0)
        } else {
            (self.protocol_fees_token_1, self.fund_fees_token_1)
        };
        let old_creator = if creator_on_0 {
            self.creator_fees_token_0
        } else {
            self.creator_fees_token_1
        };
        if old_protocol + protocol_fee > u64::MAX || old_fund + fund_fee > u64::MAX || old_creator
            + creator_fee > u64::MAX {
            Err(ErrorCode::MathOverflow)
        } else {
            let with_creator = if creator_on_0 {
                PoolState { creator_fees_token_0: (old_creator + creator_fee) as u64, ..self }
            } else {
                PoolState { creator_fees_token_1: (old_creator + creator_fee) as u64, ..self }
            };
            if direction == TradeDirection::ZeroForOne {
                Ok(
                    PoolState {
                        protocol_fees_token_0: (old_protocol + protocol_fee) as u64,
                        fund_fees_token_0: (old_fund + fund_fee) as u64,
                        ..with_creator
                    },
                )
            } else {
                Ok(
                    PoolState {
                        protocol_fees_token_1: (old_protocol + protocol_fee) as u64,
                        fund_fees_token_1: (old_fund + fund_fee) as u64,
                        ..with_creator
                    },
                )
            }
        }
    }

    /// Adds one swap's fee components to the pool's accrual totals.
    /// Overflow of a total is refused and leaves the state unchanged.
    pub fn update_fees(
        &mut self,
        protocol_fee: u64,
        fund_fee: u64,
        creator_fee: u64,
        direction: TradeDirection,
    ) -> (r: Result<(), ErrorCode>)
        ensures
            match old(self).spec_update_fees(protocol_fee, fund_fee, creator_fee, direction) {
                Ok(p) => r is Ok && *final(self) == p,
                Err(e) => r == Err::<(), ErrorCode>(e) && *final(self) == *old(self),
            },
    {
        let creator_on_input = match self.creator_fee_on {
            CreatorFeeOn::BothToken => true,
            CreatorFeeOn::OnlyToken0 => matches!(direction, TradeDirection::ZeroForOne),
            CreatorFeeOn::OnlyToken1 => matches!(direction, TradeDirection::OneForZero),
        };
        let creator_on_0 = match direction {
            TradeDirection::ZeroForOne => creator_on_input,
            TradeDirection::OneForZero => !creator_on_input,
        };
        let new_protocol: u64;
        let new_fund: u64;
        match direction {
            TradeDirection::ZeroForOne => {
                new_protocol = match self.protocol_fees_token_0.checked_add(protocol_fee) {
                    Some(v) => v,
                    None => {
                        return Err(ErrorCode::MathOverflow);
                    },
                };
                new_fund = match self.fund_fees_token_0.checked_add(fund_fee) {
                    Some(v) => v,
                    None => {
                        return Err(ErrorCode::MathOverflow);
                    },
                };
            },
            TradeDirection::OneForZero => {
                new_protocol = match self.protocol_fees_token_1.checked_add(protocol_fee) {
                    Some(v) => v,
                    None => {
                        return Err(ErrorCode::MathOverflow);
                    },
                };
                new_fund = match self.fund_fees_token_1.checked_add(fund_fee) {
                    Some(v) => v,
                    None => {
                        return Err(ErrorCode::MathOverflow);
                    },
                };
            },
        }
        let new_creator: u64 = if creator_on_0 {
            match self.creator_fees_token_0.checked_add(creator_fee) {
                Some(v) => v,
                None => {
                    return Err(ErrorCode::MathOverflow);
                },
            }
        } else {
            match self.creator_fees_token_1.checked_add(creator_fee) {
                Some(v) => v,
                None => {
                    return Err(ErrorCode::MathOverflow);
                },
            }
        };
        match direction {
            TradeDirection::ZeroForOne => {
                self.protocol_fees_token_0 = new_protocol;
                self.fund_fees_token_0 = new_fund;
            },
            TradeDirection::OneForZero => {
                self.protocol_fees_token_1 = new_protocol;
                self.fund_fees_token_1 = new_fund;
            },
        }
        if creator_on_0 {
            self.creator_fees_token_0 = new_creator;
        } else {
            self.creator_fees_token_1 = new_creator;
        }
        Ok(())
    }
}

/// Sets a pool's status byte through the administrative path: only the
/// protocol owner of the governing fee configuration may do it.
pub fn update_pool_status(
    pool_state: &mut PoolState,
    authority: &Address,
    amm_config: &AmmConfig,
    status: u8,
    epoch: u64,
) -> (r: Result<(), ErrorCode>)
    ensures
        authority@ != amm_config.protocol_owner@ ==> r == Err::<(), ErrorCode>(
            ErrorCode::InvalidOwner,
        ) && *final(pool_state) == *old(pool_state),
        authority@ == amm_config.protocol_owner@ ==> r is Ok && *final(pool_state) == (PoolState {
            status,
            recent_epoch: epoch,
            ..*old(pool_state)
        }),
{
    if !address_eq(authority, &amm_config.protocol_owner) {
        return Err(ErrorCode::InvalidOwner);
    }
    pool_state.set_status(status);
    pool_state.recent_epoch = epoch;
    Ok(())
}

/// The pool's most recent pre-trade price observation, recorded after each
/// swap for downstream consumers such as a time-weighted-average price
/// reader. The host materializes it from the observation account and
/// persists it back, as it does the pool state.
#[derive(Clone, Copy, Debug, PartialEq, Eq, Structural)]
pub struct ObservationState {
    /// Whether any observation has been recorded yet.
    pub initialized: bool,
    /// Timestamp of the most recent observation.
    pub block_timestamp: u64,
    /// Pre-trade price of token 0 in token 1 at that time, 64.64 fixed point.
    pub token_0_price_x64: u128,
    /// Pre-trade price of token 1 in token 0 at that time, 64.64 fixed point.
    pub token_1_price_x64: u128,
}

impl ObservationState {
    /// Records one swap's pre-trade prices.
    pub fn update(
        &mut self,
        block_timestamp: u64,
        token_0_price_x64: u128,
        token_1_price_x64: u128,
    )
        ensures
            *final(self) == (ObservationState {
                initialized: true,
                block_timestamp,
                token_0_price_x64,
                token_1_price_x64,
            }),
    {
        self.initialized = true;
        self.block_timestamp = block_timestamp;
        self.token_0_price_x64 = token_0_price_x64;
        self.token_1_price_x64 = token_1_price_x64;
    }
}

/// The identity and authority checks that guard writing liquidity-token
/// metadata: the presented mint must be the pool's liquidity-token mint and
/// the caller must be the pool creator. The metadata write itself is a host
/// concern outside the library.
pub fn check_lp_token_metadata(pool_state: &PoolState, lp_mint: &Address, authority: &Address) -> (r:
    Result<(), ErrorCode>)
    ensures
        r is Ok <==> lp_mint@ == pool_state.lp_mint@ && authority@ == pool_state.pool_creator@,
        lp_mint@ != pool_state.lp_mint@ ==> r == Err::<(), ErrorCode>(ErrorCode::InvalidInput),
        lp_mint@ == pool_state.lp_mint@ && authority@ != pool_state.pool_creator@ ==> r
            == Err::<(), ErrorCode>(ErrorCode::InvalidAuthority),
{
    if !address_eq(lp_mint, &pool_state.lp_mint) {
        return Err(ErrorCode::InvalidInput);
    }
    if !address_eq(authority, &pool_state.pool_creator) {
        return Err(ErrorCode::InvalidAuthority);
    }
    Ok(())
}

} // verus!
