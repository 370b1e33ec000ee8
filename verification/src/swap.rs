use vstd::prelude::*;

use crate::address::{address_eq, address_is_zero, Address};
use crate::amm_config::AmmConfig;
use crate::curve::{spec_swap_base_input, swap_base_input, SwapResult};
use crate::error::ErrorCode;
use crate::fees::{
    basis_points_portion, fee_floor, protocol_fee_portion_rate, reduced_trade_fee_rate,
    spec_basis_points, spec_fee_floor, DISCOUNT_RATE_DENOMINATOR,
};
use crate::pool_state::{PoolState, PoolStatusBitIndex, SwapParams, TradeDirection};
use crate::price_oracle::{
    calculate_protocol_token_amount, spec_account_images, spec_calculate_protocol_token_amount,
    spec_key_view, ORACLE_MAX_AGE_SECONDS,
};
use crate::protocol_token_config::ProtocolTokenConfig;
use crate::pyth::{OraclePrice, PythOracle};
use crate::spl_account::{get_transfer_fee, spec_transfer_fee};

verus! {

/// One read-snapshot of the accounts a swap request touches, taken at
/// request entry and passed by value to the computation.
pub struct SwapContextSnapshot {
    /// Wall-clock timestamp at evaluation time.
    pub block_timestamp: u64,
    /// Current epoch, which selects the token standard's transfer-fee
    /// schedule.
    pub epoch: u64,
    /// Identity of the vault the caller presents as the input side.
    pub input_vault_key: Address,
    /// Identity of the vault the caller presents as the output side.
    pub output_vault_key: Address,
    /// Balance of the input vault.
    pub input_vault_amount: u64,
    /// Balance of the output vault.
    pub output_vault_amount: u64,
    /// Mint of the input token.
    pub input_token_mint: Address,
    /// Decimal scale of the input token.
    pub input_mint_decimals: u8,
    /// Raw image of the input mint account, for its transfer-fee schedule.
    pub input_mint_data: Vec<u8>,
    /// Mint of the output token.
    pub output_token_mint: Address,
    /// Decimal scale of the output token.
    pub output_mint_decimals: u8,
    /// Raw image of the output mint account.
    pub output_mint_data: Vec<u8>,
}

/// The discount-path payment accounts: the settlement token's scale, the
/// payer's balance, and the reference pools that price the fee.
pub struct ProtocolTokenPaymentSnapshot {
    /// Decimal scale of the settlement token.
    pub protocol_token_decimals: u8,
    /// The payer's settlement-token balance.
    pub user_protocol_token_balance: u64,
    /// Identity of the presented settlement/USD reference pool.
    pub kedolog_usdc_pool_key: Address,
    /// Identity of the presented native/USD reference pool, if any.
    pub sol_usdc_pool_key: Option<Address>,
    /// Raw images of the reference vault accounts, in path order.
    pub vault_data: Vec<Vec<u8>>,
}

/// The alternative fee-token payment accounts: the fee token, the payer's
/// balance, and the two oracle feeds that price the conversion.
pub struct KTokenPaymentSnapshot {
    /// Mint of the fee token the payer offers.
    pub k_token_mint: Address,
    /// Decimal scale of the fee token.
    pub k_token_decimals: u8,
    /// The payer's fee-token balance.
    pub user_k_token_balance: u64,
    /// Raw image of the input token's oracle price account.
    pub input_feed_data: Vec<u8>,
    /// Raw image of the fee token's oracle price account.
    pub k_feed_data: Vec<u8>,
    /// Unix time the freshness of both feeds is judged against.
    pub now_unix: i64,
}

/// Everything the host must do to settle one approved swap: the transfer
/// amounts for each leg, the separately paid fee, and the figures the
/// pool's observation and event records carry.
#[derive(Clone, Copy, Debug, PartialEq, Eq, Structural)]
pub struct SwapSettlement {
    pub trade_direction: TradeDirection,
    /// Gross amount to move from the trader into the input vault.
    pub input_transfer_amount: u64,
    /// The token standard's fee on the input transfer.
    pub input_transfer_fee: u64,
    /// Gross amount to move from the output vault to the trader.
    pub output_transfer_amount: u64,
    /// The token standard's fee on the output transfer.
    pub output_transfer_fee: u64,
    /// The separately paid fee leg, in its own token's units.
    pub protocol_token_amount: u64,
    /// Input actually consumed by the curve (net of the input transfer fee).
    pub input_amount: u64,
    /// Output produced by the curve.
    pub output_amount: u64,
    /// Trade fee charged inside the curve.
    pub trade_fee: u64,
    /// Creator fee charged inside the curve.
    pub creator_fee: u64,
    /// Which leg the creator fee fell on.
    pub creator_fee_on_input: bool,
    /// Tradable input-side reserve before the swap.
    pub input_vault_before: u64,
    /// Tradable output-side reserve before the swap.
    pub output_vault_before: u64,
    /// Input-side reserve after the swap.
    pub new_input_vault_amount: u128,
    /// Output-side reserve after the swap.
    pub new_output_vault_amount: u128,
    /// Pre-trade price of token 0 in token 1, 64.64 fixed point.
    pub token_0_price_x64: u128,
    /// Pre-trade price of token 1 in token 0, 64.64 fixed point.
    pub token_1_price_x64: u128,
}

/// The settlement built from the curve's outcome and both transfer fees.
pub open spec fn spec_settlement(
    params: SwapParams,
    result: SwapResult,
    amount_in: u64,
    input_transfer_fee: u64,
    actual_amount_in: u64,
    output_transfer_fee: u64,
    protocol_token_amount: u64,
) -> SwapSettlement {
    SwapSettlement {
        trade_direction: params.trade_direction,
        input_transfer_amount: amount_in,
        input_transfer_fee,
        output_transfer_amount: result.output_amount as u64,
        output_transfer_fee,
        protocol_token_amount,
        input_amount: actual_amount_in,
        output_amount: result.output_amount as u64,
        trade_fee: result.trade_fee as u64,
        creator_fee: result.creator_fee as u64,
        creator_fee_on_input: params.is_creator_fee_on_input,
        input_vault_before: params.total_input_token_amount,
        output_vault_before: params.total_output_token_amount,
        new_input_vault_amount: result.new_input_vault_amount,
        new_output_vault_amount: result.new_output_vault_amount,
        token_0_price_x64: params.token_0_price_x64,
        token_1_price_x64: params.token_1_price_x64,
    }
}

/// The exact-input discount-path swap as a mathematical function: gating,
/// the input-leg transfer fee, the snapshot of swap parameters, the curve
/// run at the trade-fee rate with the protocol's share carved out, the
/// discounted protocol fee resolved into settlement-token units, the
/// output-leg transfer fee and slippage bound, and the fee-accounting
/// update. Any failure leaves the pool untouched.
pub open spec fn spec_swap_base_input_with_protocol_token(
    pool: PoolState,
    cfg: AmmConfig,
    ptc: ProtocolTokenConfig,
    amount_in: u64,
    minimum_amount_out: u64,
    ctx: SwapContextSnapshot,
    payment: ProtocolTokenPaymentSnapshot,
) -> Result<(PoolState, SwapSettlement), ErrorCode> {
    if !pool.spec_status_enabled(PoolStatusBitIndex::Swap) || ctx.block_timestamp
        < pool.open_time {
        Err(ErrorCode::NotApproved)
    } else if !(0 < ptc.discount_rate < DISCOUNT_RATE_DENOMINATOR) {
        Err(ErrorCode::InvalidInput)
    } else {
        match spec_transfer_fee(ctx.input_mint_data@, ctx.epoch, amount_in) {
            Err(e) => Err(e),
            Ok(input_transfer_fee) => {
                let actual: int = if input_transfer_fee >= amount_in {
                    0
                } else {
                    amount_in - input_transfer_fee
                };
                if actual == 0 {
                    Err(ErrorCode::InvalidInput)
                } else {
                    match pool.spec_get_swap_params(
                        ctx.input_vault_key@,
                        ctx.output_vault_key@,
                        ctx.input_vault_amount,
                        ctx.output_vault_amount,
                    ) {
                        Err(e) => Err(e),
                        Ok(params) => {
                            let creator_rate: u64 = if pool.enable_creator_fee {
                                cfg.creator_fee_rate
                            } else {
                                0
                            };
                            let portion = spec_fee_floor(
                                cfg.trade_fee_rate as int,
                                cfg.protocol_fee_rate as int,
                            );
                            let reduced: u64 = (cfg.trade_fee_rate - portion) as u64;
                            match spec_swap_base_input(
                                actual as u128,
                                params.total_input_token_amount as u128,
                                params.total_output_token_amount as u128,
                                reduced,
                                creator_rate,
                                0,
                                cfg.fund_fee_rate,
                                params.is_creator_fee_on_input,
                            ) {
                                None => Err(ErrorCode::InvalidInput),
                                Some(result) => {
                                    let original_protocol_fee = spec_fee_floor(actual, portion);
                                    let discounted = spec_basis_points(
                                        original_protocol_fee,
                                        DISCOUNT_RATE_DENOMINATOR - ptc.discount_rate,
                                    );
                                    if discounted == 0 {
                                        Err(ErrorCode::InvalidInput)
                                    } else {
                                        match spec_calculate_protocol_token_amount(
                                            discounted as u64,
                                            ctx.input_token_mint@,
                                            ctx.input_mint_decimals,
                                            ctx.output_token_mint@,
                                            ptc,
                                            payment.protocol_token_decimals,
                                            payment.kedolog_usdc_pool_key@,
                                            spec_key_view(payment.sol_usdc_pool_key),
                                            spec_account_images(payment.vault_data@),
                                            Some(ctx.input_vault_amount),
                                            Some(ctx.output_vault_amount),
                                        ) {
                                            Err(e) => Err(e),
                                            Ok(protocol_token_amount) => {
                                                if payment.user_protocol_token_balance
                                                    < protocol_token_amount {
                                                    Err(ErrorCode::InsufficientBalance)
                                                } else {
                                                    spec_settle_output_and_fees(
                                                        pool,
                                                        params,
                                                        result,
                                                        amount_in,
                                                        input_transfer_fee,
                                                        actual as u64,
                                                        minimum_amount_out,
                                                        ctx,
                                                        (discounted as u64),
                                                        protocol_token_amount,
                                                        true,
                                                    )
                                                }
                                            },
                                        }
                                    }
                                },
                            }
                        },
                    }
                }
            },
        }
    }
}

/// The shared tail of both swap paths: the output-leg transfer fee, the
/// zero-output and slippage checks against the net amount the counterpart
/// actually receives, and the fee-accounting update. `protocol_fee_accrued`
/// is what the pool books as protocol fee: the discounted separately-paid
/// fee on the discount path, the curve's own protocol fee otherwise. The
/// epoch stamp is refreshed only on the discount path, as its host
/// instruction does.
pub open spec fn spec_settle_output_and_fees(
    pool: PoolState,
    params: SwapParams,
    result: SwapResult,
    amount_in: u64,
    input_transfer_fee: u64,
    actual_amount_in: u64,
    minimum_amount_out: u64,
    ctx: SwapContextSnapshot,
    protocol_fee_accrued: u64,
    separately_paid_amount: u64,
    stamp_epoch: bool,
) -> Result<(PoolState, SwapSettlement), ErrorCode> {
    let out_amount: u64 = result.output_amount as u64;
    match spec_transfer_fee(ctx.output_mint_data@, ctx.epoch, out_amount) {
        Err(e) => Err(e),
        Ok(output_transfer_fee) => {
            if output_transfer_fee > out_amount {
                Err(ErrorCode::MathOverflow)
            } else {
                let received: int = out_amount - output_transfer_fee;
                if received == 0 {
                    Err(ErrorCode::InvalidInput)
                } else if received < minimum_amount_out {
                    Err(ErrorCode::ExceededSlippage)
                } else {
                    match pool.spec_update_fees(
                        protocol_fee_accrued,
                        result.fund_fee as u64,
                        result.creator_fee as u64,
                        params.trade_direction,
                    ) {
                        Err(e) => Err(e),
                        Ok(pool_after) => {
                            let pool_final = if stamp_epoch {
                                PoolState { recent_epoch: ctx.epoch, ..pool_after }
                            } else {
                                pool_after
                            };
                            Ok(
                                (
                                    pool_final,
                                    spec_settlement(
                                        params,
                                        result,
                                        amount_in,
                                        input_transfer_fee,
                                        actual_amount_in,
                                        output_transfer_fee,
                                        separately_paid_amount,
                                    ),
                                ),
                            )
                        },
                    }
                }
            }
        },
    }
}

/// Exact-input swap whose protocol-fee cut is paid in the settlement token
/// at a discount instead of being deducted from the swapped asset.
///
/// The trade-fee rate charged inside the curve has the protocol's share
/// carved out, so liquidity providers receive their full nominal share;
/// the protocol's share, discounted, is resolved into settlement-token
/// units through the reference pools. On success the constant product of
/// the reserves never decreases and the net output honours the slippage
/// bound; on any failure the pool state is left untouched.
pub fn swap_base_input_with_protocol_token(
    pool_state: &mut PoolState,
    amm_config: &AmmConfig,
    protocol_token_config: &ProtocolTokenConfig,
    amount_in: u64,
    minimum_amount_out: u64,
    ctx: &SwapContextSnapshot,
    payment: &ProtocolTokenPaymentSnapshot,
) -> (r: Result<SwapSettlement, ErrorCode>)
    requires
        amm_config.wf(),
    ensures
        match r {
            Ok(s) => spec_swap_base_input_with_protocol_token(
                *old(pool_state),
                *amm_config,
                *protocol_token_config,
                amount_in,
                minimum_amount_out,
                *ctx,
                *payment,
            ) == Ok::<(PoolState, SwapSettlement), ErrorCode>((*final(pool_state), s)),
            Err(e) => spec_swap_base_input_with_protocol_token(
                *old(pool_state),
                *amm_config,
                *protocol_token_config,
                amount_in,
                minimum_amount_out,
                *ctx,
                *payment,
            ) == Err::<(PoolState, SwapSettlement), ErrorCode>(e) && *final(pool_state) == *old(
                pool_state,
            ),
        },
        r matches Ok(s) ==> s.new_input_vault_amount * s.new_output_vault_amount
            >= s.input_vault_before * s.output_vault_before,
        r matches Ok(s) ==> s.output_transfer_amount - s.output_transfer_fee
            >= minimum_amount_out,
        !(old(pool_state).spec_status_enabled(PoolStatusBitIndex::Swap) && ctx.block_timestamp
            >= old(pool_state).open_time) <==> r == Err::<SwapSettlement, ErrorCode>(
            ErrorCode::NotApproved,
        ),
{
    if !pool_state.get_status_by_bit(PoolStatusBitIndex::Swap) || ctx.block_timestamp
        < pool_state.open_time {
        return Err(ErrorCode::NotApproved);
    }
    if !(0 < protocol_token_config.discount_rate && protocol_token_config.discount_rate
        < DISCOUNT_RATE_DENOMINATOR) {
        return Err(ErrorCode::InvalidInput);
    }
    let input_transfer_fee = match get_transfer_fee(&ctx.input_mint_data, ctx.epoch, amount_in) {
        Ok(f) => f,
        Err(e) => {
            return Err(e);
        },
    };
    let actual_amount_in: u64 = if input_transfer_fee >= amount_in {
        0
    } else {
        amount_in - input_transfer_fee
    };
    if actual_amount_in == 0 {
        return Err(ErrorCode::InvalidInput);
    }
    let params = match pool_state.get_swap_params(
        &ctx.input_vault_key,
        &ctx.output_vault_key,
        ctx.input_vault_amount,
        ctx.output_vault_amount,
    ) {
        Ok(p) => p,
        Err(e) => {
            return Err(e);
        },
    };
    let creator_fee_rate = pool_state.adjust_creator_fee_rate(amm_config.creator_fee_rate);
    let portion = protocol_fee_portion_rate(amm_config.trade_fee_rate, amm_config.protocol_fee_rate);
    let reduced = reduced_trade_fee_rate(amm_config.trade_fee_rate, amm_config.protocol_fee_rate);
    let result = match swap_base_input(
        actual_amount_in as u128,
        params.total_input_token_amount as u128,
        params.total_output_token_amount as u128,
        reduced,
        creator_fee_rate,
        0,
        amm_config.fund_fee_rate,
        params.is_creator_fee_on_input,
    ) {
        Some(v) => v,
        None => {
            return Err(ErrorCode::InvalidInput);
        },
    };
    let original_protocol_fee = fee_floor(actual_amount_in as u128, portion);
    let discounted = basis_points_portion(
        original_protocol_fee,
        DISCOUNT_RATE_DENOMINATOR - protocol_token_config.discount_rate,
    );
    if discounted == 0 {
        return Err(ErrorCode::InvalidInput);
    }
    let protocol_token_amount = match calculate_protocol_token_amount(
        discounted as u64,
        &ctx.input_token_mint,
        ctx.input_mint_decimals,
        &ctx.output_token_mint,
        ctx.output_mint_decimals,
        protocol_token_config,
        payment.protocol_token_decimals,
        &payment.kedolog_usdc_pool_key,
        payment.sol_usdc_pool_key,
        &payment.vault_data,
        Some(ctx.input_vault_amount),
        Some(ctx.output_vault_amount),
    ) {
        Ok(v) => v,
        Err(e) => {
            return Err(e);
        },
    };
    if payment.user_protocol_token_balance < protocol_token_amount {
        return Err(ErrorCode::InsufficientBalance);
    }
    settle_output_and_fees(
        pool_state,
        params,
        result,
        amount_in,
        input_transfer_fee,
        actual_amount_in,
        minimum_amount_out,
        ctx,
        discounted as u64,
        protocol_token_amount,
        true,
    )
}

/// Shared settlement tail of both swap paths, executable form.
fn settle_output_and_fees(
    pool_state: &mut PoolState,
    params: SwapParams,
    result: SwapResult,
    amount_in: u64,
    input_transfer_fee: u64,
    actual_amount_in: u64,
    minimum_amount_out: u64,
    ctx: &SwapContextSnapshot,
    protocol_fee_accrued: u64,
    separately_paid_amount: u64,
    stamp_epoch: bool,
) -> (r: Result<SwapSettlement, ErrorCode>)
    requires
        result.output_amount <= u64::MAX,
        result.trade_fee <= u64::MAX,
        result.creator_fee <= u64::MAX,
        result.fund_fee <= result.trade_fee,
    ensures
        match r {
            Ok(s) => spec_settle_output_and_fees(
                *old(pool_state),
                params,
                result,
                amount_in,
                input_transfer_fee,
                actual_amount_in,
                minimum_amount_out,
                *ctx,
                protocol_fee_accrued,
                separately_paid_amount,
                stamp_epoch,
            ) == Ok::<(PoolState, SwapSettlement), ErrorCode>((*final(pool_state), s)),
            Err(e) => spec_settle_output_and_fees(
                *old(pool_state),
                params,
                result,
                amount_in,
                input_transfer_fee,
                actual_amount_in,
                minimum_amount_out,
                *ctx,
                protocol_fee_accrued,
                separately_paid_amount,
                stamp_epoch,
            ) == Err::<(PoolState, SwapSettlement), ErrorCode>(e) && *final(pool_state) == *old(
                pool_state,
            ),
        },
{
    let out_amount: u64 = result.output_amount as u64;
    let output_transfer_fee = match get_transfer_fee(&ctx.output_mint_data, ctx.epoch, out_amount) {
        Ok(f) => f,
        Err(e) => {
            return Err(e);
        },
    };
    if output_transfer_fee > out_amount {
        return Err(ErrorCode::MathOverflow);
    }
    let received: u64 = out_amount - output_transfer_fee;
    if received == 0 {
        return Err(ErrorCode::InvalidInput);
    }
    if received < minimum_amount_out {
        return Err(ErrorCode::ExceededSlippage);
    }
    match pool_state.update_fees(
        protocol_fee_accrued,
        result.fund_fee as u64,
        result.creator_fee as u64,
        params.trade_direction,
    ) {
        Ok(_) => {},
        Err(e) => {
            return Err(e);
        },
    }
    if stamp_epoch {
        pool_state.recent_epoch = ctx.epoch;
    }
    Ok(
        SwapSettlement {
            trade_direction: params.trade_direction,
            input_transfer_amount: amount_in,
            input_transfer_fee,
            output_transfer_amount: out_amount,
            output_transfer_fee,
            protocol_token_amount: separately_paid_amount,
            input_amount: actual_amount_in,
            output_amount: out_amount,
            trade_fee: result.trade_fee as u64,
            creator_fee: result.creator_fee as u64,
            creator_fee_on_input: params.is_creator_fee_on_input,
            input_vault_before: params.total_input_token_amount,
            output_vault_before: params.total_output_token_amount,
            new_input_vault_amount: result.new_input_vault_amount,
            new_output_vault_amount: result.new_output_vault_amount,
            token_0_price_x64: params.token_0_price_x64,
            token_1_price_x64: params.token_1_price_x64,
        },
    )
}


/// The exact-input swap paid for in the alternative fee token as a
/// mathematical function: gating, the fee-token configuration checks, the
/// curve at the full fee rates, the trade fee less its discount priced through
/// two oracle feeds into fee-token units, the output-leg checks, and the
/// fee accounting including the collected fee-token total. Any failure
/// leaves the pool untouched.
pub open spec fn spec_swap_with_k_token(
    pool: PoolState,
    cfg: AmmConfig,
    amount_in: u64,
    minimum_amount_out: u64,
    ctx: SwapContextSnapshot,
    payment: KTokenPaymentSnapshot,
) -> Result<(PoolState, SwapSettlement), ErrorCode> {
    if !pool.spec_status_enabled(PoolStatusBitIndex::Swap) || ctx.block_timestamp
        < pool.open_time {
        Err(ErrorCode::NotApproved)
    } else if cfg.fee_token_mint.is_zero() {
        Err(ErrorCode::InvalidInput)
    } else if payment.k_token_mint@ != cfg.fee_token_mint@ {
        Err(ErrorCode::InvalidInput)
    } else {
        match spec_transfer_fee(ctx.input_mint_data@, ctx.epoch, amount_in) {
            Err(e) => Err(e),
            Ok(input_transfer_fee) => {
                let actual: int = if input_transfer_fee >= amount_in {
                    0
                } else {
                    amount_in - input_transfer_fee
                };
                if actual == 0 {
                    Err(ErrorCode::InvalidInput)
                } else {
                    match pool.spec_get_swap_params(
                        ctx.input_vault_key@,
                        ctx.output_vault_key@,
                        ctx.input_vault_amount,
                        ctx.output_vault_amount,
                    ) {
                        Err(e) => Err(e),
                        Ok(params) => {
                            let creator_rate: u64 = if pool.enable_creator_fee {
                                cfg.creator_fee_rate
                            } else {
                                0
                            };
                            match spec_swap_base_input(
                                actual as u128,
                                params.total_input_token_amount as u128,
                                params.total_output_token_amount as u128,
                                cfg.trade_fee_rate,
                                creator_rate,
                                cfg.protocol_fee_rate,
                                cfg.fund_fee_rate,
                                params.is_creator_fee_on_input,
                            ) {
                                None => Err(ErrorCode::InvalidInput),
                                Some(result) => {
                                    let discounted = spec_basis_points(
                                        result.trade_fee as int,
                                        DISCOUNT_RATE_DENOMINATOR - cfg.fee_token_discount_rate,
                                    );
                                    match PythOracle::spec_get_price(
                                        payment.input_feed_data@,
                                        payment.now_unix,
                                        ORACLE_MAX_AGE_SECONDS,
                                    ) {
                                        Err(e) => Err(e),
                                        Ok(input_price) => match PythOracle::spec_get_price(
                                            payment.k_feed_data@,
                                            payment.now_unix,
                                            ORACLE_MAX_AGE_SECONDS,
                                        ) {
                                            Err(e) => Err(e),
                                            Ok(k_price) => spec_k_token_payment_tail(
                                                pool,
                                                params,
                                                result,
                                                amount_in,
                                                input_transfer_fee,
                                                actual as u64,
                                                minimum_amount_out,
                                                ctx,
                                                payment,
                                                discounted as u64,
                                                input_price,
                                                k_price,
                                            ),
                                        },
                                    }
                                },
                            }
                        },
                    }
                }
            },
        }
    }
}

/// The tail of the fee-token path once both oracle prices are in hand: the
/// conversion into fee-token units, the payer's balance check, the shared
/// output settlement, and the collected fee-token total.
pub open spec fn spec_k_token_payment_tail(
    pool: PoolState,
    params: SwapParams,
    result: SwapResult,
    amount_in: u64,
    input_transfer_fee: u64,
    actual_amount_in: u64,
    minimum_amount_out: u64,
    ctx: SwapContextSnapshot,
    payment: KTokenPaymentSnapshot,
    discounted_fee: u64,
    input_price: OraclePrice,
    k_price: OraclePrice,
) -> Result<(PoolState, SwapSettlement), ErrorCode> {
    match PythOracle::spec_convert_token_amount(
        discounted_fee,
        input_price.price,
        input_price.expo,
        k_price.price,
        k_price.expo,
        ctx.input_mint_decimals,
        payment.k_token_decimals,
    ) {
        Err(e) => Err(e),
        Ok(k_token_fee_amount) => {
            if payment.user_k_token_balance < k_token_fee_amount {
                Err(ErrorCode::InsufficientBalance)
            } else if pool.collected_fee_token_amount + k_token_fee_amount > u64::MAX {
                Err(ErrorCode::MathOverflow)
            } else {
                match spec_settle_output_and_fees(
                    pool,
                    params,
                    result,
                    amount_in,
                    input_transfer_fee,
                    actual_amount_in,
                    minimum_amount_out,
                    ctx,
                    (result.protocol_fee as u64),
                    k_token_fee_amount,
                    false,
                ) {
                    Err(e) => Err(e),
                    Ok((pool_after, settlement)) => Ok(
                        (
                            PoolState {
                                collected_fee_token_amount: (pool_after.collected_fee_token_amount
                                    + k_token_fee_amount) as u64,
                                ..pool_after
                            },
                            settlement,
                        ),
                    ),
                }
            }
        },
    }
}

/// Exact-input swap whose trade fee, less the configured discount, is paid
/// in a separate fee token, priced by two push-oracle feeds read at the
/// same instant.
///
/// On success the constant product of the reserves never decreases and the
/// net output honours the slippage bound; on any failure the pool state is
/// left untouched.
#[verifier::rlimit(60)]
pub fn swap_with_k_token(
    pool_state: &mut PoolState,
    amm_config: &AmmConfig,
    amount_in: u64,
    minimum_amount_out: u64,
    ctx: &SwapContextSnapshot,
    payment: &KTokenPaymentSnapshot,
) -> (r: Result<SwapSettlement, ErrorCode>)
    requires
        amm_config.wf(),
    ensures
        match r {
            Ok(s) => spec_swap_with_k_token(
                *old(pool_state),
                *amm_config,
                amount_in,
                minimum_amount_out,
                *ctx,
                *payment,
            ) == Ok::<(PoolState, SwapSettlement), ErrorCode>((*final(pool_state), s)),
            Err(e) => spec_swap_with_k_token(
                *old(pool_state),
                *amm_config,
                amount_in,
                minimum_amount_out,
                *ctx,
                *payment,
            ) == Err::<(PoolState, SwapSettlement), ErrorCode>(e) && *final(pool_state) == *old(
                pool_state,
            ),
        },
        r matches Ok(s) ==> s.new_input_vault_amount * s.new_output_vault_amount
            >= s.input_vault_before * s.output_vault_before,
        r matches Ok(s) ==> s.output_transfer_amount - s.output_transfer_fee
            >= minimum_amount_out,
        !(old(pool_state).spec_status_enabled(PoolStatusBitIndex::Swap) && ctx.block_timestamp
            >= old(pool_state).open_time) <==> r == Err::<SwapSettlement, ErrorCode>(
            ErrorCode::NotApproved,
        ),
{
    if !pool_state.get_status_by_bit(PoolStatusBitIndex::Swap) || ctx.block_timestamp
        < pool_state.open_time {
        return Err(ErrorCode::NotApproved);
    }
    if address_is_zero(&amm_config.fee_token_mint) {
        return Err(ErrorCode::InvalidInput);
    }
    if !address_eq(&payment.k_token_mint, &amm_config.fee_token_mint) {
        return Err(ErrorCode::InvalidInput);
    }
    let input_transfer_fee = match get_transfer_fee(&ctx.input_mint_data, ctx.epoch, amount_in) {
        Ok(f) => f,
        Err(e) => {
            return Err(e);
        },
    };
    let actual_amount_in: u64 = if input_transfer_fee >= amount_in {
        0
    } else {
        amount_in - input_transfer_fee
    };
    if actual_amount_in == 0 {
        return Err(ErrorCode::InvalidInput);
    }
    let params = match pool_state.get_swap_params(
        &ctx.input_vault_key,
        &ctx.output_vault_key,
        ctx.input_vault_amount,
        ctx.output_vault_amount,
    ) {
        Ok(p) => p,
        Err(e) => {
            return Err(e);
        },
    };
    let creator_fee_rate = pool_state.adjust_creator_fee_rate(amm_config.creator_fee_rate);
    let result = match swap_base_input(
        actual_amount_in as u128,
        params.total_input_token_amount as u128,
        params.total_output_token_amount as u128,
        amm_config.trade_fee_rate,
        creator_fee_rate,
        amm_config.protocol_fee_rate,
        amm_config.fund_fee_rate,
        params.is_creator_fee_on_input,
    ) {
        Some(v) => v,
        None => {
            return Err(ErrorCode::InvalidInput);
        },
    };
    let discounted_fee = basis_points_portion(
        result.trade_fee,
        DISCOUNT_RATE_DENOMINATOR - amm_config.fee_token_discount_rate,
    );
    let input_price = match PythOracle::get_price(
        &payment.input_feed_data,
        payment.now_unix,
        ORACLE_MAX_AGE_SECONDS,
    ) {
        Ok(p) => p,
        Err(e) => {
            return Err(e);
        },
    };
    let k_price = match PythOracle::get_price(
        &payment.k_feed_data,
        payment.now_unix,
        ORACLE_MAX_AGE_SECONDS,
    ) {
        Ok(p) => p,
        Err(e) => {
            return Err(e);
        },
    };
    let k_token_fee_amount = match PythOracle::convert_token_amount(
        discounted_fee as u64,
        input_price.price,
        input_price.expo,
        k_price.price,
        k_price.expo,
        ctx.input_mint_decimals,
        payment.k_token_decimals,
    ) {
        Ok(v) => v,
        Err(e) => {
            return Err(e);
        },
    };
    if payment.user_k_token_balance < k_token_fee_amount {
        return Err(ErrorCode::InsufficientBalance);
    }
    let new_collected = match pool_state.collected_fee_token_amount.checked_add(
        k_token_fee_amount,
    ) {
        Some(v) => v,
        None => {
            return Err(ErrorCode::MathOverflow);
        },
    };
    let settlement = match settle_output_and_fees(
        pool_state,
        params,
        result,
        amount_in,
        input_transfer_fee,
        actual_amount_in,
        minimum_amount_out,
        ctx,
        result.protocol_fee as u64,
        k_token_fee_amount,
        false,
    ) {
        Ok(s) => s,
        Err(e) => {
            return Err(e);
        },
    };
    pool_state.collected_fee_token_amount = new_collected;
    Ok(settlement)
}

} // verus!
