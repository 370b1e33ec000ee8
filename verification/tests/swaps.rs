use kedolik_cp_swap::address::Address;
use kedolik_cp_swap::amm_config::{create_amm_config, AmmConfig};
use kedolik_cp_swap::error::ErrorCode;
use kedolik_cp_swap::pool_state::{CreatorFeeOn, ObservationState, PoolState, TradeDirection};
use kedolik_cp_swap::protocol_token_config::create_protocol_token_config;
use kedolik_cp_swap::swap::{
    swap_base_input_with_protocol_token, swap_with_k_token, KTokenPaymentSnapshot,
    ProtocolTokenPaymentSnapshot, SwapContextSnapshot,
};

fn addr(tag: u8) -> Address {
    Address { bytes: [tag; 32] }
}

fn token_account_bytes(mint: &Address, amount: u64) -> Vec<u8> {
    let mut data = vec![0u8; 165];
    data[0..32].copy_from_slice(&mint.bytes);
    data[32..64].copy_from_slice(&[9u8; 32]);
    data[64..72].copy_from_slice(&amount.to_le_bytes());
    data[108] = 1;
    data
}

/// A minimal initialized mint image in the token standard's base layout,
/// with no extensions, so it charges no transfer fee.
fn mint_bytes(decimals: u8) -> Vec<u8> {
    let mut data = vec![0u8; 82];
    data[44] = decimals;
    data[45] = 1;
    data
}

fn pyth_account_bytes(price: i64, expo: i32, conf: u64, timestamp: i64) -> Vec<u8> {
    let mut acc: pyth_sdk_solana::state::SolanaPriceAccount = bytemuck::Zeroable::zeroed();
    acc.magic = pyth_sdk_solana::state::MAGIC;
    acc.ver = pyth_sdk_solana::state::VERSION_2;
    acc.atype = pyth_sdk_solana::state::AccountType::Price as u32;
    acc.expo = expo;
    acc.timestamp = timestamp;
    acc.agg.price = price;
    acc.agg.conf = conf;
    acc.agg.status = pyth_sdk_solana::state::PriceStatus::Trading;
    bytemuck::bytes_of(&acc).to_vec()
}

fn base_pool() -> PoolState {
    PoolState {
        amm_config: addr(1),
        pool_creator: addr(2),
        token_0_vault: addr(3),
        token_1_vault: addr(4),
        lp_mint: addr(5),
        token_0_mint: addr(17),
        token_1_mint: addr(7),
        fee_token_vault: addr(8),
        observation_key: addr(9),
        auth_bump: 255,
        status: 0,
        open_time: 0,
        recent_epoch: 0,
        protocol_fees_token_0: 0,
        protocol_fees_token_1: 0,
        fund_fees_token_0: 0,
        fund_fees_token_1: 0,
        creator_fees_token_0: 0,
        creator_fees_token_1: 0,
        collected_fee_token_amount: 0,
        enable_creator_fee: false,
        creator_fee_on: CreatorFeeOn::BothToken,
    }
}

fn base_ctx() -> SwapContextSnapshot {
    SwapContextSnapshot {
        block_timestamp: 1_700_000_000,
        epoch: 500,
        input_vault_key: addr(3),
        output_vault_key: addr(4),
        input_vault_amount: 1_000_000,
        output_vault_amount: 2_000_000,
        input_token_mint: addr(17),
        input_mint_decimals: 6,
        input_mint_data: mint_bytes(6),
        output_token_mint: addr(7),
        output_mint_decimals: 6,
        output_mint_data: mint_bytes(6),
    }
}

fn discount_cfg() -> AmmConfig {
    create_amm_config(0, 2500, 200_000, 0, 0, 0, addr(1), addr(2), addr(3)).unwrap()
}

fn discount_payment() -> ProtocolTokenPaymentSnapshot {
    ProtocolTokenPaymentSnapshot {
        protocol_token_decimals: 9,
        user_protocol_token_balance: 1_000_000,
        kedolog_usdc_pool_key: addr(14),
        sol_usdc_pool_key: None,
        vault_data: vec![
            token_account_bytes(&addr(11), 5_882_000_000_000),
            token_account_bytes(&addr(17), 1_000_000_000),
        ],
    }
}

fn protocol_token_cfg() -> kedolik_cp_swap::protocol_token_config::ProtocolTokenConfig {
    create_protocol_token_config(
        addr(11),
        2000,
        addr(12),
        addr(13),
        addr(14),
        addr(15),
        addr(16),
        addr(17),
    )
    .unwrap()
}

#[test]
fn discount_swap_full_scenario() {
    // Reserves (1,000,000, 2,000,000), trade fee 0.25% of which the
    // protocol takes 20%: the curve runs at the reduced 0.20% rate, the
    // protocol's 5-unit cut is discounted 20% to 4 and paid separately.
    let mut pool = base_pool();
    let r = swap_base_input_with_protocol_token(
        &mut pool,
        &discount_cfg(),
        &protocol_token_cfg(),
        10_000,
        0,
        &base_ctx(),
        &discount_payment(),
    )
    .unwrap();
    assert_eq!(r.trade_direction, TradeDirection::ZeroForOne);
    assert_eq!(r.input_amount, 10_000);
    assert_eq!(r.input_transfer_fee, 0);
    assert_eq!(r.trade_fee, 20);
    assert_eq!(r.output_amount, 19_762);
    assert_eq!(r.output_transfer_fee, 0);
    assert_eq!(r.protocol_token_amount, 23_528);
    assert!(
        r.new_input_vault_amount * r.new_output_vault_amount
            >= (r.input_vault_before as u128) * (r.output_vault_before as u128)
    );
    // The discounted cut is booked as the protocol fee on the input side.
    assert_eq!(pool.protocol_fees_token_0, 4);
    assert_eq!(pool.fund_fees_token_0, 0);
    assert_eq!(pool.recent_epoch, 500);
}

#[test]
fn discount_swap_rejects_closed_pool() {
    let mut pool = base_pool();
    pool.set_status(0b100);
    let r = swap_base_input_with_protocol_token(
        &mut pool,
        &discount_cfg(),
        &protocol_token_cfg(),
        10_000,
        0,
        &base_ctx(),
        &discount_payment(),
    );
    assert_eq!(r.unwrap_err(), ErrorCode::NotApproved);

    let mut pool = base_pool();
    pool.open_time = 1_700_000_001;
    let r = swap_base_input_with_protocol_token(
        &mut pool,
        &discount_cfg(),
        &protocol_token_cfg(),
        10_000,
        0,
        &base_ctx(),
        &discount_payment(),
    );
    assert_eq!(r.unwrap_err(), ErrorCode::NotApproved);
}

#[test]
fn discount_swap_enforces_slippage_on_net_amount() {
    let mut pool = base_pool();
    let r = swap_base_input_with_protocol_token(
        &mut pool,
        &discount_cfg(),
        &protocol_token_cfg(),
        10_000,
        19_763,
        &base_ctx(),
        &discount_payment(),
    );
    assert_eq!(r.unwrap_err(), ErrorCode::ExceededSlippage);
    assert_eq!(pool, base_pool());
}

#[test]
fn discount_swap_requires_settlement_token_balance() {
    let mut pool = base_pool();
    let mut payment = discount_payment();
    payment.user_protocol_token_balance = 23_527;
    let r = swap_base_input_with_protocol_token(
        &mut pool,
        &discount_cfg(),
        &protocol_token_cfg(),
        10_000,
        0,
        &base_ctx(),
        &payment,
    );
    assert_eq!(r.unwrap_err(), ErrorCode::InsufficientBalance);
    assert_eq!(pool, base_pool());
}

#[test]
fn discount_swap_checks_reference_pool_identity() {
    let mut pool = base_pool();
    let mut payment = discount_payment();
    payment.kedolog_usdc_pool_key = addr(77);
    let r = swap_base_input_with_protocol_token(
        &mut pool,
        &discount_cfg(),
        &protocol_token_cfg(),
        10_000,
        0,
        &base_ctx(),
        &payment,
    );
    assert_eq!(r.unwrap_err(), ErrorCode::InvalidInput);
}

fn k_token_cfg() -> AmmConfig {
    let mut cfg =
        create_amm_config(0, 2500, 200_000, 100_000, 0, 0, addr(1), addr(2), addr(3)).unwrap();
    cfg.fee_token_mint = addr(50);
    cfg.fee_token_discount_rate = 2000;
    cfg
}

fn k_payment() -> KTokenPaymentSnapshot {
    KTokenPaymentSnapshot {
        k_token_mint: addr(50),
        k_token_decimals: 6,
        user_k_token_balance: 1_000_000,
        input_feed_data: pyth_account_bytes(100_000_000, -8, 1, 1_700_000_000),
        k_feed_data: pyth_account_bytes(50_000_000, -8, 1, 1_700_000_000),
        now_unix: 1_700_000_000,
    }
}

#[test]
fn k_token_swap_full_scenario() {
    // Full 0.25% trade fee inside the curve; the 25-unit fee at a 20%
    // discount leaves 20 units to pay, converted through $1 and $0.50
    // oracle prices into forty fee-token units.
    let mut pool = base_pool();
    let r = swap_with_k_token(
        &mut pool,
        &k_token_cfg(),
        10_000,
        0,
        &base_ctx(),
        &k_payment(),
    )
    .unwrap();
    assert_eq!(r.trade_fee, 25);
    assert_eq!(r.output_amount, 19_752);
    assert_eq!(r.protocol_token_amount, 40);
    assert!(
        r.new_input_vault_amount * r.new_output_vault_amount
            >= (r.input_vault_before as u128) * (r.output_vault_before as u128)
    );
    assert_eq!(pool.protocol_fees_token_0, 5);
    assert_eq!(pool.fund_fees_token_0, 2);
    assert_eq!(pool.collected_fee_token_amount, 40);
}

#[test]
fn k_token_swap_requires_enabled_fee_token() {
    let mut pool = base_pool();
    let cfg = create_amm_config(0, 2500, 200_000, 100_000, 0, 0, addr(1), addr(2), addr(3))
        .unwrap();
    let r = swap_with_k_token(&mut pool, &cfg, 10_000, 0, &base_ctx(), &k_payment());
    assert_eq!(r.unwrap_err(), ErrorCode::InvalidInput);
}

#[test]
fn k_token_swap_rejects_wrong_fee_token() {
    let mut pool = base_pool();
    let mut payment = k_payment();
    payment.k_token_mint = addr(51);
    let r = swap_with_k_token(&mut pool, &k_token_cfg(), 10_000, 0, &base_ctx(), &payment);
    assert_eq!(r.unwrap_err(), ErrorCode::InvalidInput);
}

#[test]
fn k_token_swap_requires_fresh_oracle() {
    let mut pool = base_pool();
    let mut payment = k_payment();
    payment.now_unix = 1_700_000_100;
    let r = swap_with_k_token(&mut pool, &k_token_cfg(), 10_000, 0, &base_ctx(), &payment);
    assert_eq!(r.unwrap_err(), ErrorCode::StalePrice);
    assert_eq!(pool, base_pool());

    let mut payment = k_payment();
    payment.input_feed_data = vec![0u8; 16];
    let r = swap_with_k_token(&mut pool, &k_token_cfg(), 10_000, 0, &base_ctx(), &payment);
    assert_eq!(r.unwrap_err(), ErrorCode::OracleUnavailable);
}

#[test]
fn k_token_swap_requires_balance() {
    let mut pool = base_pool();
    let mut payment = k_payment();
    payment.user_k_token_balance = 39;
    let r = swap_with_k_token(&mut pool, &k_token_cfg(), 10_000, 0, &base_ctx(), &payment);
    assert_eq!(r.unwrap_err(), ErrorCode::InsufficientBalance);
    assert_eq!(pool, base_pool());
}

#[test]
fn observation_records_pre_trade_prices() {
    // The settlement carries the pre-trade prices; recording them updates
    // the observation for downstream consumers.
    let mut pool = base_pool();
    let r = swap_base_input_with_protocol_token(
        &mut pool,
        &discount_cfg(),
        &protocol_token_cfg(),
        10_000,
        0,
        &base_ctx(),
        &discount_payment(),
    )
    .unwrap();
    let mut observation = ObservationState {
        initialized: false,
        block_timestamp: 0,
        token_0_price_x64: 0,
        token_1_price_x64: 0,
    };
    observation.update(base_ctx().block_timestamp, r.token_0_price_x64, r.token_1_price_x64);
    assert!(observation.initialized);
    assert_eq!(observation.block_timestamp, 1_700_000_000);
    assert_eq!(observation.token_0_price_x64, r.token_0_price_x64);
    assert_eq!(observation.token_1_price_x64, r.token_1_price_x64);
    // Pre-trade price of token 0 in token 1 on reserves (1e6, 2e6) is 2.0.
    assert_eq!(r.token_0_price_x64, 2u128 << 64);
}
