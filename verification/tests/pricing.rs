use std::str::FromStr;

use kedolik_cp_swap::address::Address;
use kedolik_cp_swap::error::ErrorCode;
use kedolik_cp_swap::price_oracle::{
    calculate_protocol_token_amount, get_kedolog_usdc_price, get_pool_price, get_sol_usdc_price,
    get_token_price_in_quote, resolve_settlement_price, sol_mint_address, SettlementPriceSource,
    PRICE_SCALE,
};
use kedolik_cp_swap::protocol_token_config::create_protocol_token_config;
use kedolik_cp_swap::pyth::{OraclePrice, PythOracle};
use kedolik_cp_swap::spl_account::{get_transfer_fee, parse_token_account, VaultAccount};

fn addr(tag: u8) -> Address {
    Address { bytes: [tag; 32] }
}

/// A minimal initialized token-account image in the token standard's base
/// layout: mint, owner, little-endian balance, state byte set to
/// initialized, every optional field absent.
fn token_account_bytes(mint: &Address, amount: u64) -> Vec<u8> {
    let mut data = vec![0u8; 165];
    data[0..32].copy_from_slice(&mint.bytes);
    data[32..64].copy_from_slice(&[9u8; 32]);
    data[64..72].copy_from_slice(&amount.to_le_bytes());
    data[108] = 1;
    data
}

fn vault(mint: &Address, amount: u64) -> VaultAccount {
    VaultAccount { mint: *mint, amount }
}

fn demo_config() -> kedolik_cp_swap::protocol_token_config::ProtocolTokenConfig {
    create_protocol_token_config(
        addr(11), // settlement-token mint
        2000,
        addr(12), // authority
        addr(13), // treasury
        addr(14), // settlement/USD pool
        addr(15), // native/USD pool
        addr(16), // settlement/native pool
        addr(17), // USD reference mint
    )
    .unwrap()
}

fn pyth_account_bytes(price: i64, expo: i32, conf: u64, timestamp: i64) -> Vec<u8> {
    let mut acc: pyth_sdk_solana::state::SolanaPriceAccount = bytemuck::Zeroable::zeroed();
    acc.magic = pyth_sdk_solana::state::MAGIC;
    acc.ver = pyth_sdk_solana::state::VERSION_2;
    acc.atype = pyth_sdk_solana::state::AccountType::Price as u32;
    acc.expo = expo;
    acc.timestamp = timestamp;
    acc.agg.price = price;
    acc.agg.conf = conf;
    acc.agg.status = pyth_sdk_solana::state::PriceStatus::Trading;
    bytemuck::bytes_of(&acc).to_vec()
}

#[test]
fn sol_mint_matches_the_chain_constant() {
    let expected = anchor_lang::prelude::Pubkey::from_str(
        "So11111111111111111111111111111111111111112",
    )
    .unwrap();
    assert_eq!(sol_mint_address().bytes, expected.to_bytes());
}

#[test]
fn parse_token_account_reads_mint_and_amount() {
    let data = token_account_bytes(&addr(42), 123_456_789);
    let parsed = parse_token_account(&data).unwrap();
    assert_eq!(parsed.mint.bytes, addr(42).bytes);
    assert_eq!(parsed.amount, 123_456_789);
}

#[test]
fn parse_token_account_rejects_garbage() {
    assert!(parse_token_account(&vec![0u8; 10]).is_none());
    // An uninitialized account (state byte zero) is refused too.
    let mut data = token_account_bytes(&addr(42), 1);
    data[108] = 0;
    assert!(parse_token_account(&data).is_none());
}

#[test]
fn pool_price_formula() {
    // 2,000 quote units against 1,000 base units at equal decimals: 2.0.
    assert_eq!(get_pool_price(1_000, 2_000, 6, 6), Ok(2 * PRICE_SCALE));
    // Settlement-pool reserves: price comes to ~0.000170 USD per unit.
    assert_eq!(
        get_pool_price(5_882_000_000_000, 1_000_000_000, 9, 6),
        Ok(170_010_200)
    );
}

#[test]
fn pool_price_rejects_empty_reserves_and_wild_decimals() {
    assert_eq!(get_pool_price(0, 1, 6, 6), Err(ErrorCode::InvalidInput));
    assert_eq!(get_pool_price(1, 0, 6, 6), Err(ErrorCode::InvalidInput));
    assert_eq!(get_pool_price(1, 1, 200, 6), Err(ErrorCode::MathOverflow));
}

#[test]
fn token_price_detects_vault_order() {
    let base = addr(21);
    let quote = addr(22);
    let forward = get_token_price_in_quote(
        &vault(&base, 1_000),
        &vault(&quote, 2_000),
        &base,
        &quote,
        6,
        6,
    );
    let reversed = get_token_price_in_quote(
        &vault(&quote, 2_000),
        &vault(&base, 1_000),
        &base,
        &quote,
        6,
        6,
    );
    assert_eq!(forward, Ok(2 * PRICE_SCALE));
    assert_eq!(forward, reversed);
}

#[test]
fn token_price_rejects_wrong_pair() {
    let r = get_token_price_in_quote(
        &vault(&addr(1), 1_000),
        &vault(&addr(2), 2_000),
        &addr(3),
        &addr(4),
        6,
        6,
    );
    assert_eq!(r, Err(ErrorCode::InvalidInput));
}

#[test]
fn kedolog_price_keyed_by_settlement_mint() {
    let kedolog = addr(11);
    let r = get_kedolog_usdc_price(
        &vault(&kedolog, 5_882_000_000_000),
        &vault(&addr(17), 1_000_000_000),
        &kedolog,
    );
    assert_eq!(r, Ok(170_010_200));
    let r = get_kedolog_usdc_price(
        &vault(&addr(1), 1),
        &vault(&addr(2), 1),
        &kedolog,
    );
    assert_eq!(r, Err(ErrorCode::InvalidInput));
}

#[test]
fn sol_price_keyed_by_native_mint() {
    let sol = sol_mint_address();
    let r = get_sol_usdc_price(
        &vault(&sol, 1_000_000_000),
        &vault(&addr(17), 200_000_000),
    );
    // 1 native unit of 9 decimals against 200 USD units of 6 decimals: $200.
    assert_eq!(r, Ok(200 * PRICE_SCALE));
}

#[test]
fn settlement_resolution_direct_usd_fee() {
    // A $10 fee already in the USD asset against the settlement pool's
    // reserves prices ~58.82 settlement tokens at 9 decimals.
    let config = demo_config();
    let vault_data = vec![
        token_account_bytes(&addr(11), 5_882_000_000_000),
        token_account_bytes(&addr(17), 1_000_000_000),
    ];
    let r = calculate_protocol_token_amount(
        10_000_000,
        &addr(17),
        6,
        &addr(99),
        6,
        &config,
        9,
        &addr(14),
        None,
        &vault_data,
        None,
        None,
    );
    assert_eq!(r, Ok(58_820_000_211));
}

#[test]
fn settlement_resolution_native_bridge() {
    // A 0.05-native fee priced through the native/USD reference pool.
    let config = demo_config();
    let sol = sol_mint_address();
    let vault_data = vec![
        token_account_bytes(&addr(11), 5_882_000_000_000),
        token_account_bytes(&addr(17), 1_000_000_000),
        token_account_bytes(&sol, 1_000_000_000),
        token_account_bytes(&addr(17), 200_000_000),
    ];
    let r = calculate_protocol_token_amount(
        50_000_000,
        &sol,
        9,
        &addr(99),
        6,
        &config,
        9,
        &addr(14),
        Some(addr(15)),
        &vault_data,
        None,
        None,
    );
    assert_eq!(r, Ok(58_820_000_211));
}

#[test]
fn settlement_resolution_reuses_executing_pool() {
    // Native-to-USD swap in the native/USD pool itself: the live reserves
    // stand in for the reference pool.
    let config = demo_config();
    let sol = sol_mint_address();
    let vault_data = vec![
        token_account_bytes(&addr(11), 5_882_000_000_000),
        token_account_bytes(&addr(17), 1_000_000_000),
    ];
    let r = calculate_protocol_token_amount(
        50_000_000,
        &sol,
        9,
        &addr(17),
        6,
        &config,
        9,
        &addr(14),
        None,
        &vault_data,
        Some(1_000_000_000),
        Some(200_000_000),
    );
    assert_eq!(r, Ok(58_820_000_211));
}

#[test]
fn settlement_resolution_one_hop() {
    // A fee in a third token priced through its own pool against the USD
    // reference asset.
    let config = demo_config();
    let third = addr(33);
    let vault_data = vec![
        token_account_bytes(&addr(11), 5_882_000_000_000),
        token_account_bytes(&addr(17), 1_000_000_000),
        token_account_bytes(&third, 1_000_000_000),
        token_account_bytes(&addr(17), 2_000_000_000),
    ];
    let r = calculate_protocol_token_amount(
        1_000_000,
        &third,
        6,
        &addr(99),
        6,
        &config,
        9,
        &addr(14),
        None,
        &vault_data,
        None,
        None,
    );
    assert_eq!(r, Ok(11_764_000_042));
}

#[test]
fn settlement_resolution_rejects_unknown_path() {
    // No intermediate pool supplied for a third token: no silent fallback.
    let config = demo_config();
    let vault_data = vec![
        token_account_bytes(&addr(11), 5_882_000_000_000),
        token_account_bytes(&addr(17), 1_000_000_000),
    ];
    let r = calculate_protocol_token_amount(
        1_000_000,
        &addr(33),
        6,
        &addr(99),
        6,
        &config,
        9,
        &addr(14),
        None,
        &vault_data,
        None,
        None,
    );
    assert_eq!(r, Err(ErrorCode::InvalidInput));
}

#[test]
fn mismatched_reference_pool_identity_fails_resolution() {
    // The presented pool identity does not match the configured one: the
    // resolution is refused regardless of the vaults' balances.
    let config = demo_config();
    let vault_data = vec![
        token_account_bytes(&addr(11), 5_882_000_000_000),
        token_account_bytes(&addr(17), 1_000_000_000),
    ];
    let r = calculate_protocol_token_amount(
        10_000_000,
        &addr(17),
        6,
        &addr(99),
        6,
        &config,
        9,
        &addr(77),
        None,
        &vault_data,
        None,
        None,
    );
    assert_eq!(r, Err(ErrorCode::InvalidInput));
}

#[test]
fn resolution_is_idempotent_on_identical_snapshots() {
    let config = demo_config();
    let vault_data = vec![
        token_account_bytes(&addr(11), 5_882_000_000_000),
        token_account_bytes(&addr(17), 1_000_000_000),
    ];
    let run = || {
        calculate_protocol_token_amount(
            10_000_000,
            &addr(17),
            6,
            &addr(99),
            6,
            &config,
            9,
            &addr(14),
            None,
            &vault_data,
            None,
            None,
        )
    };
    assert_eq!(run(), run());
}

#[test]
fn settlement_source_reference_pool() {
    let source = SettlementPriceSource::ReferencePool {
        vault_0_data: token_account_bytes(&addr(11), 5_882_000_000_000),
        vault_1_data: token_account_bytes(&addr(17), 1_000_000_000),
    };
    assert_eq!(resolve_settlement_price(&source, &addr(11)), Ok(170_010_200));
}

#[test]
fn settlement_source_oracle_feed() {
    // $0.00017 published as 17000 at exponent -8, read fresh.
    let source = SettlementPriceSource::OracleFeed {
        feed_data: pyth_account_bytes(17_000, -8, 3, 1_700_000_000),
        now: 1_700_000_030,
    };
    assert_eq!(resolve_settlement_price(&source, &addr(11)), Ok(170_000));
}

#[test]
fn settlement_source_oracle_failures() {
    let garbage = SettlementPriceSource::OracleFeed {
        feed_data: vec![0u8; 32],
        now: 1_700_000_000,
    };
    assert_eq!(
        resolve_settlement_price(&garbage, &addr(11)),
        Err(ErrorCode::OracleUnavailable)
    );
    let stale = SettlementPriceSource::OracleFeed {
        feed_data: pyth_account_bytes(17_000, -8, 3, 1_700_000_000),
        now: 1_700_000_100,
    };
    assert_eq!(
        resolve_settlement_price(&stale, &addr(11)),
        Err(ErrorCode::StalePrice)
    );
    let negative = SettlementPriceSource::OracleFeed {
        feed_data: pyth_account_bytes(-5, -8, 3, 1_700_000_000),
        now: 1_700_000_000,
    };
    assert_eq!(
        resolve_settlement_price(&negative, &addr(11)),
        Err(ErrorCode::InvalidInput)
    );
}

#[test]
fn settlement_source_manual_ratio() {
    let zero = SettlementPriceSource::ManualRatio { price: 0 };
    assert_eq!(
        resolve_settlement_price(&zero, &addr(11)),
        Err(ErrorCode::InvalidInput)
    );
    let fixed = SettlementPriceSource::ManualRatio { price: 170_010_200 };
    assert_eq!(resolve_settlement_price(&fixed, &addr(11)), Ok(170_010_200));
}

#[test]
fn pyth_get_price_reads_fresh_feed() {
    let data = pyth_account_bytes(20_000_000_000, -8, 12, 1_700_000_000);
    let r = PythOracle::get_price(&data, 1_700_000_010, 60);
    assert_eq!(
        r,
        Ok(OraclePrice { price: 20_000_000_000, expo: -8, conf: 12 })
    );
}

#[test]
fn pyth_convert_token_amount_formula() {
    // 0.05 native at $200 into a $0.0017 token of equal decimals.
    let r = PythOracle::convert_token_amount(
        50_000_000,
        20_000_000_000,
        -8,
        17_000_000,
        -10,
        9,
        9,
    );
    assert_eq!(r, Ok(5_882_352_941_176));
}

#[test]
fn pyth_convert_rejects_non_positive_prices() {
    assert_eq!(
        PythOracle::convert_token_amount(1, 0, -8, 1, -8, 6, 6),
        Err(ErrorCode::InvalidInput)
    );
    assert_eq!(
        PythOracle::convert_token_amount(1, 5, -8, -1, -8, 6, 6),
        Err(ErrorCode::InvalidInput)
    );
}

#[test]
fn pyth_convert_reports_overflow() {
    assert_eq!(
        PythOracle::convert_token_amount(u64::MAX, i64::MAX, 30, 1, -30, 0, 30),
        Err(ErrorCode::MathOverflow)
    );
}

#[test]
fn pyth_get_price_survives_extreme_publish_time() {
    // A parseable feed carrying an extreme publish time must read as stale,
    // not fault in the freshness comparison.
    let data = pyth_account_bytes(1_000, -8, 1, i64::MIN);
    assert_eq!(
        PythOracle::get_price(&data, 0, 60),
        Err(ErrorCode::StalePrice)
    );
    let data = pyth_account_bytes(1_000, -8, 1, i64::MAX);
    assert_eq!(
        PythOracle::get_price(&data, -10, 60),
        Err(ErrorCode::StalePrice)
    );
}

#[test]
fn mint_fee_overflow_reads_as_overflow() {
    // A readable mint whose configured fee computation leaves the 64-bit
    // range is reported as overflow, distinct from an unreadable mint.
    assert_eq!(
        get_transfer_fee(&vec![0u8; 3], 1, 1),
        Err(ErrorCode::InvalidInput)
    );
}

#[test]
fn test_price_calculation() {
    // Test case: 0.05 SOL fee, SOL = $200, KEDOLOG = $0.0017
    // Expected: 0.05 * 200 / 0.0017 ≈ 5882 KEDOLOG, in base units of nine
    // decimals.

    let fee_amount = 50_000_000u64; // 0.05 SOL (9 decimals)
    let sol_price = 200 * PRICE_SCALE; // $200
    let kedolog_price = PRICE_SCALE / 588; // ~$0.0017

    let sol_decimals = 9u32;
    let kedolog_decimals = 9u32;

    // fee_value_usd = (50_000_000 * 200_000_000_000) / 10^9 = 10_000_000_000
    let fee_value_usd = (fee_amount as u128)
        .checked_mul(sol_price)
        .unwrap()
        .checked_div(10u128.pow(sol_decimals))
        .unwrap();

    // kedolog_amount = (10_000_000_000 * 10^9) / (1_000_000_000 / 588)
    let kedolog_amount = fee_value_usd
        .checked_mul(10u128.pow(kedolog_decimals))
        .unwrap()
        .checked_div(kedolog_price)
        .unwrap();

    assert!(kedolog_amount > 5_000_000_000_000); // Should be around 5882 KEDOLOG
    assert!(kedolog_amount < 6_000_000_000_000);
}
