use kedolik_cp_swap::address::{address_eq, address_is_zero, Address};
use kedolik_cp_swap::amm_config::create_amm_config;
use kedolik_cp_swap::error::ErrorCode;
use kedolik_cp_swap::pool_state::{
    check_lp_token_metadata, update_pool_status, CreatorFeeOn, PoolState, PoolStatusBitIndex,
    TradeDirection,
};
use kedolik_cp_swap::protocol_token_config::{
    create_protocol_token_config, update_protocol_token_config,
};

fn addr(tag: u8) -> Address {
    Address { bytes: [tag; 32] }
}

fn base_pool() -> PoolState {
    PoolState {
        amm_config: addr(1),
        pool_creator: addr(2),
        token_0_vault: addr(3),
        token_1_vault: addr(4),
        lp_mint: addr(5),
        token_0_mint: addr(6),
        token_1_mint: addr(7),
        fee_token_vault: addr(8),
        observation_key: addr(9),
        auth_bump: 255,
        status: 0,
        open_time: 0,
        recent_epoch: 0,
        protocol_fees_token_0: 0,
        protocol_fees_token_1: 0,
        fund_fees_token_0: 0,
        fund_fees_token_1: 0,
        creator_fees_token_0: 0,
        creator_fees_token_1: 0,
        collected_fee_token_amount: 0,
        enable_creator_fee: false,
        creator_fee_on: CreatorFeeOn::BothToken,
    }
}

#[test]
fn address_equality_and_zero() {
    assert!(address_eq(&addr(7), &addr(7)));
    assert!(!address_eq(&addr(7), &addr(8)));
    assert!(address_is_zero(&Address::zero()));
    assert!(!address_is_zero(&addr(1)));
}

#[test]
fn amm_config_accepts_valid_rates() {
    let cfg = create_amm_config(0, 2500, 200_000, 100_000, 1_000, 100, addr(1), addr(2), addr(3))
        .unwrap();
    assert_eq!(cfg.trade_fee_rate, 2500);
    assert_eq!(cfg.protocol_fee_rate, 200_000);
    assert_eq!(cfg.fund_fee_rate, 100_000);
    assert_eq!(cfg.creator_fee_rate, 100);
    assert_eq!(cfg.fee_token_discount_rate, 0);
}

#[test]
fn amm_config_rejects_invariant_violations() {
    // trade + creator must stay under the denominator.
    assert_eq!(
        create_amm_config(0, 999_999, 0, 0, 0, 1, addr(1), addr(2), addr(3)),
        Err(ErrorCode::InvalidInput)
    );
    // protocol + fund must not exceed the denominator.
    assert_eq!(
        create_amm_config(0, 2500, 600_000, 600_000, 0, 0, addr(1), addr(2), addr(3)),
        Err(ErrorCode::InvalidInput)
    );
    assert_eq!(
        create_amm_config(0, 2500, 1_000_001, 0, 0, 0, addr(1), addr(2), addr(3)),
        Err(ErrorCode::InvalidInput)
    );
}

#[test]
fn discount_rate_boundaries() {
    // 1 and 9999 basis points are accepted; 0 and 10000 are refused.
    for rate in [1u64, 9999] {
        let cfg = create_protocol_token_config(
            addr(1),
            rate,
            addr(2),
            addr(3),
            addr(4),
            addr(5),
            addr(6),
            addr(7),
        );
        assert_eq!(cfg.unwrap().discount_rate, rate);
    }
    for rate in [0u64, 10_000] {
        let cfg = create_protocol_token_config(
            addr(1),
            rate,
            addr(2),
            addr(3),
            addr(4),
            addr(5),
            addr(6),
            addr(7),
        );
        assert_eq!(cfg.unwrap_err(), ErrorCode::InvalidInput);
    }
}

#[test]
fn config_update_requires_authority() {
    let mut cfg = create_protocol_token_config(
        addr(1),
        2000,
        addr(2),
        addr(3),
        addr(4),
        addr(5),
        addr(6),
        addr(7),
    )
    .unwrap();
    let r = update_protocol_token_config(
        &mut cfg,
        &addr(99),
        Some(3000),
        None,
        None,
        None,
        None,
        None,
    );
    assert_eq!(r, Err(ErrorCode::InvalidOwner));
    assert_eq!(cfg.discount_rate, 2000);
}

#[test]
fn config_update_applies_fields_and_checks_rate() {
    let mut cfg = create_protocol_token_config(
        addr(1),
        2000,
        addr(2),
        addr(3),
        addr(4),
        addr(5),
        addr(6),
        addr(7),
    )
    .unwrap();
    let r = update_protocol_token_config(
        &mut cfg,
        &addr(2),
        Some(10_000),
        None,
        None,
        None,
        None,
        None,
    );
    assert_eq!(r, Err(ErrorCode::InvalidInput));
    assert_eq!(cfg.discount_rate, 2000);

    let r = update_protocol_token_config(
        &mut cfg,
        &addr(2),
        Some(2500),
        Some(addr(30)),
        Some(addr(40)),
        None,
        None,
        Some(addr(50)),
    );
    assert!(r.is_ok());
    assert_eq!(cfg.discount_rate, 2500);
    assert!(address_eq(&cfg.treasury, &addr(30)));
    assert!(address_eq(&cfg.kedolog_usdc_pool, &addr(40)));
    assert!(address_eq(&cfg.authority, &addr(50)));
    // The ownership transfer was explicit: the old authority is out.
    let r = update_protocol_token_config(&mut cfg, &addr(2), None, None, None, None, None, None);
    assert_eq!(r, Err(ErrorCode::InvalidOwner));
}

#[test]
fn status_bits_gate_operations() {
    let mut pool = base_pool();
    assert!(pool.get_status_by_bit(PoolStatusBitIndex::Swap));
    pool.set_status(0b100);
    assert!(!pool.get_status_by_bit(PoolStatusBitIndex::Swap));
    assert!(pool.get_status_by_bit(PoolStatusBitIndex::Deposit));
    assert!(pool.get_status_by_bit(PoolStatusBitIndex::Withdraw));
}

#[test]
fn pool_status_update_requires_protocol_owner() {
    let mut pool = base_pool();
    let cfg = create_amm_config(0, 2500, 200_000, 0, 0, 0, addr(1), addr(20), addr(3)).unwrap();
    assert_eq!(
        update_pool_status(&mut pool, &addr(99), &cfg, 4, 7),
        Err(ErrorCode::InvalidOwner)
    );
    assert_eq!(pool.status, 0);
    assert!(update_pool_status(&mut pool, &addr(20), &cfg, 4, 7).is_ok());
    assert_eq!(pool.status, 4);
    assert_eq!(pool.recent_epoch, 7);
}

#[test]
fn swap_params_detect_direction_and_net_fees() {
    let mut pool = base_pool();
    pool.protocol_fees_token_0 = 100;
    pool.fund_fees_token_0 = 50;
    let p = pool
        .get_swap_params(&addr(3), &addr(4), 1_000_000, 2_000_000)
        .unwrap();
    assert_eq!(p.trade_direction, TradeDirection::ZeroForOne);
    assert_eq!(p.total_input_token_amount, 999_850);
    assert_eq!(p.total_output_token_amount, 2_000_000);

    let q = pool
        .get_swap_params(&addr(4), &addr(3), 2_000_000, 1_000_000)
        .unwrap();
    assert_eq!(q.trade_direction, TradeDirection::OneForZero);
    assert_eq!(q.total_input_token_amount, 2_000_000);
    assert_eq!(q.total_output_token_amount, 999_850);
}

#[test]
fn swap_params_reject_unknown_vaults() {
    let pool = base_pool();
    assert_eq!(
        pool.get_swap_params(&addr(3), &addr(9), 1, 1).unwrap_err(),
        ErrorCode::InvalidInput
    );
    assert_eq!(
        pool.get_swap_params(&addr(4), &addr(4), 1, 1).unwrap_err(),
        ErrorCode::InvalidInput
    );
}

#[test]
fn swap_params_reject_overdrawn_or_empty_reserves() {
    let mut pool = base_pool();
    pool.protocol_fees_token_0 = 10;
    assert_eq!(
        pool.get_swap_params(&addr(3), &addr(4), 5, 100).unwrap_err(),
        ErrorCode::MathOverflow
    );
    assert_eq!(
        pool.get_swap_params(&addr(3), &addr(4), 10, 100).unwrap_err(),
        ErrorCode::InvalidInput
    );
}

#[test]
fn fee_accrual_lands_on_input_side() {
    let mut pool = base_pool();
    assert!(pool.update_fees(5, 2, 1, TradeDirection::ZeroForOne).is_ok());
    assert_eq!(pool.protocol_fees_token_0, 5);
    assert_eq!(pool.fund_fees_token_0, 2);
    assert_eq!(pool.creator_fees_token_0, 1);
    assert!(pool.update_fees(7, 3, 2, TradeDirection::OneForZero).is_ok());
    assert_eq!(pool.protocol_fees_token_1, 7);
    assert_eq!(pool.fund_fees_token_1, 3);
    assert_eq!(pool.creator_fees_token_1, 2);
}

#[test]
fn fee_accrual_overflow_is_refused() {
    let mut pool = base_pool();
    pool.protocol_fees_token_0 = u64::MAX;
    let before = pool;
    assert_eq!(
        pool.update_fees(1, 0, 0, TradeDirection::ZeroForOne),
        Err(ErrorCode::MathOverflow)
    );
    assert_eq!(pool.protocol_fees_token_0, before.protocol_fees_token_0);
}

#[test]
fn lp_metadata_checks() {
    let pool = base_pool();
    assert!(check_lp_token_metadata(&pool, &addr(5), &addr(2)).is_ok());
    assert_eq!(
        check_lp_token_metadata(&pool, &addr(6), &addr(2)),
        Err(ErrorCode::InvalidInput)
    );
    assert_eq!(
        check_lp_token_metadata(&pool, &addr(5), &addr(9)),
        Err(ErrorCode::InvalidAuthority)
    );
}
