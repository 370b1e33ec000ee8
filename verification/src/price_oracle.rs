use vstd::prelude::*;

use crate::address::Address;
use crate::error::ErrorCode;
use crate::math::{pow10, spec_pow10};
use crate::protocol_token_config::ProtocolTokenConfig;
use crate::pyth::PythOracle;
use crate::spl_account::{
    parse_token_account, spl_token_account_accepted, u64_from_le_bytes, VaultAccount,
};

verus! {

/// Prices are scaled by 10^9 for precision.
pub const PRICE_SCALE: u128 = 1_000_000_000;

/// Decimal scale of the chain's native asset.
pub const SOL_DECIMALS: u8 = 9;

/// Decimal scale of the USD-pegged reference asset.
pub const USDC_DECIMALS: u8 = 6;

/// Decimal scale of the settlement token.
pub const KEDOLOG_DECIMALS: u8 = 9;

/// The mint identity of the chain's native asset in wrapped form.
pub open spec fn sol_mint_bytes() -> Seq<u8> {
    seq![
        0x06u8,
        0x9bu8,
        0x88u8,
        0x57u8,
        0xfeu8,
        0xabu8,
        0x81u8,
        0x84u8,
        0xfbu8,
        0x68u8,
        0x7fu8,
        0x63u8,
        0x46u8,
        0x18u8,
        0xc0u8,
        0x35u8,
        0xdau8,
        0xc4u8,
        0x39u8,
        0xdcu8,
        0x1au8,
        0xebu8,
        0x3bu8,
        0x55u8,
        0x98u8,
        0xa0u8,
        0xf0u8,
        0x00u8,
        0x00u8,
        0x00u8,
        0x00u8,
        0x01u8,
    ]
}

/// The wrapped native-asset mint as an executable identity.
pub fn sol_mint_address() -> (a: Address)
    ensures
        a@ == sol_mint_bytes(),
{
    let a = Address {
        bytes: [
            0x06u8, 0x9bu8, 0x88u8, 0x57u8, 0xfeu8, 0xabu8, 0x81u8, 0x84u8, 0xfbu8, 0x68u8, 0x7fu8,
            0x63u8, 0x46u8, 0x18u8, 0xc0u8, 0x35u8, 0xdau8, 0xc4u8, 0x39u8, 0xdcu8, 0x1au8, 0xebu8,
            0x3bu8, 0x55u8, 0x98u8, 0xa0u8, 0xf0u8, 0x00u8, 0x00u8, 0x00u8, 0x00u8, 0x01u8,
        ],
    };
    proof {
        assert(a.bytes@ =~= sol_mint_bytes());
    }
    a
}

/// The scaled price of one base unit in quote units, read from a reserve
/// pair: `quote_reserve * 10^9 * 10^base_decimals /
/// (base_reserve * 10^quote_decimals)`, floor division. An empty reserve is
/// refused as invalid input; a decimal scale whose power of ten leaves the
/// 128-bit range, or a 128-bit overflow of the numerator or denominator, is
/// refused as overflow.
pub open spec fn spec_pool_price(
    base_reserve: u64,
    quote_reserve: u64,
    base_decimals: u8,
    quote_decimals: u8,
) -> Result<u128, ErrorCode> {
    if base_reserve == 0 || quote_reserve == 0 {
        Err(ErrorCode::InvalidInput)
    } else if base_decimals > 38 || quote_decimals > 38 {
        Err(ErrorCode::MathOverflow)
    } else {
        let num: int = quote_reserve * PRICE_SCALE * spec_pow10(base_decimals as nat);
        let den: int = base_reserve * spec_pow10(quote_decimals as nat);
        if num > u128::MAX || den > u128::MAX {
            Err(ErrorCode::MathOverflow)
        } else {
            Ok((num / den) as u128)
        }
    }
}

/// Reads the price of the base token in quote units from one reserve pair.
pub fn get_pool_price(
    base_reserve: u64,
    quote_reserve: u64,
    base_decimals: u8,
    quote_decimals: u8,
) -> (r: Result<u128, ErrorCode>)
    ensures
        r == spec_pool_price(base_reserve, quote_reserve, base_decimals, quote_decimals),
{
    if base_reserve == 0 || quote_reserve == 0 {
        return Err(ErrorCode::InvalidInput);
    }
    let p10_base = match pow10(base_decimals as u64) {
        Some(v) => v,
        None => {
            return Err(ErrorCode::MathOverflow);
        },
    };
    let p10_quote = match pow10(quote_decimals as u64) {
        Some(v) => v,
        None => {
            return Err(ErrorCode::MathOverflow);
        },
    };
    proof {
        assert(quote_reserve * PRICE_SCALE <= u64::MAX * (PRICE_SCALE as int))
            by (nonlinear_arith)
            requires
                quote_reserve <= u64::MAX,
        ;
    }
    let scaled: u128 = (quote_reserve as u128) * PRICE_SCALE;
    let num = match scaled.checked_mul(p10_base) {
        Some(v) => v,
        None => {
            return Err(ErrorCode::MathOverflow);
        },
    };
    let den = match (base_reserve as u128).checked_mul(p10_quote) {
        Some(v) => v,
        None => {
            return Err(ErrorCode::MathOverflow);
        },
    };
    proof {
        assert(den >= 1) by (nonlinear_arith)
            requires
                den == base_reserve * p10_quote,
                base_reserve >= 1,
                p10_quote >= 1,
        ;
        assert(quote_reserve * PRICE_SCALE * spec_pow10(base_decimals as nat) == scaled * p10_base)
            by (nonlinear_arith)
            requires
                scaled == quote_reserve * PRICE_SCALE,
                p10_base == spec_pow10(base_decimals as nat),
        ;
    }
    Ok(num / den)
}

/// The price of `base_mint` in `quote_mint` units read from a vault pair in
/// either order; a pair that does not hold exactly those two mints is
/// refused.
pub open spec fn spec_token_price_in_quote(
    mint_0: Seq<u8>,
    amount_0: u64,
    mint_1: Seq<u8>,
    amount_1: u64,
    base_mint: Seq<u8>,
    quote_mint: Seq<u8>,
    base_decimals: u8,
    quote_decimals: u8,
) -> Result<u128, ErrorCode> {
    if mint_0 == base_mint && mint_1 == quote_mint {
        spec_pool_price(amount_0, amount_1, base_decimals, quote_decimals)
    } else if mint_1 == base_mint && mint_0 == quote_mint {
        spec_pool_price(amount_1, amount_0, base_decimals, quote_decimals)
    } else {
        Err(ErrorCode::InvalidInput)
    }
}

/// Reads the price of `base_mint` in `quote_mint` units from two vault
/// snapshots, detecting which vault holds which token.
pub fn get_token_price_in_quote(
    vault_0: &VaultAccount,
    vault_1: &VaultAccount,
    base_mint: &Address,
    quote_mint: &Address,
    base_decimals: u8,
    quote_decimals: u8,
) -> (r: Result<u128, ErrorCode>)
    ensures
        r == spec_token_price_in_quote(
            vault_0.mint@,
            vault_0.amount,
            vault_1.mint@,
            vault_1.amount,
            base_mint@,
            quote_mint@,
            base_decimals,
            quote_decimals,
        ),
{
    let m0_base = crate::address::address_eq(&vault_0.mint, base_mint);
    let m1_base = crate::address::address_eq(&vault_1.mint, base_mint);
    let m0_quote = crate::address::address_eq(&vault_0.mint, quote_mint);
    let m1_quote = crate::address::address_eq(&vault_1.mint, quote_mint);
    if m0_base && m1_quote {
        get_pool_price(vault_0.amount, vault_1.amount, base_decimals, quote_decimals)
    } else if m1_base && m0_quote {
        get_pool_price(vault_1.amount, vault_0.amount, base_decimals, quote_decimals)
    } else {
        Err(ErrorCode::InvalidInput)
    }
}

/// The settlement-token price in USD units read from a vault pair, keyed by
/// the settlement mint alone: the other vault is taken to hold the USD
/// reference asset.
pub open spec fn spec_settlement_pool_price(
    mint_0: Seq<u8>,
    amount_0: u64,
    mint_1: Seq<u8>,
    amount_1: u64,
    settlement_mint: Seq<u8>,
) -> Result<u128, ErrorCode> {
    if mint_0 == settlement_mint {
        spec_pool_price(amount_0, amount_1, KEDOLOG_DECIMALS, USDC_DECIMALS)
    } else if mint_1 == settlement_mint {
        spec_pool_price(amount_1, amount_0, KEDOLOG_DECIMALS, USDC_DECIMALS)
    } else {
        Err(ErrorCode::InvalidInput)
    }
}

/// Reads the settlement-token price in USD units from its reference pool's
/// vault snapshots.
pub fn get_kedolog_usdc_price(
    vault_0: &VaultAccount,
    vault_1: &VaultAccount,
    kedolog_mint: &Address,
) -> (r: Result<u128, ErrorCode>)
    ensures
        r == spec_settlement_pool_price(
            vault_0.mint@,
            vault_0.amount,
            vault_1.mint@,
            vault_1.amount,
            kedolog_mint@,
        ),
{
    if crate::address::address_eq(&vault_0.mint, kedolog_mint) {
        get_pool_price(vault_0.amount, vault_1.amount, KEDOLOG_DECIMALS, USDC_DECIMALS)
    } else if crate::address::address_eq(&vault_1.mint, kedolog_mint) {
        get_pool_price(vault_1.amount, vault_0.amount, KEDOLOG_DECIMALS, USDC_DECIMALS)
    } else {
        Err(ErrorCode::InvalidInput)
    }
}

/// The native-asset price in USD units read from a vault pair, keyed by the
/// wrapped native-asset mint.
pub open spec fn spec_sol_usdc_price(
    mint_0: Seq<u8>,
    amount_0: u64,
    mint_1: Seq<u8>,
    amount_1: u64,
) -> Result<u128, ErrorCode> {
    if mint_0 == sol_mint_bytes() {
        spec_pool_price(amount_0, amount_1, SOL_DECIMALS, USDC_DECIMALS)
    } else if mint_1 == sol_mint_bytes() {
        spec_pool_price(amount_1, amount_0, SOL_DECIMALS, USDC_DECIMALS)
    } else {
        Err(ErrorCode::InvalidInput)
    }
}

/// Reads the native-asset price in USD units from a reference pool's vault
/// snapshots.
pub fn get_sol_usdc_price(vault_0: &VaultAccount, vault_1: &VaultAccount) -> (r: Result<
    u128,
    ErrorCode,
>)
    ensures
        r == spec_sol_usdc_price(vault_0.mint@, vault_0.amount, vault_1.mint@, vault_1.amount),
{
    let sol = sol_mint_address();
    if crate::address::address_eq(&vault_0.mint, &sol) {
        get_pool_price(vault_0.amount, vault_1.amount, SOL_DECIMALS, USDC_DECIMALS)
    } else if crate::address::address_eq(&vault_1.mint, &sol) {
        get_pool_price(vault_1.amount, vault_0.amount, SOL_DECIMALS, USDC_DECIMALS)
    } else {
        Err(ErrorCode::InvalidInput)
    }
}

/// The mint-and-balance view the token standard yields from an account
/// image, if it accepts the image.
pub open spec fn spec_vault_view(data: Seq<u8>) -> Option<(Seq<u8>, u64)> {
    if spl_token_account_accepted(data) {
        Some((data.subrange(0, 32), u64_from_le_bytes(data.subrange(64, 72))))
    } else {
        None
    }
}

/// The byte images of a sequence of raw accounts.
pub open spec fn spec_account_images(v: Seq<Vec<u8>>) -> Seq<Seq<u8>> {
    Seq::new(v.len(), |i: int| v[i]@)
}

/// An optional account identity as an optional byte sequence.
pub open spec fn spec_key_view(key: Option<Address>) -> Option<Seq<u8>> {
    match key {
        Some(k) => Some(k@),
        None => None,
    }
}

/// The USD value (scaled by 10^9) of a fee amount that is already in the
/// USD reference asset: the raw amount rescaled by its decimals.
pub open spec fn spec_usd_value_direct(fee_amount: u64, decimals: u8) -> Result<int, ErrorCode> {
    if decimals > 38 {
        Err(ErrorCode::MathOverflow)
    } else {
        Ok(fee_amount * PRICE_SCALE / spec_pow10(decimals as nat))
    }
}

fn usd_value_direct(fee_amount: u64, decimals: u8) -> (r: Result<u128, ErrorCode>)
    ensures
        r matches Ok(v) ==> spec_usd_value_direct(fee_amount, decimals) == Ok::<int, ErrorCode>(
            v as int,
        ),
        r matches Err(e) ==> spec_usd_value_direct(fee_amount, decimals) == Err::<int, ErrorCode>(
            e,
        ),
{
    let scale = match pow10(decimals as u64) {
        Some(s) => s,
        None => {
            return Err(ErrorCode::MathOverflow);
        },
    };
    proof {
        assert(fee_amount * PRICE_SCALE <= u64::MAX * (PRICE_SCALE as int)) by (nonlinear_arith)
            requires
                fee_amount <= u64::MAX,
        ;
    }
    Ok((fee_amount as u128) * PRICE_SCALE / scale)
}

/// The USD value (scaled by 10^9) of a fee amount priced by a scaled
/// per-unit price: `fee * price / 10^decimals`.
pub open spec fn spec_usd_value_with_price(fee_amount: u64, price: u128, decimals: u8) -> Result<
    int,
    ErrorCode,
> {
    if fee_amount * price > u128::MAX {
        Err(ErrorCode::MathOverflow)
    } else if decimals > 38 {
        Err(ErrorCode::MathOverflow)
    } else {
        Ok(fee_amount * price / spec_pow10(decimals as nat))
    }
}

fn usd_value_with_price(fee_amount: u64, price: u128, decimals: u8) -> (r: Result<u128, ErrorCode>)
    ensures
        r matches Ok(v) ==> spec_usd_value_with_price(fee_amount, price, decimals) == Ok::<
            int,
            ErrorCode,
        >(v as int),
        r matches Err(e) ==> spec_usd_value_with_price(fee_amount, price, decimals) == Err::<
            int,
            ErrorCode,
        >(e),
{
    let product = match (fee_amount as u128).checked_mul(price) {
        Some(v) => v,
        None => {
            return Err(ErrorCode::MathOverflow);
        },
    };
    let scale = match pow10(decimals as u64) {
        Some(s) => s,
        None => {
            return Err(ErrorCode::MathOverflow);
        },
    };
    Ok(product / scale)
}

/// The USD value of a fee priced through one intermediate hop. The hop
/// price is applied, the value is floored to whole scaled-USD units, and
/// the result is rescaled, so the hop's rounding is taken once:
/// `(fee * price / 10^decimals / 10^9) * 10^9`.
pub open spec fn spec_usd_value_one_hop(fee_amount: u64, price_usd: u128, decimals: u8) -> Result<
    int,
    ErrorCode,
> {
    if fee_amount * price_usd > u128::MAX {
        Err(ErrorCode::MathOverflow)
    } else if decimals > 38 {
        Err(ErrorCode::MathOverflow)
    } else {
        let actual = fee_amount * price_usd / spec_pow10(decimals as nat) / (PRICE_SCALE as int);
        if actual * PRICE_SCALE > u128::MAX {
            Err(ErrorCode::MathOverflow)
        } else {
            Ok(actual * PRICE_SCALE)
        }
    }
}

fn usd_value_one_hop(fee_amount: u64, price_usd: u128, decimals: u8) -> (r: Result<
    u128,
    ErrorCode,
>)
    ensures
        r matches Ok(v) ==> spec_usd_value_one_hop(fee_amount, price_usd, decimals) == Ok::<
            int,
            ErrorCode,
        >(v as int),
        r matches Err(e) ==> spec_usd_value_one_hop(fee_amount, price_usd, decimals) == Err::<
            int,
            ErrorCode,
        >(e),
{
    let product = match (fee_amount as u128).checked_mul(price_usd) {
        Some(v) => v,
        None => {
            return Err(ErrorCode::MathOverflow);
        },
    };
    let scale = match pow10(decimals as u64) {
        Some(s) => s,
        None => {
            return Err(ErrorCode::MathOverflow);
        },
    };
    let actual = product / scale / PRICE_SCALE;
    match actual.checked_mul(PRICE_SCALE) {
        Some(v) => Ok(v),
        None => Err(ErrorCode::MathOverflow),
    }
}

/// The native-asset price read from the currently executing pool's own
/// reserves, used when the swap itself runs in the native/USD pool: no
/// reserve check is repeated here, and an empty native-asset reserve
/// surfaces as a division failure.
pub open spec fn spec_current_pool_sol_price(sol_reserve: u64, usdc_reserve: u64) -> Result<
    u128,
    ErrorCode,
> {
    if sol_reserve == 0 {
        Err(ErrorCode::MathOverflow)
    } else {
        Ok(
            ((usdc_reserve * PRICE_SCALE * 1_000_000_000) / (sol_reserve
                * 1_000_000)) as u128,
        )
    }
}

fn current_pool_sol_price(sol_reserve: u64, usdc_reserve: u64) -> (r: Result<u128, ErrorCode>)
    ensures
        r == spec_current_pool_sol_price(sol_reserve, usdc_reserve),
{
    if sol_reserve == 0 {
        return Err(ErrorCode::MathOverflow);
    }
    proof {
        assert(usdc_reserve * PRICE_SCALE * 1_000_000_000 <= u64::MAX * (PRICE_SCALE as int)
            * 1_000_000_000 < u128::MAX) by (nonlinear_arith)
            requires
                usdc_reserve <= u64::MAX,
        ;
        assert(1 <= sol_reserve * 1_000_000 <= u64::MAX * 1_000_000) by (nonlinear_arith)
            requires
                1 <= sol_reserve <= u64::MAX,
        ;
    }
    let num: u128 = (usdc_reserve as u128) * PRICE_SCALE * 1_000_000_000;
    let den: u128 = (sol_reserve as u128) * 1_000_000;
    Ok(num / den)
}

/// The USD value (scaled by 10^9) of the fee, resolved along the price path
/// the caller's accounts describe: a direct stable quote when the fee is in
/// the USD reference asset; the native/USD reference pool (or the currently
/// executing pool's own reserves) when it is in the native asset; otherwise
/// a one-hop path through a supplied intermediate pool to the USD reference
/// or the native asset. An unsupported pair is refused, never priced by a
/// fallback.
pub open spec fn spec_fee_value_in_usd(
    fee_amount: u64,
    input_token_mint: Seq<u8>,
    input_token_decimals: u8,
    output_token_mint: Seq<u8>,
    config: ProtocolTokenConfig,
    sol_usdc_pool_key: Option<Seq<u8>>,
    images: Seq<Seq<u8>>,
    current_pool_input_vault_amount: Option<u64>,
    current_pool_output_vault_amount: Option<u64>,
) -> Result<int, ErrorCode> {
    if input_token_mint == config.usdc_mint@ {
        spec_usd_value_direct(fee_amount, input_token_decimals)
    } else if input_token_mint == sol_mint_bytes() {
        if output_token_mint == config.usdc_mint@ && current_pool_input_vault_amount is Some
            && current_pool_output_vault_amount is Some {
            match spec_current_pool_sol_price(
                current_pool_input_vault_amount->Some_0,
                current_pool_output_vault_amount->Some_0,
            ) {
                Err(e) => Err(e),
                Ok(p) => spec_usd_value_with_price(fee_amount, p, input_token_decimals),
            }
        } else {
            if sol_usdc_pool_key is None {
                Err(ErrorCode::InvalidInput)
            } else if images.len() < 4 {
                Err(ErrorCode::InvalidInput)
            } else if sol_usdc_pool_key->Some_0 != config.sol_usdc_pool@ {
                Err(ErrorCode::InvalidInput)
            } else {
                match (spec_vault_view(images[2]), spec_vault_view(images[3])) {
                    (Some(v0), Some(v1)) => match spec_token_price_in_quote(
                        v0.0,
                        v0.1,
                        v1.0,
                        v1.1,
                        sol_mint_bytes(),
                        config.usdc_mint@,
                        SOL_DECIMALS,
                        USDC_DECIMALS,
                    ) {
                        Err(e) => Err(e),
                        Ok(p) => spec_usd_value_with_price(fee_amount, p, input_token_decimals),
                    },
                    _ => Err(ErrorCode::InvalidInput),
                }
            }
        }
    } else {
        if images.len() >= 4 {
            match (spec_vault_view(images[2]), spec_vault_view(images[3])) {
                (Some(v0), Some(v1)) => {
                    let connects_to_usdc = v0.0 == config.usdc_mint@ || v1.0 == config.usdc_mint@;
                    let connects_to_sol = v0.0 == sol_mint_bytes() || v1.0 == sol_mint_bytes();
                    let has_input_token = v0.0 == input_token_mint || v1.0 == input_token_mint;
                    if has_input_token && connects_to_usdc {
                        match spec_token_price_in_quote(
                            v0.0,
                            v0.1,
                            v1.0,
                            v1.1,
                            input_token_mint,
                            config.usdc_mint@,
                            input_token_decimals,
                            USDC_DECIMALS,
                        ) {
                            Err(e) => Err(e),
                            Ok(p) => spec_usd_value_one_hop(fee_amount, p, input_token_decimals),
                        }
                    } else if has_input_token && connects_to_sol {
                        if images.len() < 6 {
                            Err(ErrorCode::InvalidInput)
                        } else {
                            match spec_token_price_in_quote(
                                v0.0,
                                v0.1,
                                v1.0,
                                v1.1,
                                input_token_mint,
                                sol_mint_bytes(),
                                input_token_decimals,
                                SOL_DECIMALS,
                            ) {
                                Err(e) => Err(e),
                                Ok(price_in_sol) => match (
                                    spec_vault_view(images[4]),
                                    spec_vault_view(images[5]),
                                ) {
                                    (Some(s0), Some(s1)) => match spec_sol_usdc_price(
                                        s0.0,
                                        s0.1,
                                        s1.0,
                                        s1.1,
                                    ) {
                                        Err(e) => Err(e),
                                        Ok(sol_usd) => if price_in_sol * sol_usd > u128::MAX {
                                            Err(ErrorCode::MathOverflow)
                                        } else {
                                            spec_usd_value_one_hop(
                                                fee_amount,
                                                (price_in_sol * sol_usd / (PRICE_SCALE as int)) as u128,
                                                input_token_decimals,
                                            )
                                        },
                                    },
                                    _ => Err(ErrorCode::InvalidInput),
                                },
                            }
                        }
                    } else {
                        Err(ErrorCode::InvalidInput)
                    }
                },
                _ => Err(ErrorCode::InvalidInput),
            }
        } else {
            Err(ErrorCode::InvalidInput)
        }
    }
}

fn fee_value_in_usd(
    fee_amount: u64,
    input_token_mint: &Address,
    input_token_decimals: u8,
    output_token_mint: &Address,
    config: &ProtocolTokenConfig,
    sol_usdc_pool_key: Option<Address>,
    vault_data: &Vec<Vec<u8>>,
    current_pool_input_vault_amount: Option<u64>,
    current_pool_output_vault_amount: Option<u64>,
) -> (r: Result<u128, ErrorCode>)
    ensures
        r matches Ok(v) ==> spec_fee_value_in_usd(
            fee_amount,
            input_token_mint@,
            input_token_decimals,
            output_token_mint@,
            *config,
            spec_key_view(sol_usdc_pool_key),
            spec_account_images(vault_data@),
            current_pool_input_vault_amount,
            current_pool_output_vault_amount,
        ) == Ok::<int, ErrorCode>(v as int),
        r matches Err(e) ==> spec_fee_value_in_usd(
            fee_amount,
            input_token_mint@,
            input_token_decimals,
            output_token_mint@,
            *config,
            spec_key_view(sol_usdc_pool_key),
            spec_account_images(vault_data@),
            current_pool_input_vault_amount,
            current_pool_output_vault_amount,
        ) == Err::<int, ErrorCode>(e),
{
    let sol = sol_mint_address();
    if crate::address::address_eq(input_token_mint, &config.usdc_mint) {
        return usd_value_direct(fee_amount, input_token_decimals);
    }
    if crate::address::address_eq(input_token_mint, &sol) {
        let special = crate::address::address_eq(output_token_mint, &config.usdc_mint)
            && current_pool_input_vault_amount.is_some()
            && current_pool_output_vault_amount.is_some();
        if special {
            let sol_reserve = current_pool_input_vault_amount.unwrap();
            let usdc_reserve = current_pool_output_vault_amount.unwrap();
            let price = match current_pool_sol_price(sol_reserve, usdc_reserve) {
                Ok(p) => p,
                Err(e) => {
                    return Err(e);
                },
            };
            return usd_value_with_price(fee_amount, price, input_token_decimals);
        }
        let sol_key = match sol_usdc_pool_key {
            Some(k) => k,
            None => {
                return Err(ErrorCode::InvalidInput);
            },
        };
        if vault_data.len() < 4 {
            return Err(ErrorCode::InvalidInput);
        }
        if !crate::address::address_eq(&sol_key, &config.sol_usdc_pool) {
            return Err(ErrorCode::InvalidInput);
        }
        let v0 = match parse_token_account(&vault_data[2]) {
            Some(v) => v,
            None => {
                return Err(ErrorCode::InvalidInput);
            },
        };
        let v1 = match parse_token_account(&vault_data[3]) {
            Some(v) => v,
            None => {
                return Err(ErrorCode::InvalidInput);
            },
        };
        let price = match get_token_price_in_quote(
            &v0,
            &v1,
            &sol,
            &config.usdc_mint,
            SOL_DECIMALS,
            USDC_DECIMALS,
        ) {
            Ok(p) => p,
            Err(e) => {
                return Err(e);
            },
        };
        return usd_value_with_price(fee_amount, price, input_token_decimals);
    }
    if vault_data.len() < 4 {
        return Err(ErrorCode::InvalidInput);
    }
    let v0 = match parse_token_account(&vault_data[2]) {
        Some(v) => v,
        None => {
            return Err(ErrorCode::InvalidInput);
        },
    };
    let v1 = match parse_token_account(&vault_data[3]) {
        Some(v) => v,
        None => {
            return Err(ErrorCode::InvalidInput);
        },
    };
    let connects_to_usdc = crate::address::address_eq(&v0.mint, &config.usdc_mint)
        || crate::address::address_eq(&v1.mint, &config.usdc_mint);
    let connects_to_sol = crate::address::address_eq(&v0.mint, &sol)
        || crate::address::address_eq(&v1.mint, &sol);
    let has_input_token = crate::address::address_eq(&v0.mint, input_token_mint)
        || crate::address::address_eq(&v1.mint, input_token_mint);
    if has_input_token && connects_to_usdc {
        let price = match get_token_price_in_quote(
            &v0,
            &v1,
            input_token_mint,
            &config.usdc_mint,
            input_token_decimals,
            USDC_DECIMALS,
        ) {
            Ok(p) => p,
            Err(e) => {
                return Err(e);
            },
        };
        usd_value_one_hop(fee_amount, price, input_token_decimals)
    } else if has_input_token && connects_to_sol {
        if vault_data.len() < 6 {
            return Err(ErrorCode::InvalidInput);
        }
        let price_in_sol = match get_token_price_in_quote(
            &v0,
            &v1,
            input_token_mint,
            &sol,
            input_token_decimals,
            SOL_DECIMALS,
        ) {
            Ok(p) => p,
            Err(e) => {
                return Err(e);
            },
        };
        let s0 = match parse_token_account(&vault_data[4]) {
            Some(v) => v,
            None => {
                return Err(ErrorCode::InvalidInput);
            },
        };
        let s1 = match parse_token_account(&vault_data[5]) {
            Some(v) => v,
            None => {
                return Err(ErrorCode::InvalidInput);
            },
        };
        let sol_usd = match get_sol_usdc_price(&s0, &s1) {
            Ok(p) => p,
            Err(e) => {
                return Err(e);
            },
        };
        let product = match price_in_sol.checked_mul(sol_usd) {
            Some(v) => v,
            None => {
                return Err(ErrorCode::MathOverflow);
            },
        };
        usd_value_one_hop(fee_amount, product / PRICE_SCALE, input_token_decimals)
    } else {
        Err(ErrorCode::InvalidInput)
    }
}

/// The settlement-token amount owed for a USD fee value:
/// `floor(fee_value * 10^decimals / settlement_price)`. A zero settlement
/// price surfaces as a division failure; a result that leaves the 64-bit
/// range is overflow; a fee too small to express one settlement-token unit
/// is refused as invalid input rather than waived.
pub open spec fn spec_settlement_amount(
    fee_value_usd: int,
    settlement_price: u128,
    settlement_decimals: u8,
) -> Result<u64, ErrorCode> {
    if settlement_decimals > 38 {
        Err(ErrorCode::MathOverflow)
    } else if fee_value_usd * spec_pow10(settlement_decimals as nat) > u128::MAX {
        Err(ErrorCode::MathOverflow)
    } else if settlement_price == 0 {
        Err(ErrorCode::MathOverflow)
    } else {
        let amount = fee_value_usd * spec_pow10(settlement_decimals as nat) / (settlement_price as int);
        if amount > u64::MAX {
            Err(ErrorCode::MathOverflow)
        } else if amount == 0 {
            Err(ErrorCode::InvalidInput)
        } else {
            Ok(amount as u64)
        }
    }
}

fn settlement_amount(fee_value_usd: u128, settlement_price: u128, settlement_decimals: u8) -> (r:
    Result<u64, ErrorCode>)
    ensures
        r == spec_settlement_amount(
            fee_value_usd as int,
            settlement_price,
            settlement_decimals,
        ),
{
    let scale = match pow10(settlement_decimals as u64) {
        Some(s) => s,
        None => {
            return Err(ErrorCode::MathOverflow);
        },
    };
    let intermediate = match fee_value_usd.checked_mul(scale) {
        Some(v) => v,
        None => {
            return Err(ErrorCode::MathOverflow);
        },
    };
    if settlement_price == 0 {
        return Err(ErrorCode::MathOverflow);
    }
    let amount = intermediate / settlement_price;
    if amount > u64::MAX as u128 {
        return Err(ErrorCode::MathOverflow);
    }
    if amount == 0 {
        return Err(ErrorCode::InvalidInput);
    }
    Ok(amount as u64)
}

/// The settlement amount owed for a fee, resolved through the supplied
/// reference accounts, as a mathematical function of the request and the
/// account snapshots. A reference-pool identity that does not match the
/// configured one is refused regardless of the accounts' content.
pub open spec fn spec_calculate_protocol_token_amount(
    fee_amount: u64,
    input_token_mint: Seq<u8>,
    input_token_decimals: u8,
    output_token_mint: Seq<u8>,
    config: ProtocolTokenConfig,
    protocol_token_decimals: u8,
    kedolog_usdc_pool_key: Seq<u8>,
    sol_usdc_pool_key: Option<Seq<u8>>,
    images: Seq<Seq<u8>>,
    current_pool_input_vault_amount: Option<u64>,
    current_pool_output_vault_amount: Option<u64>,
) -> Result<u64, ErrorCode> {
    if kedolog_usdc_pool_key != config.kedolog_usdc_pool@ {
        Err(ErrorCode::InvalidInput)
    } else if images.len() < 2 {
        Err(ErrorCode::InvalidInput)
    } else {
        match spec_fee_value_in_usd(
            fee_amount,
            input_token_mint,
            input_token_decimals,
            output_token_mint,
            config,
            sol_usdc_pool_key,
            images,
            current_pool_input_vault_amount,
            current_pool_output_vault_amount,
        ) {
            Err(e) => Err(e),
            Ok(fee_value_usd) => match (spec_vault_view(images[0]), spec_vault_view(images[1])) {
                (Some(k0), Some(k1)) => match spec_settlement_pool_price(
                    k0.0,
                    k0.1,
                    k1.0,
                    k1.1,
                    config.protocol_token_mint@,
                ) {
                    Err(e) => Err(e),
                    Ok(price) => spec_settlement_amount(
                        fee_value_usd,
                        price,
                        protocol_token_decimals,
                    ),
                },
                _ => Err(ErrorCode::InvalidInput),
            },
        }
    }
}

/// Converts a fee amount, denominated in the swap's input token, into the
/// settlement-token amount of equal discounted value, by resolving prices
/// through the caller-supplied reference vault snapshots.
///
/// `vault_data` holds the raw images of the reference vault accounts, in
/// the order the price path expects: the settlement/USD pool's two vaults
/// first, then an intermediate pool's two vaults, then the native/USD
/// pool's two vaults where the path needs them.
#[allow(unused_variables)]
pub fn calculate_protocol_token_amount(
    fee_amount_in_input_token: u64,
    input_token_mint: &Address,
    input_token_decimals: u8,
    output_token_mint: &Address,
    output_token_decimals: u8,
    protocol_token_config: &ProtocolTokenConfig,
    protocol_token_decimals: u8,
    kedolog_usdc_pool_key: &Address,
    sol_usdc_pool_key: Option<Address>,
    vault_data: &Vec<Vec<u8>>,
    current_pool_input_vault_amount: Option<u64>,
    current_pool_output_vault_amount: Option<u64>,
) -> (r: Result<u64, ErrorCode>)
    ensures
        r == spec_calculate_protocol_token_amount(
            fee_amount_in_input_token,
            input_token_mint@,
            input_token_decimals,
            output_token_mint@,
            *protocol_token_config,
            protocol_token_decimals,
            kedolog_usdc_pool_key@,
            spec_key_view(sol_usdc_pool_key),
            spec_account_images(vault_data@),
            current_pool_input_vault_amount,
            current_pool_output_vault_amount,
        ),
        kedolog_usdc_pool_key@ != protocol_token_config.kedolog_usdc_pool@ ==> r == Err::<
            u64,
            ErrorCode,
        >(ErrorCode::InvalidInput),
{
    if !crate::address::address_eq(
        kedolog_usdc_pool_key,
        &protocol_token_config.kedolog_usdc_pool,
    ) {
        return Err(ErrorCode::InvalidInput);
    }
    if vault_data.len() < 2 {
        return Err(ErrorCode::InvalidInput);
    }
    let fee_value_usd = match fee_value_in_usd(
        fee_amount_in_input_token,
        input_token_mint,
        input_token_decimals,
        output_token_mint,
        protocol_token_config,
        sol_usdc_pool_key,
        vault_data,
        current_pool_input_vault_amount,
        current_pool_output_vault_amount,
    ) {
        Ok(v) => v,
        Err(e) => {
            return Err(e);
        },
    };
    let k0 = match parse_token_account(&vault_data[0]) {
        Some(v) => v,
        None => {
            return Err(ErrorCode::InvalidInput);
        },
    };
    let k1 = match parse_token_account(&vault_data[1]) {
        Some(v) => v,
        None => {
            return Err(ErrorCode::InvalidInput);
        },
    };
    let settlement_price = match get_kedolog_usdc_price(
        &k0,
        &k1,
        &protocol_token_config.protocol_token_mint,
    ) {
        Ok(p) => p,
        Err(e) => {
            return Err(e);
        },
    };
    settlement_amount(fee_value_usd, settlement_price, protocol_token_decimals)
}

/// Resolution is a function of the reserve snapshot alone: the resolver
/// consults no state beyond its arguments, so resolving twice over
/// identical snapshots yields an identical settlement amount. The
/// executable resolver's contract pins its result to this function.
pub proof fn lemma_price_resolution_idempotent(
    fee_amount: u64,
    input_token_mint: Seq<u8>,
    input_token_decimals: u8,
    output_token_mint: Seq<u8>,
    config: ProtocolTokenConfig,
    protocol_token_decimals: u8,
    kedolog_usdc_pool_key: Seq<u8>,
    sol_usdc_pool_key: Option<Seq<u8>>,
    first_snapshot: Seq<Seq<u8>>,
    second_snapshot: Seq<Seq<u8>>,
    current_pool_input_vault_amount: Option<u64>,
    current_pool_output_vault_amount: Option<u64>,
)
    requires
        first_snapshot == second_snapshot,
    ensures
        spec_calculate_protocol_token_amount(
            fee_amount,
            input_token_mint,
            input_token_decimals,
            output_token_mint,
            config,
            protocol_token_decimals,
            kedolog_usdc_pool_key,
            sol_usdc_pool_key,
            first_snapshot,
            current_pool_input_vault_amount,
            current_pool_output_vault_amount,
        ) == spec_calculate_protocol_token_amount(
            fee_amount,
            input_token_mint,
            input_token_decimals,
            output_token_mint,
            config,
            protocol_token_decimals,
            kedolog_usdc_pool_key,
            sol_usdc_pool_key,
            second_snapshot,
            current_pool_input_vault_amount,
            current_pool_output_vault_amount,
        ),
{
}

/// A native/USD reference pool whose identity does not match the configured
/// one causes resolution to fail as invalid input, regardless of the
/// supplied accounts' balances, wherever that pool would be consulted: a
/// native-asset fee outside the executing-pool special case. The premise
/// that the USD reference mint differs from the native mint keeps the
/// request on the native branch; were they equal, the direct stable quote
/// would apply and no reference pool would be read.
pub proof fn lemma_sol_reference_pool_identity_checked(
    fee_amount: u64,
    input_token_mint: Seq<u8>,
    input_token_decimals: u8,
    output_token_mint: Seq<u8>,
    config: ProtocolTokenConfig,
    protocol_token_decimals: u8,
    kedolog_usdc_pool_key: Seq<u8>,
    sol_usdc_pool_key: Option<Seq<u8>>,
    images: Seq<Seq<u8>>,
    current_pool_input_vault_amount: Option<u64>,
    current_pool_output_vault_amount: Option<u64>,
)
    requires
        input_token_mint == sol_mint_bytes(),
        config.usdc_mint@ != sol_mint_bytes(),
        !(output_token_mint == config.usdc_mint@ && current_pool_input_vault_amount is Some
            && current_pool_output_vault_amount is Some),
        match sol_usdc_pool_key {
            Some(k) => k != config.sol_usdc_pool@,
            None => true,
        },
    ensures
        spec_calculate_protocol_token_amount(
            fee_amount,
            input_token_mint,
            input_token_decimals,
            output_token_mint,
            config,
            protocol_token_decimals,
            kedolog_usdc_pool_key,
            sol_usdc_pool_key,
            images,
            current_pool_input_vault_amount,
            current_pool_output_vault_amount,
        ) == Err::<u64, ErrorCode>(ErrorCode::InvalidInput),
{
}

/// Where a settlement price may come from, in the order sources are tried:
/// the reference pool's live reserve ratio, a push-oracle feed within a
/// bounded freshness window, or a manually configured fixed ratio retained
/// only for bootstrap before a pool or an oracle exists.
pub enum SettlementPriceSource {
    /// Raw images of the settlement-token / USD reference pool's two vaults.
    ReferencePool { vault_0_data: Vec<u8>, vault_1_data: Vec<u8> },
    /// Raw image of a push-oracle price account, read at time `now`.
    OracleFeed { feed_data: Vec<u8>, now: i64 },
    /// A fixed settlement price, scaled by 10^9.
    ManualRatio { price: u128 },
}

/// Oracle prices older than this many seconds are treated as unavailable.
pub const ORACLE_MAX_AGE_SECONDS: u64 = 60;

/// The settlement price an oracle feed yields: its fresh price rescaled to
/// the 10^9 fixed-point scale. A non-positive price is refused.
pub open spec fn spec_oracle_settlement_price(data: Seq<u8>, now: i64) -> Result<u128, ErrorCode> {
    match PythOracle::spec_get_price(data, now, ORACLE_MAX_AGE_SECONDS) {
        Err(e) => Err(e),
        Ok(p) => {
            if p.price <= 0 {
                Err(ErrorCode::InvalidInput)
            } else {
                let shift: int = p.expo + 9;
                if shift >= 0 {
                    if shift > 38 || p.price * spec_pow10(shift as nat) > u128::MAX {
                        Err(ErrorCode::MathOverflow)
                    } else {
                        Ok((p.price * spec_pow10(shift as nat)) as u128)
                    }
                } else {
                    if -shift > 38 {
                        Err(ErrorCode::MathOverflow)
                    } else {
                        Ok(((p.price as int) / spec_pow10((-shift) as nat)) as u128)
                    }
                }
            }
        },
    }
}

/// The settlement price each source yields: the pool's reserve ratio, the
/// oracle's fresh rescaled price, or the manual ratio where it is non-zero.
/// Every source validates its own inputs; a missing or stale source fails
/// the resolution rather than substituting a guess.
pub open spec fn spec_resolve_settlement_price(
    source: SettlementPriceSource,
    settlement_mint: Seq<u8>,
) -> Result<u128, ErrorCode> {
    match source {
        SettlementPriceSource::ReferencePool { vault_0_data, vault_1_data } => {
            match (spec_vault_view(vault_0_data@), spec_vault_view(vault_1_data@)) {
                (Some(v0), Some(v1)) => spec_settlement_pool_price(
                    v0.0,
                    v0.1,
                    v1.0,
                    v1.1,
                    settlement_mint,
                ),
                _ => Err(ErrorCode::InvalidInput),
            }
        },
        SettlementPriceSource::OracleFeed { feed_data, now } => spec_oracle_settlement_price(
            feed_data@,
            now,
        ),
        SettlementPriceSource::ManualRatio { price } => {
            if price == 0 {
                Err(ErrorCode::InvalidInput)
            } else {
                Ok(price)
            }
        },
    }
}

/// Resolves the settlement-token price from one tagged source.
pub fn resolve_settlement_price(source: &SettlementPriceSource, settlement_mint: &Address) -> (r:
    Result<u128, ErrorCode>)
    ensures
        r == spec_resolve_settlement_price(*source, settlement_mint@),
{
    match source {
        SettlementPriceSource::ReferencePool { vault_0_data, vault_1_data } => {
            let v0 = match parse_token_account(vault_0_data) {
                Some(v) => v,
                None => {
                    return Err(ErrorCode::InvalidInput);
                },
            };
            let v1 = match parse_token_account(vault_1_data) {
                Some(v) => v,
                None => {
                    return Err(ErrorCode::InvalidInput);
                },
            };
            get_kedolog_usdc_price(&v0, &v1, settlement_mint)
        },
        SettlementPriceSource::OracleFeed { feed_data, now } => {
            let reading = match PythOracle::get_price(feed_data, *now, ORACLE_MAX_AGE_SECONDS) {
                Ok(p) => p,
                Err(e) => {
                    return Err(e);
                },
            };
            if reading.price <= 0 {
                return Err(ErrorCode::InvalidInput);
            }
            let shift: i64 = (reading.expo as i64) + 9;
            if shift >= 0 {
                let scale = match pow10(shift as u64) {
                    Some(s) => s,
                    None => {
                        return Err(ErrorCode::MathOverflow);
                    },
                };
                match (reading.price as u128).checked_mul(scale) {
                    Some(v) => Ok(v),
                    None => Err(ErrorCode::MathOverflow),
                }
            } else {
                let scale = match pow10((-shift) as u64) {
                    Some(s) => s,
                    None => {
                        return Err(ErrorCode::MathOverflow);
                    },
                };
                Ok((reading.price as u128) / scale)
            }
        },
        SettlementPriceSource::ManualRatio { price } => {
            if *price == 0 {
                Err(ErrorCode::InvalidInput)
            } else {
                Ok(*price)
            }
        },
    }
}

} // verus!
