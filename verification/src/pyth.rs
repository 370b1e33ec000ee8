use vstd::prelude::*;

use crate::error::ErrorCode;
use crate::math::{pow10, spec_pow10};

verus! {

/// A price read from a push oracle: `price * 10^expo` quote units, with the
/// publisher's confidence interval.
#[derive(Clone, Copy, Debug, PartialEq, Eq, Structural)]
pub struct OraclePrice {
    pub price: i64,
    pub expo: i32,
    pub conf: u64,
}

/// Whether the oracle client accepts this byte image as a price account
/// (its magic number, version and account type all check out).
pub uninterp spec fn pyth_price_account_accepted(data: Seq<u8>) -> bool;

/// The reading the oracle client takes from an accepted price account:
/// price, exponent, confidence and publish time, selected from the
/// aggregate or the previous slot by the feed's trading status.
pub uninterp spec fn pyth_feed_reading(data: Seq<u8>) -> (i64, i32, u64, i64);

/// One reading of a price feed: the published price with its scale and
/// confidence, and the time it was published.
#[derive(Clone, Copy, Debug, PartialEq, Eq, Structural)]
pub struct OracleReading {
    pub price: i64,
    pub expo: i32,
    pub conf: u64,
    pub publish_time: i64,
}

/// Helper functions for working with push-oracle price feeds.
pub struct PythOracle;

impl PythOracle {
    /// Parses a price-feed account image and selects its current reading.
    ///
    /// Relies on `pyth_sdk_solana::state::load_price_account`, which accepts
    /// or refuses the image by its content alone, and on the price selection
    /// its price-feed conversion documents: a feed in trading status reads
    /// the aggregate price, confidence and timestamp; any other status reads
    /// the previous slot's. No freshness judgement happens here.
    #[verifier::external_body]
    fn load_feed(feed_data: &Vec<u8>) -> (r: Option<OracleReading>)
        ensures
            r == (if pyth_price_account_accepted(feed_data@) {
                Some(
                    OracleReading {
                        price: pyth_feed_reading(feed_data@).0,
                        expo: pyth_feed_reading(feed_data@).1,
                        conf: pyth_feed_reading(feed_data@).2,
                        publish_time: pyth_feed_reading(feed_data@).3,
                    },
                )
            } else {
                None::<OracleReading>
            }),
    {
        let account: &pyth_sdk_solana::state::SolanaPriceAccount =
            match pyth_sdk_solana::state::load_price_account(feed_data.as_slice()) {
            Ok(a) => a,
            Err(_) => return None,
        };
        let (price, conf, publish_time): (i64, u64, i64) = match account.agg.status {
            pyth_sdk_solana::state::PriceStatus::Trading => (
                account.agg.price,
                account.agg.conf,
                account.timestamp,
            ),
            _ => (account.prev_price, account.prev_conf, account.prev_timestamp),
        };
        Some(OracleReading { price, expo: account.expo, conf, publish_time })
    }

    /// The price read from a feed image at time `now` under freshness bound
    /// `max_age`: a refused image is unavailable, a reading published more
    /// than `max_age` seconds from `now` (in either direction) is stale.
    pub open spec fn spec_get_price(data: Seq<u8>, now: i64, max_age: u64) -> Result<
        OraclePrice,
        ErrorCode,
    > {
        if !pyth_price_account_accepted(data) {
            Err(ErrorCode::OracleUnavailable)
        } else {
            let reading = pyth_feed_reading(data);
            if reading.3 - now > max_age || now - reading.3 > max_age {
                Err(ErrorCode::StalePrice)
            } else {
                Ok(OraclePrice { price: reading.0, expo: reading.1, conf: reading.2 })
            }
        }
    }

    /// Reads the current price from a price-feed account image, refusing a
    /// reading older than `max_age` seconds. The freshness comparison is
    /// done here in wide checked arithmetic, so a feed carrying an extreme
    /// publish time reads as stale rather than faulting.
    pub fn get_price(feed_data: &Vec<u8>, now: i64, max_age: u64) -> (r: Result<
        OraclePrice,
        ErrorCode,
    >)
        ensures
            r == PythOracle::spec_get_price(feed_data@, now, max_age),
    {
        let reading = match PythOracle::load_feed(feed_data) {
            Some(v) => v,
            None => {
                return Err(ErrorCode::OracleUnavailable);
            },
        };
        let published: i128 = reading.publish_time as i128;
        let current: i128 = now as i128;
        let age: i128 = if published >= current {
            published - current
        } else {
            current - published
        };
        if age > max_age as i128 {
            return Err(ErrorCode::StalePrice);
        }
        Ok(OraclePrice { price: reading.price, expo: reading.expo, conf: reading.conf })
    }

    /// The token-B amount of equal value to `amount_a` of token A, as a
    /// mathematical function: `amount_a * price_a` rescaled by the exponent
    /// difference, by the decimal difference, and divided by `price_b`, with
    /// every division taking the floor. A non-positive price is refused;
    /// any rescaling that leaves the 128-bit range, or a result beyond the
    /// 64-bit range, is refused as overflow.
    pub open spec fn spec_convert_token_amount(
        amount_a: u64,
        price_a: i64,
        expo_a: i32,
        price_b: i64,
        expo_b: i32,
        decimals_a: u8,
        decimals_b: u8,
    ) -> Result<u64, ErrorCode> {
        if price_a <= 0 || price_b <= 0 {
            Err(ErrorCode::InvalidInput)
        } else {
            let numerator: int = amount_a * price_a;
            let expo_diff: int = expo_a - expo_b;
            let stage1: Result<int, ErrorCode> = if expo_diff >= 0 {
                if expo_diff > 38 || numerator * spec_pow10(expo_diff as nat) > u128::MAX {
                    Err(ErrorCode::MathOverflow)
                } else {
                    Ok(numerator * spec_pow10(expo_diff as nat))
                }
            } else {
                if -expo_diff > 38 {
                    Err(ErrorCode::MathOverflow)
                } else {
                    Ok(numerator / spec_pow10((-expo_diff) as nat))
                }
            };
            if stage1 is Err {
                Err(ErrorCode::MathOverflow)
            } else {
                let adjusted = stage1->Ok_0;
                let dec_diff: int = decimals_b - decimals_a;
                let stage2: Result<int, ErrorCode> = if dec_diff >= 0 {
                    if dec_diff > 38 || adjusted * spec_pow10(dec_diff as nat) > u128::MAX {
                        Err(ErrorCode::MathOverflow)
                    } else {
                        Ok(adjusted * spec_pow10(dec_diff as nat))
                    }
                } else {
                    if -dec_diff > 38 {
                        Err(ErrorCode::MathOverflow)
                    } else {
                        Ok(adjusted / spec_pow10((-dec_diff) as nat))
                    }
                };
                if stage2 is Err {
                    Err(ErrorCode::MathOverflow)
                } else {
                    let result: int = stage2->Ok_0 / (price_b as int);
                    if result > u64::MAX {
                        Err(ErrorCode::MathOverflow)
                    } else {
                        Ok(result as u64)
                    }
                }
            }
        }
    }

    /// Converts a token-A amount into the token-B amount of equal value,
    /// given both oracle prices with their exponents and both token
    /// decimal scales.
    pub fn convert_token_amount(
        amount_a: u64,
        price_a: i64,
        expo_a: i32,
        price_b: i64,
        expo_b: i32,
        decimals_a: u8,
        decimals_b: u8,
    ) -> (r: Result<u64, ErrorCode>)
        ensures
            r == PythOracle::spec_convert_token_amount(
                amount_a,
                price_a,
                expo_a,
                price_b,
                expo_b,
                decimals_a,
                decimals_b,
            ),
    {
        if price_a <= 0 || price_b <= 0 {
            return Err(ErrorCode::InvalidInput);
        }
        proof {
            assert(amount_a * price_a <= u64::MAX * (i64::MAX as int)) by (nonlinear_arith)
                requires
                    amount_a <= u64::MAX,
                    0 < price_a <= i64::MAX,
            ;
            assert(amount_a * price_a >= 0) by (nonlinear_arith)
                requires
                    amount_a >= 0,
                    price_a > 0,
            ;
        }
        let numerator: u128 = (amount_a as u128) * (price_a as u128);
        let expo_diff: i64 = (expo_a as i64) - (expo_b as i64);
        let adjusted: u128 = if expo_diff >= 0 {
            let scale = match pow10(expo_diff as u64) {
                Some(s) => s,
                None => {
                    return Err(ErrorCode::MathOverflow);
                },
            };
            match numerator.checked_mul(scale) {
                Some(v) => v,
                None => {
                    return Err(ErrorCode::MathOverflow);
                },
            }
        } else {
            let scale = match pow10((-expo_diff) as u64) {
                Some(s) => s,
                None => {
                    return Err(ErrorCode::MathOverflow);
                },
            };
            numerator / scale
        };
        let dec_diff: i64 = (decimals_b as i64) - (decimals_a as i64);
        let scaled: u128 = if dec_diff >= 0 {
            let scale = match pow10(dec_diff as u64) {
                Some(s) => s,
                None => {
                    return Err(ErrorCode::MathOverflow);
                },
            };
            match adjusted.checked_mul(scale) {
                Some(v) => v,
                None => {
                    return Err(ErrorCode::MathOverflow);
                },
            }
        } else {
            let scale = match pow10((-dec_diff) as u64) {
                Some(s) => s,
                None => {
                    return Err(ErrorCode::MathOverflow);
                },
            };
            adjusted / scale
        };
        let result: u128 = scaled / (price_b as u128);
        if result > u64::MAX as u128 {
            return Err(ErrorCode::MathOverflow);
        }
        Ok(result as u64)
    }
}

} // verus!
