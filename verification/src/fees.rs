use vstd::prelude::*;

verus! {

/// Fee rates are numerators over this fixed denominator (10^6).
pub const FEE_RATE_DENOMINATOR_VALUE: u64 = 1_000_000;

/// Discount rates are numerators over this fixed denominator (basis points).
pub const DISCOUNT_RATE_DENOMINATOR: u64 = 10_000;

/// Floor of `amount * rate / 10^6` over the mathematical integers.
pub open spec fn spec_fee_floor(amount: int, rate: int) -> int {
    amount * rate / (FEE_RATE_DENOMINATOR_VALUE as int)
}

/// A rated portion never exceeds the amount it is taken from.
pub proof fn lemma_fee_floor_le(amount: int, rate: int)
    requires
        amount >= 0,
        0 <= rate <= FEE_RATE_DENOMINATOR_VALUE,
    ensures
        0 <= spec_fee_floor(amount, rate) <= amount,
{
    assert(0 <= amount * rate / (FEE_RATE_DENOMINATOR_VALUE as int) <= amount) by (nonlinear_arith)
        requires
            amount >= 0,
            0 <= rate <= FEE_RATE_DENOMINATOR_VALUE,
    ;
}

/// Two rated portions whose rates sum to at most the denominator never
/// exceed, together, the amount they are taken from.
pub proof fn lemma_fee_floor_pair_le(amount: int, rate_a: int, rate_b: int)
    requires
        amount >= 0,
        rate_a >= 0,
        rate_b >= 0,
        rate_a + rate_b <= FEE_RATE_DENOMINATOR_VALUE,
    ensures
        0 <= spec_fee_floor(amount, rate_a) + spec_fee_floor(amount, rate_b) <= amount,
{
    let d = FEE_RATE_DENOMINATOR_VALUE as int;
    assert(amount * rate_a / d + amount * rate_b / d <= amount) by (nonlinear_arith)
        requires
            amount >= 0,
            rate_a >= 0,
            rate_b >= 0,
            rate_a + rate_b <= d,
            d == FEE_RATE_DENOMINATOR_VALUE as int,
    ;
    lemma_fee_floor_le(amount, rate_a);
    lemma_fee_floor_le(amount, rate_b);
}

/// Floor of `amount * rate / 10^6`, computed in 128-bit width.
pub fn fee_floor(amount: u128, rate: u64) -> (r: u128)
    requires
        amount <= u64::MAX,
        rate <= FEE_RATE_DENOMINATOR_VALUE,
    ensures
        r == spec_fee_floor(amount as int, rate as int),
        r <= amount,
{
    proof {
        assert(amount * rate <= u64::MAX * FEE_RATE_DENOMINATOR_VALUE) by (nonlinear_arith)
            requires
                amount <= u64::MAX,
                rate <= FEE_RATE_DENOMINATOR_VALUE,
        ;
        lemma_fee_floor_le(amount as int, rate as int);
    }
    let wide: u128 = amount * (rate as u128);
    wide / (FEE_RATE_DENOMINATOR_VALUE as u128)
}

/// The gross amount whose fee at `rate` leaves `post_fee_amount` behind:
/// the ceiling of `post_fee_amount * 10^6 / (10^6 - rate)`, or `None` where
/// the 128-bit intermediate would overflow.
pub open spec fn spec_pre_fee_amount(post_fee_amount: int, rate: int) -> Option<int> {
    let d = FEE_RATE_DENOMINATOR_VALUE as int;
    if post_fee_amount * d + (d - rate) - 1 > u128::MAX {
        None
    } else {
        Some((post_fee_amount * d + (d - rate) - 1) / (d - rate))
    }
}

/// Gross-up of a net amount by a fee rate, rounding against the payer.
pub fn pre_fee_amount(post_fee_amount: u128, rate: u64) -> (r: Option<u128>)
    requires
        rate < FEE_RATE_DENOMINATOR_VALUE,
    ensures
        r == match spec_pre_fee_amount(post_fee_amount as int, rate as int) {
            Some(v) => Some(v as u128),
            None => None::<u128>,
        },
        r is Some ==> r->Some_0 >= post_fee_amount,
{
    let d: u128 = FEE_RATE_DENOMINATOR_VALUE as u128;
    let rest: u128 = d - (rate as u128);
    let num = match post_fee_amount.checked_mul(d) {
        Some(v) => v,
        None => {
            return None;
        },
    };
    let num2 = match num.checked_add(rest - 1) {
        Some(v) => v,
        None => {
            return None;
        },
    };
    let q = num2 / rest;
    proof {
        let di = FEE_RATE_DENOMINATOR_VALUE as int;
        let p = post_fee_amount as int;
        let ri = rate as int;
        assert((p * di + (di - ri) - 1) / (di - ri) >= p) by (nonlinear_arith)
            requires
                p >= 0,
                0 <= ri < di,
        ;
        assert((p * di + (di - ri) - 1) / (di - ri) <= p * di + (di - ri) - 1) by (nonlinear_arith)
            requires
                p >= 0,
                0 <= ri < di,
        ;
    }
    Some(q)
}

/// The share of the trade-fee rate that belongs to the protocol:
/// `floor(trade_fee_rate * protocol_fee_rate / 10^6)`.
pub fn protocol_fee_portion_rate(trade_fee_rate: u64, protocol_fee_rate: u64) -> (r: u64)
    requires
        trade_fee_rate <= FEE_RATE_DENOMINATOR_VALUE,
        protocol_fee_rate <= FEE_RATE_DENOMINATOR_VALUE,
    ensures
        r == spec_fee_floor(trade_fee_rate as int, protocol_fee_rate as int),
        r <= trade_fee_rate,
{
    proof {
        lemma_fee_floor_le(trade_fee_rate as int, protocol_fee_rate as int);
    }
    let wide: u128 = (trade_fee_rate as u128) * (protocol_fee_rate as u128);
    (wide / (FEE_RATE_DENOMINATOR_VALUE as u128)) as u64
}

/// The trade-fee rate with the protocol's share carved out, so that the
/// curve charges only the part that stays with liquidity providers and the
/// fund while the protocol's cut is paid separately.
pub fn reduced_trade_fee_rate(trade_fee_rate: u64, protocol_fee_rate: u64) -> (r: u64)
    requires
        trade_fee_rate <= FEE_RATE_DENOMINATOR_VALUE,
        protocol_fee_rate <= FEE_RATE_DENOMINATOR_VALUE,
    ensures
        r == trade_fee_rate - spec_fee_floor(trade_fee_rate as int, protocol_fee_rate as int),
        r <= trade_fee_rate,
{
    let portion = protocol_fee_portion_rate(trade_fee_rate, protocol_fee_rate);
    trade_fee_rate - portion
}

/// Floor of `amount * numerator / 10^4` over the mathematical integers.
pub open spec fn spec_basis_points(amount: int, numerator: int) -> int {
    amount * numerator / (DISCOUNT_RATE_DENOMINATOR as int)
}

/// A basis-point portion of an amount: `floor(amount * numerator / 10^4)`.
pub fn basis_points_portion(amount: u128, numerator: u64) -> (r: u128)
    requires
        amount <= u64::MAX,
        numerator <= DISCOUNT_RATE_DENOMINATOR,
    ensures
        r == spec_basis_points(amount as int, numerator as int),
        r <= amount,
{
    proof {
        assert(amount * numerator <= u64::MAX * DISCOUNT_RATE_DENOMINATOR) by (nonlinear_arith)
            requires
                amount <= u64::MAX,
                numerator <= DISCOUNT_RATE_DENOMINATOR,
        ;
        assert(0 <= amount * numerator / (DISCOUNT_RATE_DENOMINATOR as int) <= amount)
            by (nonlinear_arith)
            requires
                amount >= 0,
                0 <= numerator <= DISCOUNT_RATE_DENOMINATOR,
        ;
    }
    let wide: u128 = amount * (numerator as u128);
    wide / (DISCOUNT_RATE_DENOMINATOR as u128)
}

/// The trade fee split into its three components. The floor-division
/// remainders of the protocol and fund shares accrue to the share retained
/// for liquidity providers, so the three parts always sum to the whole fee.
pub struct TradeFeeSplit {
    pub protocol_fee: u128,
    pub fund_fee: u128,
    pub lp_retained_fee: u128,
}

/// Splits a trade fee into protocol, fund and liquidity-provider shares.
pub fn split_trade_fee(trade_fee: u128, protocol_fee_rate: u64, fund_fee_rate: u64) -> (r:
    TradeFeeSplit)
    requires
        trade_fee <= u64::MAX,
        protocol_fee_rate + fund_fee_rate <= FEE_RATE_DENOMINATOR_VALUE,
    ensures
        r.protocol_fee == spec_fee_floor(trade_fee as int, protocol_fee_rate as int),
        r.fund_fee == spec_fee_floor(trade_fee as int, fund_fee_rate as int),
        r.protocol_fee + r.fund_fee + r.lp_retained_fee == trade_fee,
{
    proof {
        lemma_fee_floor_pair_le(trade_fee as int, protocol_fee_rate as int, fund_fee_rate as int);
    }
    let protocol_fee = fee_floor(trade_fee, protocol_fee_rate);
    let fund_fee = fee_floor(trade_fee, fund_fee_rate);
    let lp_retained_fee = trade_fee - protocol_fee - fund_fee;
    TradeFeeSplit { protocol_fee, fund_fee, lp_retained_fee }
}

} // verus!
