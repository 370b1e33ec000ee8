use vstd::prelude::*;

use crate::fees::{
    spec_fee_floor, spec_pre_fee_amount, fee_floor, pre_fee_amount, split_trade_fee,
    lemma_fee_floor_le, FEE_RATE_DENOMINATOR_VALUE,
};

verus! {

/// Outcome of one constant-product swap: the amounts consumed and produced,
/// the fee components, and the reserve pair after the swap.
#[derive(Clone, Copy, Debug, PartialEq, Eq, Structural)]
pub struct SwapResult {
    /// Input-side reserve after the swap (the whole gross input enters it).
    pub new_input_vault_amount: u128,
    /// Output-side reserve after the swap.
    pub new_output_vault_amount: u128,
    /// Gross input consumed from the trader.
    pub input_amount: u128,
    /// Gross output produced for the trader.
    pub output_amount: u128,
    /// Total trade fee charged on the input leg.
    pub trade_fee: u128,
    /// Creator fee, charged on the input or the output leg by policy.
    pub creator_fee: u128,
    /// Protocol share of the trade fee.
    pub protocol_fee: u128,
    /// Fund share of the trade fee.
    pub fund_fee: u128,
}

/// Ceiling of `a / b` over the mathematical integers, for `b > 0`.
pub open spec fn spec_ceil_div(a: int, b: int) -> int {
    (a + b - 1) / b
}

/// Ceiling division on 128-bit values.
fn ceil_div(a: u128, b: u128) -> (r: u128)
    requires
        b >= 1,
    ensures
        r == spec_ceil_div(a as int, b as int),
        r * b >= a,
        a >= 1 ==> r >= 1,
{
    if a == 0 {
        proof {
            assert((0 + b - 1) / (b as int) == 0) by (nonlinear_arith)
                requires
                    b >= 1,
            ;
        }
        0
    } else {
        proof {
            assert((a - 1) / (b as int) + 1 == (a + b - 1) / (b as int) && (a - 1) / (b as int)
                <= a - 1) by (nonlinear_arith)
                requires
                    a >= 1,
                    b >= 1,
            ;
            assert(((a + b - 1) / (b as int)) * b >= a && (a + b - 1) / (b as int) >= 1)
                by (nonlinear_arith)
                requires
                    a >= 1,
                    b >= 1,
            ;
        }
        (a - 1) / b + 1
    }
}

/// Preconditions shared by both swap directions: reserves and the amount are
/// 64-bit positive values, and the fee configuration respects its invariants.
pub open spec fn swap_args_wf(
    amount: u128,
    input_vault: u128,
    output_vault: u128,
    trade_fee_rate: u64,
    creator_fee_rate: u64,
    protocol_fee_rate: u64,
    fund_fee_rate: u64,
) -> bool {
    &&& 1 <= amount <= u64::MAX
    &&& 1 <= input_vault <= u64::MAX
    &&& 1 <= output_vault <= u64::MAX
    &&& trade_fee_rate + creator_fee_rate < FEE_RATE_DENOMINATOR_VALUE
    &&& protocol_fee_rate + fund_fee_rate <= FEE_RATE_DENOMINATOR_VALUE
}

/// The exact-input swap as a mathematical function.
///
/// The creator fee is taken from the input before the curve when
/// `creator_fee_on_input` holds, else from the computed output; the trade fee
/// is taken from the input leg; the curve pays out
/// `floor(net_in * output_vault / (input_vault + net_in))`. A swap whose
/// output would be zero is refused.
pub open spec fn spec_swap_base_input(
    amount_in: u128,
    input_vault: u128,
    output_vault: u128,
    trade_fee_rate: u64,
    creator_fee_rate: u64,
    protocol_fee_rate: u64,
    fund_fee_rate: u64,
    creator_fee_on_input: bool,
) -> Option<SwapResult> {
    let creator_fee_in: int = if creator_fee_on_input {
        spec_fee_floor(amount_in as int, creator_fee_rate as int)
    } else {
        0
    };
    let amount_less_creator: int = amount_in - creator_fee_in;
    let trade_fee: int = spec_fee_floor(amount_less_creator, trade_fee_rate as int);
    let net_in: int = amount_less_creator - trade_fee;
    let out_swapped: int = net_in * output_vault / (input_vault + net_in);
    let creator_fee_out: int = if creator_fee_on_input {
        0
    } else {
        spec_fee_floor(out_swapped, creator_fee_rate as int)
    };
    let output_amount: int = out_swapped - creator_fee_out;
    if output_amount == 0 {
        None
    } else {
        Some(
            SwapResult {
                new_input_vault_amount: (input_vault + amount_in) as u128,
                new_output_vault_amount: (output_vault - output_amount) as u128,
                input_amount: amount_in,
                output_amount: output_amount as u128,
                trade_fee: trade_fee as u128,
                creator_fee: (creator_fee_in + creator_fee_out) as u128,
                protocol_fee: spec_fee_floor(trade_fee, protocol_fee_rate as int) as u128,
                fund_fee: spec_fee_floor(trade_fee, fund_fee_rate as int) as u128,
            },
        )
    }
}

/// Exact-input constant-product swap.
///
/// Returns `None` only where the computed output would be zero; on success
/// the constant product of the reserves never decreases, the protocol and
/// fund shares never exceed the trade fee, and the output never drains the
/// output reserve.
pub fn swap_base_input(
    amount_in: u128,
    input_vault: u128,
    output_vault: u128,
    trade_fee_rate: u64,
    creator_fee_rate: u64,
    protocol_fee_rate: u64,
    fund_fee_rate: u64,
    creator_fee_on_input: bool,
) -> (r: Option<SwapResult>)
    requires
        swap_args_wf(
            amount_in,
            input_vault,
            output_vault,
            trade_fee_rate,
            creator_fee_rate,
            protocol_fee_rate,
            fund_fee_rate,
        ),
    ensures
        r == spec_swap_base_input(
            amount_in,
            input_vault,
            output_vault,
            trade_fee_rate,
            creator_fee_rate,
            protocol_fee_rate,
            fund_fee_rate,
            creator_fee_on_input,
        ),
        r is Some ==> {
            let s = r->Some_0;
            &&& s.new_input_vault_amount * s.new_output_vault_amount >= input_vault * output_vault
            &&& s.input_amount == amount_in
            &&& 1 <= s.output_amount < output_vault
            &&& s.protocol_fee + s.fund_fee <= s.trade_fee
            &&& s.trade_fee <= amount_in
            &&& s.creator_fee <= u64::MAX
            &&& s.new_input_vault_amount == input_vault + amount_in
            &&& s.new_output_vault_amount == output_vault - s.output_amount
        },
{
    let creator_fee_in: u128 = if creator_fee_on_input {
        fee_floor(amount_in, creator_fee_rate)
    } else {
        0
    };
    proof {
        lemma_fee_floor_le(amount_in as int, creator_fee_rate as int);
        assert(creator_fee_on_input ==> amount_in * creator_fee_rate / (
        FEE_RATE_DENOMINATOR_VALUE as int) < amount_in) by (nonlinear_arith)
            requires
                1 <= amount_in,
                creator_fee_rate < FEE_RATE_DENOMINATOR_VALUE,
        ;
    }
    let amount_less_creator: u128 = amount_in - creator_fee_in;
    let trade_fee: u128 = fee_floor(amount_less_creator, trade_fee_rate);
    proof {
        assert(amount_less_creator * trade_fee_rate / (FEE_RATE_DENOMINATOR_VALUE as int)
            < amount_less_creator) by (nonlinear_arith)
            requires
                1 <= amount_less_creator,
                trade_fee_rate < FEE_RATE_DENOMINATOR_VALUE,
        ;
    }
    let net_in: u128 = amount_less_creator - trade_fee;
    let denom: u128 = input_vault + net_in;
    proof {
        assert(net_in * output_vault <= u64::MAX * (u64::MAX as int)) by (nonlinear_arith)
            requires
                net_in <= u64::MAX,
                output_vault <= u64::MAX,
        ;
    }
    let out_swapped: u128 = (net_in * output_vault) / denom;
    proof {
        assert(net_in * output_vault / (denom as int) < output_vault) by (nonlinear_arith)
            requires
                net_in >= 1,
                output_vault >= 1,
                input_vault >= 1,
                denom == input_vault + net_in,
        ;
    }
    let creator_fee_out: u128 = if creator_fee_on_input {
        0
    } else {
        fee_floor(out_swapped, creator_fee_rate)
    };
    proof {
        lemma_fee_floor_le(out_swapped as int, creator_fee_rate as int);
    }
    let output_amount: u128 = out_swapped - creator_fee_out;
    if output_amount == 0 {
        return None;
    }
    let split = split_trade_fee(trade_fee, protocol_fee_rate, fund_fee_rate);
    let result = SwapResult {
        new_input_vault_amount: input_vault + amount_in,
        new_output_vault_amount: output_vault - output_amount,
        input_amount: amount_in,
        output_amount,
        trade_fee,
        creator_fee: creator_fee_in + creator_fee_out,
        protocol_fee: split.protocol_fee,
        fund_fee: split.fund_fee,
    };
    proof {
        let ov = output_vault as int;
        let iv = input_vault as int;
        let d = denom as int;
        let ni = net_in as int;
        let os = out_swapped as int;
        let oa = output_amount as int;
        assert(d * os <= ni * ov) by (nonlinear_arith)
            requires
                os == ni * ov / d,
                d >= 1,
                ni >= 0,
                ov >= 0,
        ;
        assert(d * (ov - os) >= iv * ov) by (nonlinear_arith)
            requires
                d * os <= ni * ov,
                d == iv + ni,
                ov >= 0,
                iv >= 0,
                ni >= 0,
        ;
        assert((iv + amount_in) * (ov - oa) >= iv * ov) by (nonlinear_arith)
            requires
                d * (ov - os) >= iv * ov,
                d == iv + ni,
                amount_in >= ni,
                oa <= os,
                os < ov,
                iv >= 0,
                ov >= 0,
                ni >= 0,
                oa >= 0,
        ;
    }
    Some(result)
}

/// The exact-output swap as a mathematical function.
///
/// The gross output leaving the pool is the requested amount grossed up by
/// the creator fee when the creator fee falls on the output leg; the input
/// the trader owes is the curve's requirement grossed up by the input-leg
/// fee rates, rounding against the trader. A request that would drain the
/// output reserve, or whose 128-bit gross-up overflows, or whose gross input
/// exceeds the 64-bit range, is refused.
pub open spec fn spec_swap_base_output(
    amount_out: u128,
    input_vault: u128,
    output_vault: u128,
    trade_fee_rate: u64,
    creator_fee_rate: u64,
    protocol_fee_rate: u64,
    fund_fee_rate: u64,
    creator_fee_on_input: bool,
) -> Option<SwapResult> {
    let den = FEE_RATE_DENOMINATOR_VALUE as int;
    let gross_up = if creator_fee_on_input {
        Some(amount_out as int)
    } else {
        spec_pre_fee_amount(amount_out as int, creator_fee_rate as int)
    };
    if gross_up is None {
        None
    } else {
        let out_gross: int = gross_up->Some_0;
        if out_gross >= output_vault {
            None
        } else {
            let net_in: int = spec_ceil_div(input_vault * out_gross, output_vault - out_gross);
            let rate_in: int = if creator_fee_on_input {
                trade_fee_rate + creator_fee_rate
            } else {
                trade_fee_rate as int
            };
            let grossed = spec_pre_fee_amount(net_in, rate_in);
            if grossed is None || grossed->Some_0 > u64::MAX {
                None
            } else {
                let gross_in: int = grossed->Some_0;
                let trade_fee: int = spec_fee_floor(gross_in, trade_fee_rate as int);
                let creator_fee: int = if creator_fee_on_input {
                    spec_fee_floor(gross_in, creator_fee_rate as int)
                } else {
                    out_gross - amount_out
                };
                Some(
                    SwapResult {
                        new_input_vault_amount: (input_vault + gross_in) as u128,
                        new_output_vault_amount: (output_vault - out_gross) as u128,
                        input_amount: gross_in as u128,
                        output_amount: amount_out,
                        trade_fee: trade_fee as u128,
                        creator_fee: creator_fee as u128,
                        protocol_fee: spec_fee_floor(trade_fee, protocol_fee_rate as int) as u128,
                        fund_fee: spec_fee_floor(trade_fee, fund_fee_rate as int) as u128,
                    },
                )
            }
        }
    }
}

/// Exact-output constant-product swap: solves for the input owed for a
/// desired output. On success the constant product of the reserves never
/// decreases and the input consumed is at least the curve's net requirement.
pub fn swap_base_output(
    amount_out: u128,
    input_vault: u128,
    output_vault: u128,
    trade_fee_rate: u64,
    creator_fee_rate: u64,
    protocol_fee_rate: u64,
    fund_fee_rate: u64,
    creator_fee_on_input: bool,
) -> (r: Option<SwapResult>)
    requires
        swap_args_wf(
            amount_out,
            input_vault,
            output_vault,
            trade_fee_rate,
            creator_fee_rate,
            protocol_fee_rate,
            fund_fee_rate,
        ),
    ensures
        r == spec_swap_base_output(
            amount_out,
            input_vault,
            output_vault,
            trade_fee_rate,
            creator_fee_rate,
            protocol_fee_rate,
            fund_fee_rate,
            creator_fee_on_input,
        ),
        r is Some ==> {
            let s = r->Some_0;
            &&& s.new_input_vault_amount * s.new_output_vault_amount >= input_vault * output_vault
            &&& s.output_amount == amount_out
            &&& 1 <= s.input_amount <= u64::MAX
            &&& s.protocol_fee + s.fund_fee <= s.trade_fee
            &&& s.trade_fee <= s.input_amount
            &&& s.creator_fee <= u64::MAX
        },
{
    let out_gross: u128 = if creator_fee_on_input {
        amount_out
    } else {
        match pre_fee_amount(amount_out, creator_fee_rate) {
            Some(v) => v,
            None => {
                return None;
            },
        }
    };
    if out_gross >= output_vault {
        return None;
    }
    let out_rem: u128 = output_vault - out_gross;
    proof {
        assert(1 <= input_vault * out_gross <= u64::MAX * (u64::MAX as int)) by (nonlinear_arith)
            requires
                1 <= input_vault <= u64::MAX,
                1 <= out_gross <= u64::MAX,
        ;
    }
    let net_in: u128 = ceil_div(input_vault * out_gross, out_rem);
    let rate_in: u64 = if creator_fee_on_input {
        trade_fee_rate + creator_fee_rate
    } else {
        trade_fee_rate
    };
    let gross_in: u128 = match pre_fee_amount(net_in, rate_in) {
        Some(v) => v,
        None => {
            return None;
        },
    };
    if gross_in > u64::MAX as u128 {
        return None;
    }
    let trade_fee: u128 = fee_floor(gross_in, trade_fee_rate);
    let creator_fee: u128 = if creator_fee_on_input {
        fee_floor(gross_in, creator_fee_rate)
    } else {
        out_gross - amount_out
    };
    let split = split_trade_fee(trade_fee, protocol_fee_rate, fund_fee_rate);
    let result = SwapResult {
        new_input_vault_amount: input_vault + gross_in,
        new_output_vault_amount: out_rem,
        input_amount: gross_in,
        output_amount: amount_out,
        trade_fee,
        creator_fee,
        protocol_fee: split.protocol_fee,
        fund_fee: split.fund_fee,
    };
    proof {
        let iv = input_vault as int;
        let ov = output_vault as int;
        let og = out_gross as int;
        let rem = out_rem as int;
        let ni = net_in as int;
        let gi = gross_in as int;
        assert(ni * rem >= iv * og);
        assert((iv + gi) * rem >= iv * ov) by (nonlinear_arith)
            requires
                ni * rem >= iv * og,
                gi >= ni,
                rem == ov - og,
                iv >= 0,
                ov >= 0,
                og >= 0,
                rem >= 1,
                ni >= 0,
        ;
    }
    Some(result)
}

/// Round trip without fees: swap an amount in, then ask the exact-output
/// solver for the same amount back from the moved pool. The input the
/// second swap demands is at least the output the first one produced, so a
/// trader cannot come out ahead by swapping forth and back.
pub proof fn lemma_round_trip_no_gain(
    x: u128,
    input_vault: u128,
    output_vault: u128,
    r1: SwapResult,
    r2: SwapResult,
)
    requires
        swap_args_wf(x, input_vault, output_vault, 0, 0, 0, 0),
        spec_swap_base_input(x, input_vault, output_vault, 0, 0, 0, 0, false) == Some(r1),
        spec_swap_base_output(
            x,
            r1.new_output_vault_amount,
            r1.new_input_vault_amount,
            0,
            0,
            0,
            0,
            false,
        ) == Some(r2),
    ensures
        r2.input_amount >= r1.output_amount,
{
    let iv = input_vault as int;
    let ov = output_vault as int;
    let xi = x as int;
    let os: int = xi * ov / (iv + xi);
    assert(0 <= os < ov) by (nonlinear_arith)
        requires
            os == xi * ov / (iv + xi),
            1 <= xi,
            1 <= iv,
            1 <= ov,
    ;
    assert(r1.output_amount == os);
    assert(r1.new_input_vault_amount == iv + xi);
    assert(r1.new_output_vault_amount == ov - os);
    assert(os * (iv + xi) <= xi * ov) by (nonlinear_arith)
        requires
            os == xi * ov / (iv + xi),
            iv + xi >= 1,
            xi >= 0,
            ov >= 0,
    ;
    // The second swap draws from the original input-side reserve, now iv + x.
    let rem: int = (iv + xi) - xi;
    assert(rem == iv);
    let ni2: int = spec_ceil_div((ov - os) * xi, iv);
    assert(r2.input_amount == ni2);
    assert(ni2 * iv >= (ov - os) * xi) by (nonlinear_arith)
        requires
            ni2 == ((ov - os) * xi + iv - 1) / iv,
            iv >= 1,
            ov - os >= 0,
            xi >= 0,
    ;
    assert((ov - os) * xi >= os * iv) by (nonlinear_arith)
        requires
            os * (iv + xi) <= xi * ov,
            iv >= 0,
            xi >= 0,
            os >= 0,
            ov >= os,
    ;
    assert(ni2 >= os) by (nonlinear_arith)
        requires
            ni2 * iv >= os * iv,
            iv >= 1,
    ;
}

} // verus!
