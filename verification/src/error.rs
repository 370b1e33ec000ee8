use vstd::prelude::*;

verus! {

/// Error taxonomy of the exchange core.
///
/// Every failure of a request is terminal: a function either completes its
/// whole computation or reports one of these and leaves no partial effect.
#[derive(Clone, Copy, Debug, PartialEq, Eq, Structural)]
pub enum ErrorCode {
    /// Malformed or out-of-range parameters, an unresolved price path, or a
    /// zero-value result that must never be zero.
    InvalidInput,
    /// An arithmetic step left the representable range.
    MathOverflow,
    /// The pool is not open for trading (swap disabled or before open time).
    NotApproved,
    /// The net amount fell outside the caller's slippage bound.
    ExceededSlippage,
    /// The caller lacks the funds for the separate fee-payment leg.
    InsufficientBalance,
    /// An ownership check on an administrative path failed.
    InvalidOwner,
    /// An authority check on an administrative path failed.
    InvalidAuthority,
    /// An oracle price feed could not be read.
    OracleUnavailable,
    /// An oracle price feed was readable but older than the freshness bound.
    StalePrice,
}

} // verus!
