//! Core of a constant-product automated-market-maker exchange.
//!
//! The library holds the verified computation engine: fixed-point fee math,
//! the constant-product curve solver, the price-resolution subsystem that
//! converts a fee into settlement-token units, and the swap orchestrators
//! that sequence gating, fee computation, price resolution and the invariant
//! check. Ledger transfers and account plumbing live outside the library and
//! hand it plain value snapshots.

pub mod address;
pub mod error;
pub mod amm_config;
pub mod curve;
pub mod fees;
pub mod math;
pub mod pool_state;
pub mod price_oracle;
pub mod protocol_token_config;
pub mod pyth;
pub mod spl_account;
pub mod swap;
