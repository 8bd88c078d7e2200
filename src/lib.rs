//! Pricing and risk computations for a leveraged-trading pool: decimal prices,
//! oracle validation, pool equity and share prices, liquidation prices and
//! time-accrued lock fees, all in checked integer arithmetic.
pub mod constants;
pub mod error;
pub mod math;
pub mod price;
pub mod pubkey;
pub mod oracle;
pub mod states;
pub mod compute;
pub mod laws;
pub mod accounts;
