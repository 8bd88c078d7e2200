//! Fixed decimal conventions shared by every computation.
use vstd::prelude::*;

verus! {

/// Decimal places of basis-point quantities.
pub const BPS_DECIMALS: u8 = 4;
/// `10^BPS_DECIMALS`.
pub const BPS_POWER: u128 = 10_000;
/// Decimal places of USD amounts.
pub const USD_DECIMALS: u8 = 6;
/// Decimal places of pool share tokens.
pub const LP_DECIMALS: u8 = 6;
/// `10^LP_DECIMALS`.
pub const LP_POWER: u128 = 1_000_000;
/// Decimal places of rates and fees.
pub const RATE_DECIMALS: u8 = 9;
/// `10^RATE_DECIMALS`.
pub const RATE_POWER: u128 = 1_000_000_000;
/// Seconds in a day.
pub const DAY_SECONDS: i64 = 86400;
/// Seconds in an hour: borrow rates are hourly.
pub const HOUR_SECONDS: u128 = 3600;

/// Exponent of the scale applied to a dividend in a price ratio.
pub const ORACLE_EXPONENT_SCALE: i32 = -9;
/// `10^-ORACLE_EXPONENT_SCALE`.
pub const ORACLE_PRICE_SCALE: u64 = 1_000_000_000;
/// Largest mantissa that a normalized price keeps: `2^28 - 1`.
pub const ORACLE_MAX_PRICE: u64 = 268_435_455;

} // verus!
