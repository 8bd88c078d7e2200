//! Oracle readings and their validation into usable price bounds.
use vstd::prelude::*;
use core::cmp::Ordering;
use crate::constants::{BPS_DECIMALS, BPS_POWER};
use crate::error::CompError;
use crate::math::{
    checked_add_u64, checked_div_u128, checked_mul_u128, checked_pow10_u64, checked_sub_u64,
    lemma_pow10_fits, pow10,
};
use crate::price::OraclePrice;
use crate::pubkey::Pubkey;

verus! {

/// The kind of oracle that backs a custody.
#[derive(Clone, Copy, Debug, PartialEq, Eq, Structural)]
pub enum OracleType {
    /// No oracle is configured.
    Unset,
    Custom,
    Pyth,
}

impl Default for OracleType {
    fn default() -> (r: Self)
        ensures
            r == OracleType::Custom,
    {
        OracleType::Custom
    }
}

/// A raw reading of the internal oracle.
#[derive(Clone, Copy, Debug, Default, PartialEq, Eq, Structural)]
pub struct CustomOracle {
    pub price: u64,
    pub expo: i32,
    pub conf: u64,
    pub ema: u64,
    pub publish_time: i64,
}

/// How a custody validates its oracle readings.
#[derive(Clone, Copy, Debug, Default, PartialEq, Eq)]
pub struct OracleParams {
    pub int_oracle_account: Pubkey,
    pub ext_oracle_account: Pubkey,
    pub oracle_type: OracleType,
    pub max_divergence_bps: u64,
    pub max_conf_bps: u64,
    pub max_price_age_sec: u32,
    pub max_backup_age_sec: u32,
}

/// `|x|`.
pub open spec fn abs(x: int) -> nat {
    if x < 0 {
        (-x) as nat
    } else {
        x as nat
    }
}

/// `|price - reference| / reference` in basis points (truncated): the
/// difference over the reference as a ratio, rescaled to `-BPS_DECIMALS`.
pub open spec fn divergence_spec(price: OraclePrice, reference: OraclePrice) -> Result<u64, CompError> {
    let diff = if price.cmp_spec(reference) == Some(Ordering::Greater) {
        price.sub_spec(reference)
    } else {
        reference.sub_spec(price)
    };
    match diff {
        Err(e) => Err(e),
        Ok(d) => match d.div_spec(reference) {
            Err(e) => Err(e),
            Ok(f) => match f.scale_spec(-(BPS_DECIMALS as i32) as i32) {
                Err(e) => Err(e),
                Ok(s) => Ok(s.price),
            },
        },
    }
}

/// The reference that a reading is held against: one unit at the reading's
/// exponent (`10^|expo|` at `expo`, one dollar for the non-positive exponents
/// that feeds use) for a stable asset, else the moving average.
pub open spec fn reference_spec(oracle: CustomOracle, is_stable: bool) -> Result<OraclePrice, CompError> {
    if !is_stable {
        Ok(OraclePrice { price: oracle.ema, exponent: oracle.expo })
    } else if abs(oracle.expo as int) > 19 {
        Err(CompError::MathOverflow)
    } else {
        Ok(OraclePrice { price: pow10(abs(oracle.expo as int)) as u64, exponent: oracle.expo })
    }
}

/// The validated `(min_price, max_price, volatile)` of a reading at time
/// `current_time`: stale readings fail; a reading that diverges from its
/// reference by less than `max_divergence_bps` is used as it is; otherwise a
/// confidence below `max_conf_bps` of the price widens it to
/// `[price - conf, price + conf]`, and a wider one fails.
pub open spec fn fetch_spec(
    oracle: CustomOracle,
    params: OracleParams,
    current_time: i64,
    is_stable: bool,
) -> Result<(OraclePrice, OraclePrice, bool), CompError> {
    let p = OraclePrice { price: oracle.price, exponent: oracle.expo };
    if current_time - oracle.publish_time > params.max_price_age_sec {
        Err(CompError::InvalidOraclePrice)
    } else {
        match reference_spec(oracle, is_stable) {
            Err(e) => Err(e),
            Ok(reference) => match divergence_spec(p, reference) {
                Err(e) => Err(e),
                Ok(divergence_bps) => {
                    if divergence_bps < params.max_divergence_bps {
                        Ok((p, p, false))
                    } else if oracle.price == 0 {
                        Err(CompError::MathOverflow)
                    } else if oracle.conf * BPS_POWER / (oracle.price as int) >= params.max_conf_bps {
                        Err(CompError::InvalidOraclePrice)
                    } else if oracle.conf > oracle.price || oracle.price + oracle.conf > u64::MAX {
                        Err(CompError::MathOverflow)
                    } else {
                        Ok((
                            OraclePrice { price: (oracle.price - oracle.conf) as u64, exponent: oracle.expo },
                            OraclePrice { price: (oracle.price + oracle.conf) as u64, exponent: oracle.expo },
                            true,
                        ))
                    }
                },
            },
        }
    }
}

impl OraclePrice {
    fn get_divergence(price: OraclePrice, reference: OraclePrice) -> (r: Result<u64, CompError>)
        ensures
            r == divergence_spec(price, reference),
    {
        let factor = if price > reference {
            price.checked_sub(&reference)?.checked_div(&reference)?
        } else {
            reference.checked_sub(&price)?.checked_div(&reference)?
        };
        Ok(factor.scale_to_exponent(-(BPS_DECIMALS as i32))?.price)
    }

    fn get_int_oracle_price(oracle: &CustomOracle) -> (r: (OraclePrice, OraclePrice, u64, i64))
        ensures
            r == (
                OraclePrice { price: oracle.price, exponent: oracle.expo },
                OraclePrice { price: oracle.ema, exponent: oracle.expo },
                oracle.conf,
                oracle.publish_time,
            ),
    {
        (
            OraclePrice::new(oracle.price, oracle.expo),
            OraclePrice::new(oracle.ema, oracle.expo),
            oracle.conf,
            oracle.publish_time,
        )
    }

    /// Validates a reading into `(min_price, max_price, volatility_flag)`.
    pub fn fetch_from_oracle(
        oracle: &CustomOracle,
        oracle_params: &OracleParams,
        current_time: i64,
        is_stable: bool,
    ) -> (r: Result<(OraclePrice, OraclePrice, bool), CompError>)
        ensures
            r == fetch_spec(*oracle, *oracle_params, current_time, is_stable),
    {
        let (oracle_price, oracle_ema_price, oracle_conf, oracle_timestamp) = Self::get_int_oracle_price(oracle);

        let price_age_sec: i128 = current_time as i128 - oracle_timestamp as i128;
        if price_age_sec > oracle_params.max_price_age_sec as i128 {
            return Err(CompError::InvalidOraclePrice);
        }

        let divergence_bps = if is_stable {
            let abs_expo: i64 = if oracle_price.exponent < 0 {
                -(oracle_price.exponent as i64)
            } else {
                oracle_price.exponent as i64
            };
            proof {
                lemma_pow10_fits(abs_expo as nat);
            }
            let one_usd = OraclePrice::new(checked_pow10_u64(abs_expo as usize)?, oracle_price.exponent);
            Self::get_divergence(oracle_price, one_usd)?
        } else {
            Self::get_divergence(oracle_price, oracle_ema_price)?
        };

        if divergence_bps < oracle_params.max_divergence_bps {
            Ok((oracle_price, oracle_price, false))
        } else {
            proof {
                assert(oracle_conf * BPS_POWER <= u128::MAX) by (nonlinear_arith)
                    requires
                        oracle_conf <= u64::MAX,
                ;
            }
            let conf_bps = checked_div_u128(
                checked_mul_u128(oracle_conf as u128, BPS_POWER)?,
                oracle_price.price as u128,
            )?;
            if conf_bps < oracle_params.max_conf_bps as u128 {
                Ok((
                    OraclePrice::new(checked_sub_u64(oracle_price.price, oracle_conf)?, oracle_price.exponent),
                    OraclePrice::new(checked_add_u64(oracle_price.price, oracle_conf)?, oracle_price.exponent),
                    true,
                ))
            } else {
                Err(CompError::InvalidOraclePrice)
            }
        }
    }
}

} // verus!
