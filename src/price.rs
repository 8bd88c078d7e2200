//! The decimal price type: an integer mantissa and a power-of-ten exponent.
use vstd::prelude::*;
use core::cmp::Ordering;
use crate::constants::{ORACLE_EXPONENT_SCALE, ORACLE_MAX_PRICE, ORACLE_PRICE_SCALE, USD_DECIMALS};
use crate::error::CompError;
use crate::math::{
    checked_add_i32, checked_decimal_div, checked_decimal_mul, checked_div_u64, checked_mul_u64,
    checked_pow10_u64, checked_sub_i32, checked_sub_u64, decimal_div_spec, decimal_mul_spec, fits_i32,
    lemma_pow10_fits, lemma_pow10_positive, pow10,
};

verus! {

/// The value `price * 10^exponent`.
#[derive(Clone, Copy, Debug, Default, PartialEq, Eq, Structural)]
pub struct OraclePrice {
    pub price: u64,
    pub exponent: i32,
}

/// The ordering of two integers.
pub open spec fn ord_of(x: int, y: int) -> Ordering {
    if x < y {
        Ordering::Less
    } else if x > y {
        Ordering::Greater
    } else {
        Ordering::Equal
    }
}

impl OraclePrice {
    /// The price rescaled to exponent `target`: the mantissa is multiplied by
    /// `10^(exponent - target)` when `target` is smaller, and divided by
    /// `10^(target - exponent)` (truncating) when it is larger. Fails when the
    /// exponent difference leaves `i32`, when the power of ten leaves 64 bits,
    /// or when the product does.
    pub open spec fn scale_spec(self, target: i32) -> Result<OraclePrice, CompError> {
        if target == self.exponent {
            Ok(self)
        } else if !fits_i32(target - self.exponent) {
            Err(CompError::MathOverflow)
        } else if target > self.exponent {
            let n = (target - self.exponent) as nat;
            if n > 19 {
                Err(CompError::MathOverflow)
            } else {
                Ok(OraclePrice { price: (self.price as int / pow10(n) as int) as u64, exponent: target })
            }
        } else {
            let n = (self.exponent - target) as nat;
            if n > 19 || self.price * pow10(n) > u64::MAX {
                Err(CompError::MathOverflow)
            } else {
                Ok(OraclePrice { price: (self.price * pow10(n)) as u64, exponent: target })
            }
        }
    }

    /// The comparison of two prices: the one with the larger exponent is
    /// rescaled to the smaller exponent, then mantissas are compared. `None`
    /// when that rescale fails.
    pub open spec fn cmp_spec(self, other: OraclePrice) -> Option<Ordering> {
        if self.exponent == other.exponent {
            Some(ord_of(self.price as int, other.price as int))
        } else if self.exponent < other.exponent {
            match other.scale_spec(self.exponent) {
                Ok(s) => Some(ord_of(self.price as int, s.price as int)),
                Err(_) => None,
            }
        } else {
            match self.scale_spec(other.exponent) {
                Ok(s) => Some(ord_of(s.price as int, other.price as int)),
                Err(_) => None,
            }
        }
    }

    /// Dividing the mantissa by ten and raising the exponent by one until the
    /// mantissa is at most `ORACLE_MAX_PRICE`; fails if the exponent leaves `i32`.
    pub open spec fn normalize_from(price: u64, exponent: i32) -> Result<OraclePrice, CompError>
        decreases price,
    {
        if price <= ORACLE_MAX_PRICE {
            Ok(OraclePrice { price, exponent })
        } else if exponent == i32::MAX {
            Err(CompError::MathOverflow)
        } else {
            Self::normalize_from(price / 10, (exponent + 1) as i32)
        }
    }

    pub open spec fn normalize_spec(self) -> Result<OraclePrice, CompError> {
        Self::normalize_from(self.price, self.exponent)
    }

    /// `self - other`, defined only for equal exponents and no underflow.
    pub open spec fn sub_spec(self, other: OraclePrice) -> Result<OraclePrice, CompError> {
        if self.exponent != other.exponent {
            Err(CompError::ExponentMismatch)
        } else if self.price < other.price {
            Err(CompError::MathOverflow)
        } else {
            Ok(OraclePrice { price: (self.price - other.price) as u64, exponent: self.exponent })
        }
    }

    /// The ratio of the two normalized prices: `a.price * 10^9 / b.price` at
    /// exponent `a.exponent - 9 - b.exponent`.
    pub open spec fn div_spec(self, other: OraclePrice) -> Result<OraclePrice, CompError> {
        match self.normalize_spec() {
            Err(e) => Err(e),
            Ok(a) => match other.normalize_spec() {
                Err(e) => Err(e),
                Ok(b) => {
                    let exp = a.exponent + ORACLE_EXPONENT_SCALE - b.exponent;
                    if b.price == 0 || !fits_i32(a.exponent + ORACLE_EXPONENT_SCALE) || !fits_i32(exp) {
                        Err(CompError::MathOverflow)
                    } else {
                        Ok(OraclePrice {
                            price: (a.price * ORACLE_PRICE_SCALE / (b.price as int)) as u64,
                            exponent: exp as i32,
                        })
                    }
                },
            },
        }
    }

    /// USD value (at `-USD_DECIMALS`) of `token_amount` units with `token_decimals` decimals.
    pub open spec fn asset_amount_usd_spec(self, token_amount: u64, token_decimals: u8) -> Result<u64, CompError> {
        if token_amount == 0 || self.price == 0 {
            Ok(0)
        } else {
            decimal_mul_spec(token_amount, -(token_decimals as i32) as i32, self.price, self.exponent,
                -(USD_DECIMALS as i32) as i32, false)
        }
    }

    /// Token amount (at `-token_decimals`) worth `asset_amount_usd` USD.
    pub open spec fn token_amount_spec(self, asset_amount_usd: u64, token_decimals: u8) -> Result<u64, CompError> {
        if asset_amount_usd == 0 || self.price == 0 {
            Ok(0)
        } else {
            decimal_div_spec(asset_amount_usd, -(USD_DECIMALS as i32) as i32, self.price, self.exponent,
                -(token_decimals as i32) as i32)
        }
    }

    pub fn new(price: u64, exponent: i32) -> (r: Self)
        ensures
            r == (OraclePrice { price, exponent }),
    {
        Self { price, exponent }
    }

    /// Converts a token amount to USD with `USD_DECIMALS` decimals.
    pub fn get_asset_amount_usd(&self, token_amount: u64, token_decimals: u8) -> (r: Result<u64, CompError>)
        ensures
            r == self.asset_amount_usd_spec(token_amount, token_decimals),
    {
        if token_amount == 0 || self.price == 0 {
            return Ok(0);
        }
        checked_decimal_mul(
            token_amount,
            -(token_decimals as i32),
            self.price,
            self.exponent,
            -(USD_DECIMALS as i32),
        )
    }

    /// Converts a USD amount with `USD_DECIMALS` decimals to a token amount.
    pub fn get_token_amount(&self, asset_amount_usd: u64, token_decimals: u8) -> (r: Result<u64, CompError>)
        ensures
            r == self.token_amount_spec(asset_amount_usd, token_decimals),
    {
        if asset_amount_usd == 0 || self.price == 0 {
            return Ok(0);
        }
        checked_decimal_div(
            asset_amount_usd,
            -(USD_DECIMALS as i32),
            self.price,
            self.exponent,
            -(token_decimals as i32),
        )
    }

    /// The price with its mantissa reduced to at most `ORACLE_MAX_PRICE`.
    pub fn normalize(&self) -> (r: Result<OraclePrice, CompError>)
        ensures
            r == self.normalize_spec(),
            r matches Ok(n) ==> n.price <= ORACLE_MAX_PRICE,
    {
        let mut p = self.price;
        let mut e = self.exponent;
        proof {
            Self::lemma_normalize_bounded(p, e);
        }
        while p > ORACLE_MAX_PRICE
            invariant
                Self::normalize_from(p, e) == self.normalize_spec(),
            decreases p,
        {
            p = checked_div_u64(p, 10)?;
            e = checked_add_i32(e, 1)?;
        }
        Ok(OraclePrice { price: p, exponent: e })
    }

    pub proof fn lemma_normalize_bounded(price: u64, exponent: i32)
        ensures
            Self::normalize_from(price, exponent) matches Ok(n) ==> n.price <= ORACLE_MAX_PRICE,
        decreases price,
    {
        if price > ORACLE_MAX_PRICE && exponent < i32::MAX {
            Self::lemma_normalize_bounded(price / 10, (exponent + 1) as i32);
        }
    }

    /// Subtracts two prices of the same exponent.
    pub fn checked_sub(&self, other: &OraclePrice) -> (r: Result<OraclePrice, CompError>)
        ensures
            r == self.sub_spec(*other),
    {
        if self.exponent != other.exponent {
            return Err(CompError::ExponentMismatch);
        }
        Ok(OraclePrice::new(checked_sub_u64(self.price, other.price)?, self.exponent))
    }

    /// The ratio of two prices, computed on their normalized forms.
    pub fn checked_div(&self, other: &OraclePrice) -> (r: Result<OraclePrice, CompError>)
        ensures
            r == self.div_spec(*other),
    {
        let base = self.normalize()?;
        let other = other.normalize()?;
        assert(base.price * ORACLE_PRICE_SCALE <= u64::MAX) by (nonlinear_arith)
            requires
                base.price <= ORACLE_MAX_PRICE,
        ;
        Ok(OraclePrice {
            price: checked_div_u64(checked_mul_u64(base.price, ORACLE_PRICE_SCALE)?, other.price)?,
            exponent: checked_sub_i32(checked_add_i32(base.exponent, ORACLE_EXPONENT_SCALE)?, other.exponent)?,
        })
    }

    /// Rescales the price to exponent `target_exponent`.
    pub fn scale_to_exponent(&self, target_exponent: i32) -> (r: Result<OraclePrice, CompError>)
        ensures
            r == self.scale_spec(target_exponent),
    {
        if target_exponent == self.exponent {
            return Ok(*self);
        }
        let delta = checked_sub_i32(target_exponent, self.exponent)?;
        if delta > 0 {
            proof {
                lemma_pow10_fits(delta as nat);
                lemma_pow10_positive(delta as nat);
            }
            let scale = checked_pow10_u64(delta as usize)?;
            Ok(OraclePrice { price: checked_div_u64(self.price, scale)?, exponent: target_exponent })
        } else {
            let n = (-(delta as i64)) as usize;
            proof {
                lemma_pow10_fits(n as nat);
            }
            let scale = checked_pow10_u64(n)?;
            Ok(OraclePrice { price: checked_mul_u64(self.price, scale)?, exponent: target_exponent })
        }
    }
}

impl PartialOrd for OraclePrice {
    fn partial_cmp(&self, other: &OraclePrice) -> Option<Ordering> {
        let (lhs, rhs) = if self.exponent == other.exponent {
            (self.price, other.price)
        } else if self.exponent < other.exponent {
            match other.scale_to_exponent(self.exponent) {
                Ok(scaled) => (self.price, scaled.price),
                Err(_) => {
                    return None;
                },
            }
        } else {
            match self.scale_to_exponent(other.exponent) {
                Ok(scaled) => (scaled.price, other.price),
                Err(_) => {
                    return None;
                },
            }
        };
        if lhs < rhs {
            Some(Ordering::Less)
        } else if lhs > rhs {
            Some(Ordering::Greater)
        } else {
            Some(Ordering::Equal)
        }
    }
}

impl vstd::std_specs::cmp::PartialOrdSpecImpl for OraclePrice {
    open spec fn obeys_partial_cmp_spec() -> bool {
        true
    }

    open spec fn partial_cmp_spec(&self, other: &OraclePrice) -> Option<Ordering> {
        self.cmp_spec(*other)
    }
}

} // verus!
