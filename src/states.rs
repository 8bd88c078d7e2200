//! The records that the computations read: protocol, pool, custody, market
//! and position state, with the per-record pricing and fee rules.
use vstd::prelude::*;
use crate::constants::{HOUR_SECONDS, RATE_POWER, USD_DECIMALS};
use crate::error::CompError;
use crate::math::{
    ceil_div, checked_add_u128, checked_add_u64, checked_as_u64, checked_ceil_div_u128,
    checked_decimal_ceil_mul, checked_decimal_mul, checked_div_u128, checked_div_u64,
    checked_mul_u128, checked_mul_u64, checked_sub_i64, checked_sub_u128, checked_sub_u64,
    decimal_mul_spec, lemma_mul_u64_fits_u128, u128_result, u64_result,
};
use crate::oracle::OracleParams;
use crate::price::OraclePrice;
use crate::pubkey::{zero_key, Pubkey};

verus! {

#[derive(Clone, Copy, Debug, Default, PartialEq, Eq, Structural)]
pub struct Permissions {
    pub allow_swap: bool,
    pub allow_add_liquidity: bool,
    pub allow_remove_liquidity: bool,
    pub allow_open_position: bool,
    pub allow_close_position: bool,
    pub allow_collateral_withdrawal: bool,
    pub allow_size_change: bool,
    pub allow_liquidation: bool,
    pub allow_flp_staking: bool,
    pub allow_fee_distribution: bool,
    pub allow_ungated_trading: bool,
    pub allow_fee_discounts: bool,
    pub allow_referral_rebates: bool,
}

/// Multipliers with `RATE_DECIMALS` decimals.
#[derive(Clone, Copy, Debug, Default, PartialEq, Eq, Structural)]
pub struct VoltageMultiplier {
    pub volume: u64,
    pub rewards: u64,
    pub rebates: u64,
}

/// Protocol-wide settings.
#[derive(Clone, Debug, Default)]
pub struct Perpetuals {
    pub permissions: Permissions,
    pub pools: Vec<Pubkey>,
    pub collections: Vec<Pubkey>,
    pub voltage_multiplier: VoltageMultiplier,
    /// Discounts with `RATE_DECIMALS` decimals.
    pub trading_discount: [u64; 6],
    pub referral_rebate: [u64; 6],
    pub referral_discount: u64,
    pub inception_time: i64,
    pub transfer_authority_bump: u8,
    pub perpetuals_bump: u8,
    pub trade_limit: u16,
    pub rebate_limit_usd: u32,
}

#[derive(Clone, Copy, Debug, Default, PartialEq, Eq, Structural)]
pub struct TokenRatios {
    pub target: u64,
    pub min: u64,
    pub max: u64,
}

/// The compounding share token of a pool.
#[derive(Clone, Copy, Debug, Default, PartialEq, Eq, Structural)]
pub struct CompoundingStats {
    pub active_amount: u64,
    pub total_supply: u64,
    pub reward_snapshot: u128,
    pub fee_share_bps: u64,
    pub last_compound_time: i64,
}

#[derive(Clone, Copy, Debug, Default, PartialEq, Eq, Structural)]
pub struct StakeStats {
    pub pending_activation: u64,
    pub active_amount: u64,
    pub pending_deactivation: u64,
    pub deactivated_amount: u64,
}

/// A liquidity pool: the custodies and markets it references.
#[derive(Clone, Debug, Default)]
pub struct Pool {
    pub name: String,
    pub permissions: Permissions,
    pub inception_time: i64,
    pub lp_mint: Pubkey,
    pub oracle_authority: Pubkey,
    pub staked_lp_vault: Pubkey,
    pub reward_custody: Pubkey,
    pub custodies: Vec<Pubkey>,
    pub ratios: Vec<TokenRatios>,
    pub markets: Vec<Pubkey>,
    pub max_aum_usd: u128,
    pub aum_usd: u128,
    pub total_staked: StakeStats,
    pub staking_fee_share_bps: u64,
    pub bump: u8,
    pub lp_mint_bump: u8,
    pub staked_lp_vault_bump: u8,
    pub vp_volume_factor: u8,
    pub padding: [u8; 4],
    pub staking_fee_boost_bps: [u64; 6],
    pub compounding_mint: Pubkey,
    pub compounding_lp_vault: Pubkey,
    pub compounding_stats: CompoundingStats,
    pub compounding_mint_bump: u8,
    pub compounding_lp_vault_bump: u8,
}

/// Which way a position or market trades.
#[derive(Clone, Copy, Debug, PartialEq, Eq, Structural)]
pub enum Side {
    /// Not yet set.
    Unset,
    Long,
    Short,
}

impl Default for Side {
    fn default() -> (r: Self)
        ensures
            r == Side::Unset,
    {
        Side::Unset
    }
}

/// `amount * fee / RATE_POWER`, rounded up; zero when either is zero.
pub open spec fn fee_amount_spec(fee: u64, amount: u64) -> Result<u64, CompError> {
    if fee == 0 || amount == 0 {
        Ok(0)
    } else {
        u64_result(ceil_div(amount * fee, RATE_POWER as int))
    }
}

/// The price that a trade on `side` gets: for a long, the max price raised by
/// `spread` (hundredths of a basis point) of itself, rounded up; otherwise the
/// min price lowered by that share of itself, truncated, and floored at zero.
pub open spec fn spread_price_spec(
    min_price: OraclePrice,
    max_price: OraclePrice,
    side: Side,
    spread: u64,
) -> Result<OraclePrice, CompError> {
    if side == Side::Long {
        match decimal_mul_spec(max_price.price, max_price.exponent, spread, -(USD_DECIMALS as i32) as i32,
            max_price.exponent, true) {
            Err(e) => Err(e),
            Ok(s) => match u64_result(max_price.price + s) {
                Err(e) => Err(e),
                Ok(p) => Ok(OraclePrice { price: p, exponent: max_price.exponent }),
            },
        }
    } else {
        match decimal_mul_spec(min_price.price, min_price.exponent, spread, -(USD_DECIMALS as i32) as i32,
            min_price.exponent, false) {
            Err(e) => Err(e),
            Ok(s) => Ok(OraclePrice {
                price: if s < min_price.price { (min_price.price - s) as u64 } else { 0 },
                exponent: min_price.exponent,
            }),
        }
    }
}

/// The side whose entry price a position of `side` exits at.
pub open spec fn exit_side(side: Side) -> Side {
    if side == Side::Long {
        Side::Short
    } else {
        Side::Long
    }
}

impl Pool {
    /// The fee at rate `fee` (`RATE_DECIMALS`) on `amount`, rounded up.
    pub fn get_fee_amount(&self, fee: u64, amount: u64) -> (r: Result<u64, CompError>)
        ensures
            r == fee_amount_spec(fee, amount),
    {
        if fee == 0 || amount == 0 {
            return Ok(0);
        }
        proof {
            lemma_mul_u64_fits_u128(amount, fee);
        }
        checked_as_u64(checked_ceil_div_u128(checked_mul_u128(amount as u128, fee as u128)?, RATE_POWER)?)
    }

    fn get_price(
        &self,
        min_price: &OraclePrice,
        max_price: &OraclePrice,
        side: Side,
        spread: u64,
    ) -> (r: Result<OraclePrice, CompError>)
        ensures
            r == spread_price_spec(*min_price, *max_price, side, spread),
    {
        if side == Side::Long {
            Ok(OraclePrice {
                price: checked_add_u64(
                    max_price.price,
                    checked_decimal_ceil_mul(
                        max_price.price,
                        max_price.exponent,
                        spread,
                        -(USD_DECIMALS as i32),
                        max_price.exponent,
                    )?,
                )?,
                exponent: max_price.exponent,
            })
        } else {
            let spread = checked_decimal_mul(
                min_price.price,
                min_price.exponent,
                spread,
                -(USD_DECIMALS as i32),
                min_price.exponent,
            )?;
            let price = if spread < min_price.price {
                checked_sub_u64(min_price.price, spread)?
            } else {
                0
            };
            Ok(OraclePrice { price, exponent: min_price.exponent })
        }
    }

    /// The price at which a position on `side` opens.
    pub fn get_entry_price(
        &self,
        min_price: &OraclePrice,
        max_price: &OraclePrice,
        side: Side,
        spread: u64,
    ) -> (r: Result<OraclePrice, CompError>)
        ensures
            r == spread_price_spec(*min_price, *max_price, side, spread),
    {
        let price = self.get_price(min_price, max_price, side, spread)?;
        Ok(price)
    }

    /// The price at which a position on `side` closes: the entry price of the
    /// opposite side.
    pub fn get_exit_price(
        &self,
        min_price: &OraclePrice,
        max_price: &OraclePrice,
        side: Side,
        spread: u64,
    ) -> (r: Result<OraclePrice, CompError>)
        ensures
            r == spread_price_spec(*min_price, *max_price, exit_side(side), spread),
    {
        let price = self.get_price(
            min_price,
            max_price,
            if side == Side::Long {
                Side::Short
            } else {
                Side::Long
            },
            spread,
        )?;
        Ok(price)
    }
}

/// The pricing snapshot of one custody for one computation.
#[derive(Clone, Copy, Debug, PartialEq, Eq, Structural)]
pub struct CustodyDetails {
    pub trade_spread_min: u64,
    pub trade_spread_max: u64,
    pub delay_seconds: i64,
    pub min_price: OraclePrice,
    pub max_price: OraclePrice,
}

#[derive(Clone, Copy, Debug, PartialEq, Eq, Structural)]
pub enum FeesMode {
    Fixed,
    Linear,
}

impl Default for FeesMode {
    fn default() -> (r: Self)
        ensures
            r == FeesMode::Linear,
    {
        FeesMode::Linear
    }
}

#[derive(Clone, Copy, Debug, Default, PartialEq, Eq, Structural)]
pub struct RatioFees {
    pub min_fee: u64,
    pub target_fee: u64,
    pub max_fee: u64,
}

/// Fee rates, with `RATE_DECIMALS` decimals.
#[derive(Clone, Copy, Debug, Default, PartialEq, Eq, Structural)]
pub struct Fees {
    pub mode: FeesMode,
    pub swap_in: RatioFees,
    pub swap_out: RatioFees,
    pub stable_swap_in: RatioFees,
    pub stable_swap_out: RatioFees,
    pub add_liquidity: RatioFees,
    pub remove_liquidity: RatioFees,
    pub open_position: u64,
    pub close_position: u64,
    pub volatility: u64,
}

#[derive(Clone, Copy, Debug, Default, PartialEq, Eq, Structural)]
pub struct Assets {
    /// Collateral held in custody.
    pub collateral: u64,
    /// Deposited by liquidity providers and profit or loss settled against the pool.
    pub owned: u64,
    /// Locked for profit payoff.
    pub locked: u64,
}

#[derive(Clone, Copy, Debug, Default, PartialEq, Eq, Structural)]
pub struct FeesStats {
    pub accrued: u128,
    pub distributed: u128,
    pub paid: u128,
    pub reward_per_lp_staked: u64,
    pub protocol_fee: u64,
}

#[derive(Clone, Copy, Debug, Default, PartialEq, Eq, Structural)]
pub struct PricingParams {
    /// In hundredths of a basis point.
    pub trade_spread_min: u64,
    /// In hundredths of a basis point.
    pub trade_spread_max: u64,
    pub swap_spread: u64,
    pub min_initial_leverage: u64,
    pub max_initial_leverage: u64,
    /// With `BPS_DECIMALS` decimals.
    pub max_leverage: u64,
    pub min_collateral_usd: u64,
    pub delay_seconds: i64,
    pub max_utilization: u64,
    pub max_position_locked_usd: u64,
    pub max_exposure_usd: u64,
}

/// Borrow rate parameters, with `RATE_DECIMALS` decimals.
#[derive(Clone, Copy, Debug, Default, PartialEq, Eq, Structural)]
pub struct BorrowRateParams {
    pub base_rate: u64,
    pub slope1: u64,
    pub slope2: u64,
    pub optimal_utilization: u64,
}

/// The running lock-fee index of a custody: an hourly rate (`RATE_DECIMALS`),
/// the fee accumulated per unit locked, and when it was last brought up to date.
#[derive(Clone, Copy, Debug, Default, PartialEq, Eq, Structural)]
pub struct BorrowRateState {
    pub current_rate: u64,
    pub cumulative_lock_fee: u128,
    pub last_update: i64,
}

/// Per-asset configuration and state.
#[derive(Clone, Copy, Debug, Default, PartialEq, Eq)]
pub struct Custody {
    pub pool: Pubkey,
    pub mint: Pubkey,
    pub token_account: Pubkey,
    pub decimals: u8,
    pub is_stable: bool,
    pub depeg_adjustment: bool,
    pub is_virtual: bool,
    pub distribute_rewards: bool,
    pub oracle: OracleParams,
    pub pricing: PricingParams,
    pub permissions: Permissions,
    pub fees: Fees,
    pub borrow_rate: BorrowRateParams,
    pub reward_threshold: u64,
    pub assets: Assets,
    pub fees_stats: FeesStats,
    pub borrow_rate_state: BorrowRateState,
    pub bump: u8,
    pub token_account_bump: u8,
    pub size_factor_for_spread: u8,
    pub null: u8,
    pub reserved_amount: u64,
    pub min_reserve_usd: u64,
    pub limit_price_buffer_bps: u64,
    pub padding: [u8; 32],
}

/// `RATE_POWER + BPS_POWER`, the scale of a spread slope.
pub const SPREAD_SLOPE_SCALE: u64 = 1_000_010_000;

impl Custody {
    /// The lock-fee index at `curtime`: the stored index plus, when `curtime`
    /// is past the last update, the elapsed seconds times the hourly rate over
    /// 3600, rounded up.
    pub open spec fn cumulative_lock_fee_spec(self, curtime: i64) -> Result<u128, CompError> {
        let s = self.borrow_rate_state;
        if curtime > s.last_update {
            if curtime - s.last_update > i64::MAX {
                Err(CompError::MathOverflow)
            } else {
                u128_result(s.cumulative_lock_fee + ceil_div((curtime - s.last_update) * s.current_rate,
                    HOUR_SECONDS as int))
            }
        } else {
            Ok(s.cumulative_lock_fee)
        }
    }

    /// The lock fee that `position` owes at `curtime`: zero without locked USD
    /// or on a virtual custody, else the growth of the index past the position's
    /// snapshot (zero if none) times its locked USD over `RATE_POWER`.
    pub open spec fn lock_fee_spec(self, position: Position, curtime: i64) -> Result<u64, CompError> {
        if position.locked_usd == 0 || self.is_virtual {
            Ok(0)
        } else {
            match self.cumulative_lock_fee_spec(curtime) {
                Err(e) => Err(e),
                Ok(c) => if c > position.cumulative_lock_fee_snapshot {
                    let owed = (c - position.cumulative_lock_fee_snapshot) * position.locked_usd;
                    if owed > u128::MAX {
                        Err(CompError::MathOverflow)
                    } else {
                        u64_result(owed / RATE_POWER as int)
                    }
                } else {
                    Ok(0)
                },
            }
        }
    }

    /// The spread for a trade of `size_usd`: zero when the maximum spread is
    /// zero, else the minimum spread plus a slope of `(max - min) / max_position_locked_usd`
    /// times the size, both at `SPREAD_SLOPE_SCALE` and truncated.
    pub open spec fn trade_spread_spec(self, size_usd: u64) -> Result<u64, CompError> {
        let p = self.pricing;
        if p.trade_spread_max == 0 {
            Ok(0)
        } else if p.trade_spread_max < p.trade_spread_min
            || (p.trade_spread_max - p.trade_spread_min) * SPREAD_SLOPE_SCALE > u64::MAX
            || p.max_position_locked_usd == 0 {
            Err(CompError::MathOverflow)
        } else {
            let slope = (p.trade_spread_max - p.trade_spread_min) * SPREAD_SLOPE_SCALE
                / (p.max_position_locked_usd as int);
            if slope * size_usd > u64::MAX {
                Err(CompError::MathOverflow)
            } else {
                u64_result(p.trade_spread_min + slope * size_usd / (SPREAD_SLOPE_SCALE as int))
            }
        }
    }

    /// The lock fee that `position` owes at `curtime`.
    pub fn get_lock_fee_usd(&self, position: &Position, curtime: i64) -> (r: Result<u64, CompError>)
        ensures
            r == self.lock_fee_spec(*position, curtime),
    {
        if position.locked_usd == 0 || self.is_virtual {
            return Ok(0);
        }
        let cumulative_lock_fee = self.get_cumulative_lock_fee(curtime)?;
        let position_lock_fee = if cumulative_lock_fee > position.cumulative_lock_fee_snapshot {
            checked_sub_u128(cumulative_lock_fee, position.cumulative_lock_fee_snapshot)?
        } else {
            return Ok(0);
        };
        checked_as_u64(checked_div_u128(
            checked_mul_u128(position_lock_fee, position.locked_usd as u128)?,
            RATE_POWER,
        )?)
    }

    /// The lock-fee index brought up to `curtime`.
    pub fn get_cumulative_lock_fee(&self, curtime: i64) -> (r: Result<u128, CompError>)
        ensures
            r == self.cumulative_lock_fee_spec(curtime),
    {
        if curtime > self.borrow_rate_state.last_update {
            let elapsed = checked_sub_i64(curtime, self.borrow_rate_state.last_update)?;
            proof {
                assert(elapsed * self.borrow_rate_state.current_rate <= u128::MAX) by (nonlinear_arith)
                    requires
                        0 < elapsed <= i64::MAX,
                        self.borrow_rate_state.current_rate <= u64::MAX,
                ;
            }
            let cumulative_lock_fee = checked_ceil_div_u128(
                checked_mul_u128(elapsed as u128, self.borrow_rate_state.current_rate as u128)?,
                HOUR_SECONDS,
            )?;
            checked_add_u128(self.borrow_rate_state.cumulative_lock_fee, cumulative_lock_fee)
        } else {
            Ok(self.borrow_rate_state.cumulative_lock_fee)
        }
    }

    /// The spread (hundredths of a basis point) for a trade of `size_usd`.
    pub fn get_trade_spread(&self, size_usd: u64) -> (r: Result<u64, CompError>)
        ensures
            r == self.trade_spread_spec(size_usd),
    {
        if self.pricing.trade_spread_max == 0 {
            return Ok(0);
        }
        let slope = checked_div_u64(
            checked_mul_u64(
                checked_sub_u64(self.pricing.trade_spread_max, self.pricing.trade_spread_min)?,
                SPREAD_SLOPE_SCALE,
            )?,
            self.pricing.max_position_locked_usd,
        )?;
        Ok(checked_add_u64(
            self.pricing.trade_spread_min,
            checked_div_u64(checked_mul_u64(slope, size_usd)?, SPREAD_SLOPE_SCALE)?,
        )?)
    }
}

#[derive(Clone, Copy, Debug, Default, PartialEq, Eq, Structural)]
pub struct MarketPermissions {
    pub allow_open_position: bool,
    pub allow_close_position: bool,
    pub allow_collateral_withdrawal: bool,
    pub allow_size_change: bool,
}

/// The running totals of all open positions of a market.
#[derive(Clone, Copy, Debug, Default, PartialEq, Eq, Structural)]
pub struct PositionStats {
    pub open_positions: u64,
    pub update_time: i64,
    pub average_entry_price: OraclePrice,
    pub size_amount: u64,
    pub size_usd: u64,
    pub locked_amount: u64,
    pub locked_usd: u64,
    pub collateral_amount: u64,
    /// Only kept for storage.
    pub collateral_usd: u64,
    pub unsettled_fee_usd: u64,
    pub cumulative_lock_fee_snapshot: u128,
    pub size_decimals: u8,
    pub locked_decimals: u8,
    pub collateral_decimals: u8,
}

/// A market: a side traded on a target custody, with collateral in another.
#[derive(Clone, Copy, Debug, Default, PartialEq, Eq)]
pub struct Market {
    pub pool: Pubkey,
    pub target_custody: Pubkey,
    pub collateral_custody: Pubkey,
    pub side: Side,
    pub correlation: bool,
    pub max_payoff_bps: u64,
    pub permissions: MarketPermissions,
    pub open_interest: u64,
    pub collective_position: PositionStats,
    pub target_custody_id: usize,
    pub collateral_custody_id: usize,
    pub bump: u8,
}

/// An open position.
#[derive(Clone, Copy, Debug, PartialEq, Eq)]
pub struct Position {
    pub owner: Pubkey,
    pub market: Pubkey,
    pub delegate: Pubkey,
    pub open_time: i64,
    pub update_time: i64,
    pub entry_price: OraclePrice,
    pub size_amount: u64,
    pub size_usd: u64,
    pub locked_amount: u64,
    pub locked_usd: u64,
    pub collateral_amount: u64,
    pub collateral_usd: u64,
    /// Used for position delta accounting.
    pub unsettled_amount: u64,
    pub unsettled_fees_usd: u64,
    pub cumulative_lock_fee_snapshot: u128,
    pub take_profit_price: OraclePrice,
    pub stop_loss_price: OraclePrice,
    pub size_decimals: u8,
    pub locked_decimals: u8,
    pub collateral_decimals: u8,
    pub bump: u8,
}

/// The position with every field zero.
pub open spec fn empty_position() -> Position {
    Position {
        owner: zero_key(),
        market: zero_key(),
        delegate: zero_key(),
        open_time: 0,
        update_time: 0,
        entry_price: OraclePrice { price: 0, exponent: 0 },
        size_amount: 0,
        size_usd: 0,
        locked_amount: 0,
        locked_usd: 0,
        collateral_amount: 0,
        collateral_usd: 0,
        unsettled_amount: 0,
        unsettled_fees_usd: 0,
        cumulative_lock_fee_snapshot: 0,
        take_profit_price: OraclePrice { price: 0, exponent: 0 },
        stop_loss_price: OraclePrice { price: 0, exponent: 0 },
        size_decimals: 0,
        locked_decimals: 0,
        collateral_decimals: 0,
        bump: 0,
    }
}

impl Default for Position {
    fn default() -> (r: Self)
        ensures
            r == empty_position(),
    {
        Position {
            owner: Pubkey::zero(),
            market: Pubkey::zero(),
            delegate: Pubkey::zero(),
            open_time: 0,
            update_time: 0,
            entry_price: OraclePrice::new(0, 0),
            size_amount: 0,
            size_usd: 0,
            locked_amount: 0,
            locked_usd: 0,
            collateral_amount: 0,
            collateral_usd: 0,
            unsettled_amount: 0,
            unsettled_fees_usd: 0,
            cumulative_lock_fee_snapshot: 0,
            take_profit_price: OraclePrice::new(0, 0),
            stop_loss_price: OraclePrice::new(0, 0),
            size_decimals: 0,
            locked_decimals: 0,
            collateral_decimals: 0,
            bump: 0,
        }
    }
}

impl Market {
    /// The market's open positions taken together as one position: the
    /// running totals when any position is open (with a zero entry price when
    /// the size is zero), else the empty position.
    pub open spec fn collective_spec(self) -> Position {
        let s = self.collective_position;
        if s.open_positions > 0 {
            Position {
                update_time: s.update_time,
                entry_price: if s.size_amount > 0 {
                    s.average_entry_price
                } else {
                    OraclePrice { price: 0, exponent: s.average_entry_price.exponent }
                },
                size_amount: s.size_amount,
                size_usd: s.size_usd,
                locked_amount: s.locked_amount,
                locked_usd: s.locked_usd,
                collateral_amount: s.collateral_amount,
                unsettled_fees_usd: s.unsettled_fee_usd,
                cumulative_lock_fee_snapshot: s.cumulative_lock_fee_snapshot,
                size_decimals: s.size_decimals,
                locked_decimals: s.locked_decimals,
                collateral_decimals: s.collateral_decimals,
                ..empty_position()
            }
        } else {
            empty_position()
        }
    }

    /// The market's open positions taken together as one position.
    pub fn get_collective_position(&self) -> (r: Result<Position, CompError>)
        ensures
            r == Ok::<Position, CompError>(self.collective_spec()),
    {
        if self.collective_position.open_positions > 0 {
            let empty = Position::default();
            Ok(Position {
                update_time: self.collective_position.update_time,
                entry_price: if self.collective_position.size_amount > 0 {
                    self.collective_position.average_entry_price
                } else {
                    OraclePrice::new(0, self.collective_position.average_entry_price.exponent)
                },
                size_amount: self.collective_position.size_amount,
                size_usd: self.collective_position.size_usd,
                locked_amount: self.collective_position.locked_amount,
                locked_usd: self.collective_position.locked_usd,
                collateral_amount: self.collective_position.collateral_amount,
                unsettled_fees_usd: self.collective_position.unsettled_fee_usd,
                cumulative_lock_fee_snapshot: self.collective_position.cumulative_lock_fee_snapshot,
                size_decimals: self.collective_position.size_decimals,
                locked_decimals: self.collective_position.locked_decimals,
                collateral_decimals: self.collective_position.collateral_decimals,
                ..empty
            })
        } else {
            Ok(Position::default())
        }
    }
}

/// The entry price of a new position with its fees.
#[derive(Clone, Copy, Debug, Default, PartialEq, Eq, Structural)]
pub struct NewPositionPricesAndFee {
    pub entry_price: OraclePrice,
    pub entry_fee_amount: u64,
    pub vb_fee_amount: u64,
}

} // verus!
