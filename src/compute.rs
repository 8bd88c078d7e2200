//! The pool's share-token prices and a position's liquidation price.
use vstd::prelude::*;
use core::cmp::Ordering;
use crate::constants::{BPS_POWER, LP_DECIMALS, RATE_DECIMALS, USD_DECIMALS};
use crate::error::CompError;
use crate::math::{
    checked_add_u128, checked_add_u64, checked_as_u64, checked_decimal_div, checked_decimal_mul,
    checked_div_u128, checked_mul_u128, checked_pow10_u128, checked_sub_u64, decimal_div_spec,
    decimal_mul_spec, lemma_mul_u64_fits_u128, lemma_pow10_fits, pow10, u128_result, u64_result,
};
use crate::price::OraclePrice;
use crate::states::{
    fee_amount_spec, spread_price_spec, Custody, CustodyDetails, Market, Pool, Position, Side,
};

verus! {

/// The pricing snapshot of a custody whose oracle reads `price`: both bounds
/// are that price.
pub open spec fn custody_details_spec(custody: Custody, price: OraclePrice) -> CustodyDetails {
    CustodyDetails {
        trade_spread_min: custody.pricing.trade_spread_min,
        trade_spread_max: custody.pricing.trade_spread_max,
        delay_seconds: custody.pricing.delay_seconds,
        min_price: price,
        max_price: price,
    }
}

/// The USD value of the assets that the first `k` custodies own, each at its
/// price, summed in 128 bits.
pub open spec fn raw_aum_spec(custodies: Seq<Custody>, prices: Seq<OraclePrice>, k: nat) -> Result<u128, CompError>
    decreases k,
{
    if k == 0 {
        Ok(0)
    } else {
        match raw_aum_spec(custodies, prices, (k - 1) as nat) {
            Err(e) => Err(e),
            Ok(acc) => match prices[k - 1].asset_amount_usd_spec(custodies[k - 1].assets.owned, custodies[k - 1].decimals) {
                Err(e) => Err(e),
                Ok(v) => u128_result(acc + v),
            },
        }
    }
}

/// `equity` after netting the PnL of one market aggregate, given the
/// difference `diff` between exit and entry prices: when the traders are in
/// profit the pool loses that PnL at size, capped by the value locked for it,
/// and the equity saturates at zero; otherwise the pool gains the traders'
/// loss at size, capped by their collateral's value.
pub open spec fn settle_spec(
    equity: u128,
    traders_profit: bool,
    diff: OraclePrice,
    position: Position,
    collateral: CustodyDetails,
) -> Result<u128, CompError> {
    match diff.asset_amount_usd_spec(position.size_amount, position.size_decimals) {
        Err(e) => Err(e),
        Ok(pnl) => if traders_profit {
            match collateral.min_price.asset_amount_usd_spec(position.locked_amount, position.locked_decimals) {
                Err(e) => Err(e),
                Ok(cap) => {
                    let owed = if pnl < cap { pnl } else { cap };
                    Ok(if equity < owed { 0 } else { (equity - owed) as u128 })
                },
            }
        } else {
            match collateral.min_price.asset_amount_usd_spec(position.collateral_amount, position.collateral_decimals) {
                Err(e) => Err(e),
                Ok(cap) => u128_result(equity + if pnl < cap { pnl } else { cap }),
            }
        },
    }
}

/// `equity` after netting the unrealized PnL of `market`'s aggregate position.
/// Shorts exit at the max price plus the max spread, rounded up, and profit
/// when that is below entry; longs exit at the min price less the min spread,
/// floored at zero, and profit when that is above entry.
pub open spec fn market_pnl_spec(equity: u128, market: Market, details: Seq<CustodyDetails>) -> Result<u128, CompError> {
    if market.target_custody_id >= details.len() || market.collateral_custody_id >= details.len() {
        Err(CompError::AccountMismatch)
    } else {
        let target = details[market.target_custody_id as int];
        let collateral = details[market.collateral_custody_id as int];
        let position = market.collective_spec();
        let entry = position.entry_price;
        if market.side == Side::Short {
            match spread_price_spec(target.min_price, target.max_price, Side::Long, target.trade_spread_max) {
                Err(e) => Err(e),
                Ok(exit) => {
                    let profit = exit.cmp_spec(entry) == Some(Ordering::Less);
                    match if profit { entry.sub_spec(exit) } else { exit.sub_spec(entry) } {
                        Err(e) => Err(e),
                        Ok(diff) => settle_spec(equity, profit, diff, position, collateral),
                    }
                },
            }
        } else {
            match spread_price_spec(target.min_price, target.max_price, Side::Short, target.trade_spread_min) {
                Err(e) => Err(e),
                Ok(exit) => {
                    let profit = exit.cmp_spec(entry) == Some(Ordering::Greater);
                    match if profit { exit.sub_spec(entry) } else { entry.sub_spec(exit) } {
                        Err(e) => Err(e),
                        Ok(diff) => settle_spec(equity, profit, diff, position, collateral),
                    }
                },
            }
        }
    }
}

/// `raw` after netting the first `k` markets in order.
pub open spec fn equity_spec(raw: u128, markets: Seq<Market>, details: Seq<CustodyDetails>, k: nat) -> Result<u128, CompError>
    decreases k,
{
    if k == 0 {
        Ok(raw)
    } else {
        match equity_spec(raw, markets, details, (k - 1) as nat) {
            Err(e) => Err(e),
            Ok(acc) => market_pnl_spec(acc, markets[k - 1], details),
        }
    }
}

/// The two share prices for `equity`: equity over LP supply, and that times
/// the compounding factor (active compounding amount over compounding supply).
pub open spec fn share_prices_spec(equity: u128, lp_supply: u64, pool: Pool) -> Result<(u64, u64), CompError> {
    let usd = -(USD_DECIMALS as i32);
    let lp = -(LP_DECIMALS as i32);
    match u64_result(equity as int) {
        Err(e) => Err(e),
        Ok(eq) => match decimal_div_spec(eq, usd as i32, lp_supply, lp as i32, usd as i32) {
            Err(e) => Err(e),
            Ok(sflp) => match decimal_div_spec(pool.compounding_stats.active_amount, lp as i32,
                pool.compounding_stats.total_supply, lp as i32, lp as i32) {
                Err(e) => Err(e),
                Ok(factor) => match decimal_mul_spec(sflp, usd as i32, factor, lp as i32, usd as i32, false) {
                    Err(e) => Err(e),
                    Ok(flp) => Ok((sflp, flp)),
                },
            },
        },
    }
}

/// The pool's share prices: its custodies (the first `pool.custodies.len()`
/// records, each with its oracle price) valued and summed, then the PnL of its
/// markets (the first `pool.markets.len()` records) netted in order.
pub open spec fn pool_token_prices_spec(
    pool: Pool,
    custodies: Seq<Custody>,
    prices: Seq<OraclePrice>,
    markets: Seq<Market>,
    lp_supply: u64,
) -> Result<(u64, u64), CompError> {
    let n = pool.custodies@.len();
    let m = pool.markets@.len();
    if custodies.len() < n || prices.len() < n || markets.len() < m {
        Err(CompError::MissingAccount)
    } else {
        let details = Seq::new(n, |i: int| custody_details_spec(custodies[i], prices[i]));
        match raw_aum_spec(custodies, prices, n) {
            Err(e) => Err(e),
            Ok(raw) => match equity_spec(raw, markets, details, m) {
                Err(e) => Err(e),
                Ok(equity) => share_prices_spec(equity, lp_supply, pool),
            },
        }
    }
}

pub proof fn lemma_raw_aum_error_stays(custodies: Seq<Custody>, prices: Seq<OraclePrice>, k: nat, l: nat)
    requires
        k <= l,
        raw_aum_spec(custodies, prices, k) is Err,
    ensures
        raw_aum_spec(custodies, prices, l) == raw_aum_spec(custodies, prices, k),
    decreases l,
{
    if k < l {
        lemma_raw_aum_error_stays(custodies, prices, k, (l - 1) as nat);
    }
}

pub proof fn lemma_equity_error_stays(raw: u128, markets: Seq<Market>, details: Seq<CustodyDetails>, k: nat, l: nat)
    requires
        k <= l,
        equity_spec(raw, markets, details, k) is Err,
    ensures
        equity_spec(raw, markets, details, l) == equity_spec(raw, markets, details, k),
    decreases l,
{
    if k < l {
        lemma_equity_error_stays(raw, markets, details, k, (l - 1) as nat);
    }
}

fn settle_market_pnl(
    equity: u128,
    traders_profit: bool,
    diff: &OraclePrice,
    position: &Position,
    collateral: &CustodyDetails,
) -> (r: Result<u128, CompError>)
    ensures
        r == settle_spec(equity, traders_profit, *diff, *position, *collateral),
{
    let pnl = diff.get_asset_amount_usd(position.size_amount, position.size_decimals)? as u128;
    if traders_profit {
        let cap = collateral.min_price.get_asset_amount_usd(position.locked_amount, position.locked_decimals)? as u128;
        Ok(equity.saturating_sub(if pnl < cap { pnl } else { cap }))
    } else {
        // A gain past 128 bits is reported rather than clamped: only the
        // owed side has a natural floor.
        let cap = collateral.min_price.get_asset_amount_usd(position.collateral_amount, position.collateral_decimals)? as u128;
        checked_add_u128(equity, if pnl < cap { pnl } else { cap })
    }
}

fn apply_market_pnl(pool: &Pool, equity: u128, market: &Market, details: &Vec<CustodyDetails>) -> (r: Result<u128, CompError>)
    ensures
        r == market_pnl_spec(equity, *market, details@),
{
    if market.target_custody_id >= details.len() || market.collateral_custody_id >= details.len() {
        return Err(CompError::AccountMismatch);
    }
    let target = &details[market.target_custody_id];
    let collateral = &details[market.collateral_custody_id];
    let position = market.get_collective_position()?;
    if market.side == Side::Short {
        let exit_price = pool.get_exit_price(&target.min_price, &target.max_price, Side::Short, target.trade_spread_max)?;
        if exit_price < position.entry_price {
            let diff = position.entry_price.checked_sub(&exit_price)?;
            settle_market_pnl(equity, true, &diff, &position, collateral)
        } else {
            let diff = exit_price.checked_sub(&position.entry_price)?;
            settle_market_pnl(equity, false, &diff, &position, collateral)
        }
    } else {
        let exit_price = pool.get_exit_price(&target.min_price, &target.max_price, Side::Long, target.trade_spread_min)?;
        if exit_price > position.entry_price {
            let diff = exit_price.checked_sub(&position.entry_price)?;
            settle_market_pnl(equity, true, &diff, &position, collateral)
        } else {
            let diff = position.entry_price.checked_sub(&exit_price)?;
            settle_market_pnl(equity, false, &diff, &position, collateral)
        }
    }
}

/// The pool's share-token prices `(share_price_usd, compounding_share_price)`,
/// both with `USD_DECIMALS` decimals. `custodies` and `custody_prices` hold the
/// pool's custody records in the order of `pool.custodies`, `markets` its
/// market records in the order of `pool.markets`; `lp_supply` is the share
/// token's supply.
pub fn get_pool_token_prices(
    pool: &Pool,
    custodies: &Vec<Custody>,
    custody_prices: &Vec<OraclePrice>,
    markets: &Vec<Market>,
    lp_supply: u64,
) -> (r: Result<(u64, u64), CompError>)
    ensures
        r == pool_token_prices_spec(*pool, custodies@, custody_prices@, markets@, lp_supply),
{
    let n = pool.custodies.len();
    let m = pool.markets.len();
    if custodies.len() < n || custody_prices.len() < n || markets.len() < m {
        return Err(CompError::MissingAccount);
    }
    let ghost all_details = Seq::new(n as nat, |i: int| custody_details_spec(custodies@[i], custody_prices@[i]));
    let mut custody_details: Vec<CustodyDetails> = Vec::new();
    let mut pool_equity: u128 = 0;

    // The raw value of the pool's assets.
    let mut idx: usize = 0;
    while idx < n
        invariant
            n == pool.custodies@.len(),
            idx <= n <= custodies@.len(),
            n <= custody_prices@.len(),
            pool.markets@.len() <= markets@.len(),
            all_details == Seq::new(n as nat, |i: int| custody_details_spec(custodies@[i], custody_prices@[i])),
            raw_aum_spec(custodies@, custody_prices@, idx as nat) == Ok::<u128, CompError>(pool_equity),
            custody_details@ == all_details.take(idx as int),
        decreases n - idx,
    {
        let custody = &custodies[idx];
        let price = custody_prices[idx];
        custody_details.push(CustodyDetails {
            trade_spread_min: custody.pricing.trade_spread_min,
            trade_spread_max: custody.pricing.trade_spread_max,
            delay_seconds: custody.pricing.delay_seconds,
            min_price: price,
            max_price: price,
        });
        assert(raw_aum_spec(custodies@, custody_prices@, (idx + 1) as nat) == match raw_aum_spec(custodies@, custody_prices@, idx as nat) {
            Err(e) => Err(e),
            Ok(acc) => match custody_prices@[idx as int].asset_amount_usd_spec(custodies@[idx as int].assets.owned, custodies@[idx as int].decimals) {
                Err(e) => Err(e),
                Ok(v) => u128_result(acc + v),
            },
        });
        let token_amount_usd = match price.get_asset_amount_usd(custody.assets.owned, custody.decimals) {
            Ok(v) => v,
            Err(e) => {
                proof {
                    lemma_raw_aum_error_stays(custodies@, custody_prices@, (idx + 1) as nat, n as nat);
                }
                return Err(e);
            },
        };
        pool_equity = match checked_add_u128(pool_equity, token_amount_usd as u128) {
            Ok(v) => v,
            Err(e) => {
                proof {
                    lemma_raw_aum_error_stays(custodies@, custody_prices@, (idx + 1) as nat, n as nat);
                }
                return Err(e);
            },
        };
        idx = idx + 1;
        assert(custody_details@ =~= all_details.take(idx as int));
    }
    assert(custody_details@ =~= all_details);
    let ghost raw = pool_equity;

    // The unrealized PnL of the pool's markets.
    let mut j: usize = 0;
    while j < m
        invariant
            m == pool.markets@.len(),
            j <= m <= markets@.len(),
            n == pool.custodies@.len(),
            n <= custodies@.len(),
            n <= custody_prices@.len(),
            all_details == Seq::new(n as nat, |i: int| custody_details_spec(custodies@[i], custody_prices@[i])),
            raw_aum_spec(custodies@, custody_prices@, n as nat) == Ok::<u128, CompError>(raw),
            custody_details@ == all_details,
            equity_spec(raw, markets@, all_details, j as nat) == Ok::<u128, CompError>(pool_equity),
        decreases m - j,
    {
        assert(equity_spec(raw, markets@, all_details, (j + 1) as nat) == match equity_spec(raw, markets@, all_details, j as nat) {
            Err(e) => Err(e),
            Ok(acc) => market_pnl_spec(acc, markets@[j as int], all_details),
        });
        pool_equity = match apply_market_pnl(pool, pool_equity, &markets[j], &custody_details) {
            Ok(v) => v,
            Err(e) => {
                proof {
                    lemma_equity_error_stays(raw, markets@, all_details, (j + 1) as nat, m as nat);
                }
                return Err(e);
            },
        };
        j = j + 1;
    }

    let sflp_price_usd = checked_decimal_div(
        checked_as_u64(pool_equity)?,
        -(USD_DECIMALS as i32),
        lp_supply,
        -(LP_DECIMALS as i32),
        -(USD_DECIMALS as i32),
    )?;
    let compounding_factor = checked_decimal_div(
        pool.compounding_stats.active_amount,
        -(LP_DECIMALS as i32),
        pool.compounding_stats.total_supply,
        -(LP_DECIMALS as i32),
        -(LP_DECIMALS as i32),
    )?;
    let flp_price = checked_decimal_mul(
        sflp_price_usd,
        -(USD_DECIMALS as i32),
        compounding_factor,
        -(LP_DECIMALS as i32),
        -(USD_DECIMALS as i32),
    )?;
    Ok((sflp_price_usd, flp_price))
}

/// What a position owes: the closing fee on its size, the lock fee accrued
/// on the collateral custody at `curtime`, its unsettled fees, and the
/// liability implied by the target custody's maximum leverage
/// (`size_usd * BPS_POWER / max_leverage`), summed in 64 bits.
pub open spec fn liabilities_spec(
    position: Position,
    target_custody: Custody,
    collateral_custody: Custody,
    curtime: i64,
) -> Result<u64, CompError> {
    match fee_amount_spec(position.size_usd, target_custody.fees.close_position) {
        Err(e) => Err(e),
        Ok(close_fee) => match collateral_custody.lock_fee_spec(position, curtime) {
            Err(e) => Err(e),
            Ok(lock_fee) => match u64_result(close_fee + lock_fee) {
                Err(e) => Err(e),
                Ok(fees) => if target_custody.pricing.max_leverage == 0 {
                    Err(CompError::MathOverflow)
                } else {
                    match u64_result(position.size_usd * BPS_POWER / (target_custody.pricing.max_leverage as int)) {
                        Err(e) => Err(e),
                        Ok(leverage) => match u64_result(position.unsettled_fees_usd + leverage) {
                            Err(e) => Err(e),
                            Ok(rest) => u64_result(fees + rest),
                        },
                    }
                },
            },
        },
    }
}

/// `usd * 10^(size_decimals + 3) / amount`: a USD amount per unit of a token
/// with `size_decimals` decimals, as a mantissa at `-RATE_DECIMALS`.
pub open spec fn rate_price_spec(usd: u64, size_decimals: u8, amount: u64) -> Result<u64, CompError> {
    let scale = pow10((size_decimals + 3) as nat);
    if size_decimals + 3 > 38 || usd * scale > u128::MAX || amount == 0 {
        Err(CompError::MathOverflow)
    } else {
        u64_result(usd * scale / (amount as int))
    }
}

/// The oracle price at which `position` becomes exactly insolvent, at the
/// exponent of its entry price.
///
/// On a correlated long market, assets and liabilities are both in the
/// target token: the price is `(size_usd + liabilities) / (size_amount + collateral_amount)`.
/// Otherwise the collateral is valued at `collateral_price`, and the entry
/// price moves by the gap between assets and liabilities per unit of size:
/// against the position (down for longs, up otherwise) when assets cover the
/// liabilities, in its favour when they do not, saturating at the ends of `u64`.
pub open spec fn liquidation_price_spec(
    position: Position,
    market: Market,
    target_custody: Custody,
    collateral_custody: Custody,
    collateral_price: OraclePrice,
    curtime: i64,
) -> Result<OraclePrice, CompError> {
    let rate_exponent = -(RATE_DECIMALS as i32);
    match liabilities_spec(position, target_custody, collateral_custody, curtime) {
        Err(e) => Err(e),
        Ok(liabilities) => if market.correlation && market.side == Side::Long {
            match u64_result(position.size_usd + liabilities) {
                Err(e) => Err(e),
                Ok(value) => match u64_result(position.size_amount + position.collateral_amount) {
                    Err(e) => Err(e),
                    Ok(amount) => match rate_price_spec(value, position.size_decimals, amount) {
                        Err(e) => Err(e),
                        Ok(p) => OraclePrice { price: p, exponent: rate_exponent as i32 }.scale_spec(
                            position.entry_price.exponent),
                    },
                },
            }
        } else {
            match collateral_price.asset_amount_usd_spec(position.collateral_amount, position.collateral_decimals) {
                Err(e) => Err(e),
                Ok(assets) => {
                    let solvent = assets >= liabilities;
                    let gap = if solvent { (assets - liabilities) as u64 } else { (liabilities - assets) as u64 };
                    match rate_price_spec(gap, position.size_decimals, position.size_amount) {
                        Err(e) => Err(e),
                        Ok(p) => match (OraclePrice { price: p, exponent: rate_exponent as i32 }).scale_spec(
                            position.entry_price.exponent) {
                            Err(e) => Err(e),
                            Ok(delta) => {
                                let up = if solvent { market.side != Side::Long } else { market.side == Side::Long };
                                let entry = position.entry_price.price;
                                Ok(OraclePrice {
                                    price: if up {
                                        if entry + delta.price > u64::MAX { u64::MAX } else { (entry + delta.price) as u64 }
                                    } else {
                                        if entry < delta.price { 0 } else { (entry - delta.price) as u64 }
                                    },
                                    exponent: delta.exponent,
                                })
                            },
                        }
                    }
                },
            }
        },
    }
}

fn usd_to_rate_price(usd: u64, size_decimals: u8, amount: u64) -> (r: Result<u64, CompError>)
    ensures
        r == rate_price_spec(usd, size_decimals, amount),
{
    let exp = size_decimals as usize + 3;
    let scale = match checked_pow10_u128(exp) {
        Ok(s) => s,
        Err(e) => {
            proof {
                lemma_pow10_fits(exp as nat);
            }
            return Err(e);
        },
    };
    proof {
        lemma_pow10_fits(exp as nat);
    }
    checked_as_u64(checked_div_u128(checked_mul_u128(usd as u128, scale)?, amount as u128)?)
}

/// The oracle price at which `position` on `market` becomes exactly
/// insolvent, given the collateral's current price and the time `curtime`.
pub fn get_liquidation_price(
    pool: &Pool,
    position: &Position,
    market: &Market,
    target_custody: &Custody,
    collateral_custody: &Custody,
    collateral_price: &OraclePrice,
    curtime: i64,
) -> (r: Result<OraclePrice, CompError>)
    ensures
        r == liquidation_price_spec(*position, *market, *target_custody, *collateral_custody, *collateral_price, curtime),
{
    proof {
        lemma_mul_u64_fits_u128(position.size_usd, 10000);
    }
    let liabilities_usd = checked_add_u64(
        checked_add_u64(
            pool.get_fee_amount(position.size_usd, target_custody.fees.close_position)?,
            collateral_custody.get_lock_fee_usd(position, curtime)?,
        )?,
        checked_add_u64(
            position.unsettled_fees_usd,
            checked_as_u64(checked_div_u128(
                checked_mul_u128(position.size_usd as u128, BPS_POWER)?,
                target_custody.pricing.max_leverage as u128,
            )?)?,
        )?,
    )?;

    if market.correlation && market.side == Side::Long {
        // Assets and liabilities are both in the target token.
        let liq_price = OraclePrice::new(
            usd_to_rate_price(
                checked_add_u64(position.size_usd, liabilities_usd)?,
                position.size_decimals,
                checked_add_u64(position.size_amount, position.collateral_amount)?,
            )?,
            -(RATE_DECIMALS as i32),
        );
        liq_price.scale_to_exponent(position.entry_price.exponent)
    } else {
        // The collateral is valued at its own price, taken as constant.
        let assets_usd = collateral_price.get_asset_amount_usd(position.collateral_amount, position.collateral_decimals)?;
        if assets_usd >= liabilities_usd {
            // Nominally solvent: liquidated after a loss.
            let mut price_diff_loss = OraclePrice::new(
                usd_to_rate_price(
                    checked_sub_u64(assets_usd, liabilities_usd)?,
                    position.size_decimals,
                    position.size_amount,
                )?,
                -(RATE_DECIMALS as i32),
            ).scale_to_exponent(position.entry_price.exponent)?;
            if market.side == Side::Long {
                price_diff_loss.price = position.entry_price.price.saturating_sub(price_diff_loss.price);
            } else {
                price_diff_loss.price = position.entry_price.price.saturating_add(price_diff_loss.price);
            }
            Ok(price_diff_loss)
        } else {
            // Nominally insolvent: liquidated unless a profit covers the liabilities.
            let mut price_diff_profit = OraclePrice::new(
                usd_to_rate_price(
                    checked_sub_u64(liabilities_usd, assets_usd)?,
                    position.size_decimals,
                    position.size_amount,
                )?,
                -(RATE_DECIMALS as i32),
            ).scale_to_exponent(position.entry_price.exponent)?;
            if market.side == Side::Long {
                price_diff_profit.price = position.entry_price.price.saturating_add(price_diff_profit.price);
            } else {
                price_diff_profit.price = position.entry_price.price.saturating_sub(price_diff_profit.price);
            }
            Ok(price_diff_profit)
        }
    }
}

} // verus!
