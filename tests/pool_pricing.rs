use flash_compute::accounts::check_pool_accounts;
use flash_compute::compute::{get_liquidation_price, get_pool_token_prices};
use flash_compute::error::CompError;
use flash_compute::oracle::OracleParams;
use flash_compute::price::OraclePrice;
use flash_compute::pubkey::Pubkey;
use flash_compute::states::{
    Assets, CompoundingStats, Custody, Fees, Market, Pool, Position, PositionStats, PricingParams, Side,
};

const ONE_DOLLAR: OraclePrice = OraclePrice { price: 100_000_000, exponent: -8 };

fn pool(n_custodies: usize, n_markets: usize, active: u64, total: u64) -> Pool {
    Pool {
        custodies: vec![Pubkey::default(); n_custodies],
        markets: vec![Pubkey::default(); n_markets],
        compounding_stats: CompoundingStats { active_amount: active, total_supply: total, ..Default::default() },
        ..Default::default()
    }
}

fn custody_owning(owned: u64) -> Custody {
    Custody { decimals: 6, assets: Assets { owned, ..Default::default() }, ..Default::default() }
}

fn market(side: Side, entry: OraclePrice, size_amount: u64, locked_amount: u64, collateral_amount: u64) -> Market {
    Market {
        side,
        collective_position: PositionStats {
            open_positions: 1,
            average_entry_price: entry,
            size_amount,
            locked_amount,
            collateral_amount,
            size_decimals: 6,
            locked_decimals: 6,
            collateral_decimals: 6,
            ..Default::default()
        },
        target_custody_id: 0,
        collateral_custody_id: 0,
        ..Default::default()
    }
}

#[test]
fn share_price_of_assets_alone() {
    // 3 tokens at $2 over a supply of 2 shares
    let p = pool(1, 0, 1_000_000, 1_000_000);
    let r = get_pool_token_prices(&p, &vec![custody_owning(3_000_000)], &vec![OraclePrice::new(200_000_000, -8)], &vec![], 2_000_000);
    assert_eq!(r, Ok((3_000_000, 3_000_000)));
}

#[test]
fn equity_saturates_at_zero_under_profitable_shorts() {
    // $1 of assets; shorts entered at $2 with 10 tokens, now $1: they are owed $10
    let p = pool(1, 1, 1_000_000, 1_000_000);
    let m = market(Side::Short, OraclePrice::new(200_000_000, -8), 10_000_000, 10_000_000, 0);
    let r = get_pool_token_prices(&p, &vec![custody_owning(1_000_000)], &vec![ONE_DOLLAR], &vec![m], 1_000_000);
    assert_eq!(r, Ok((0, 0)));
}

#[test]
fn profitable_shorts_are_capped_by_locked_value() {
    // $100 of assets; shorts are owed $10 but only 4 tokens ($4) are locked for them
    let p = pool(1, 1, 1_000_000, 1_000_000);
    let m = market(Side::Short, OraclePrice::new(200_000_000, -8), 10_000_000, 4_000_000, 0);
    let r = get_pool_token_prices(&p, &vec![custody_owning(100_000_000)], &vec![ONE_DOLLAR], &vec![m], 100_000_000);
    assert_eq!(r, Ok((960_000, 960_000)));
}

#[test]
fn losing_longs_add_their_capped_loss() {
    // $1 of assets; longs entered at $2 with 1 token and posted 0.5 tokens
    let p = pool(1, 1, 2_000_000, 1_000_000);
    let m = market(Side::Long, OraclePrice::new(200_000_000, -8), 1_000_000, 0, 500_000);
    let r = get_pool_token_prices(&p, &vec![custody_owning(1_000_000)], &vec![ONE_DOLLAR], &vec![m], 1_000_000);
    assert_eq!(r, Ok((1_500_000, 3_000_000)));
}

#[test]
fn spread_worsens_the_short_exit() {
    // shorts at $1 with 1 token; the exit is $1 plus 1% of it: they lose $0.01
    let mut target = custody_owning(1_000_000);
    target.pricing = PricingParams { trade_spread_max: 10_000, ..Default::default() };
    let p = pool(1, 1, 1_000_000, 1_000_000);
    let m = market(Side::Short, ONE_DOLLAR, 1_000_000, 0, 1_000_000);
    let r = get_pool_token_prices(&p, &vec![target], &vec![ONE_DOLLAR], &vec![m], 1_000_000);
    assert_eq!(r, Ok((1_010_000, 1_010_000)));
}

#[test]
fn missing_records_are_reported() {
    let p = pool(2, 0, 1, 1);
    let r = get_pool_token_prices(&p, &vec![custody_owning(1)], &vec![ONE_DOLLAR, ONE_DOLLAR], &vec![], 1);
    assert_eq!(r, Err(CompError::MissingAccount));
    let q = pool(1, 1, 1, 1);
    let r = get_pool_token_prices(&q, &vec![custody_owning(1)], &vec![ONE_DOLLAR], &vec![], 1);
    assert_eq!(r, Err(CompError::MissingAccount));
}

#[test]
fn market_referring_past_the_custodies_is_a_mismatch() {
    let p = pool(1, 1, 1, 1);
    let mut m = market(Side::Long, ONE_DOLLAR, 1, 0, 0);
    m.collateral_custody_id = 3;
    let r = get_pool_token_prices(&p, &vec![custody_owning(1)], &vec![ONE_DOLLAR], &vec![m], 1);
    assert_eq!(r, Err(CompError::AccountMismatch));
}

#[test]
fn zero_share_supply_is_an_error() {
    let p = pool(1, 0, 1, 1);
    let r = get_pool_token_prices(&p, &vec![custody_owning(1_000_000)], &vec![ONE_DOLLAR], &vec![], 0);
    assert_eq!(r, Err(CompError::MathOverflow));
    let q = pool(1, 0, 1, 0);
    let r = get_pool_token_prices(&q, &vec![custody_owning(1_000_000)], &vec![ONE_DOLLAR], &vec![], 1);
    assert_eq!(r, Err(CompError::MathOverflow));
}

#[test]
fn account_layout_is_checked() {
    let key = |b: u8| Pubkey::new([b; 32]);
    let mut p = pool(1, 1, 0, 0);
    p.custodies = vec![key(1)];
    p.markets = vec![key(3)];
    let custody = Custody { oracle: OracleParams { ext_oracle_account: key(2), ..Default::default() }, ..Default::default() };
    let custodies = vec![custody];
    assert_eq!(check_pool_accounts(&p, &custodies, &vec![key(1), key(2), key(3)]), Ok(()));
    assert_eq!(check_pool_accounts(&p, &custodies, &vec![key(1), key(2), key(3), key(9)]), Ok(()));
    assert_eq!(check_pool_accounts(&p, &custodies, &vec![key(1), key(2)]), Err(CompError::MissingAccount));
    assert_eq!(check_pool_accounts(&p, &vec![], &vec![key(1), key(2), key(3)]), Err(CompError::MissingAccount));
    assert_eq!(check_pool_accounts(&p, &custodies, &vec![key(1), key(4), key(3)]), Err(CompError::AccountMismatch));
    assert_eq!(check_pool_accounts(&p, &custodies, &vec![key(2), key(2), key(3)]), Err(CompError::AccountMismatch));
    assert_eq!(check_pool_accounts(&p, &custodies, &vec![key(1), key(2), key(1)]), Err(CompError::AccountMismatch));
}

fn target_custody(max_leverage: u64, close_position: u64) -> Custody {
    Custody {
        pricing: PricingParams { max_leverage, ..Default::default() },
        fees: Fees { close_position, ..Default::default() },
        ..Default::default()
    }
}

fn position(size_usd: u64, size_amount: u64, collateral_amount: u64, entry: OraclePrice) -> Position {
    Position {
        size_usd,
        size_amount,
        collateral_amount,
        entry_price: entry,
        size_decimals: 6,
        collateral_decimals: 6,
        ..Default::default()
    }
}

#[test]
fn correlated_long_liquidation_price() {
    // $1000 of size, $50 of liabilities (the 20x leverage bound), 500 + 500 tokens
    let pos = position(1_000_000_000, 500_000_000, 500_000_000, OraclePrice::new(200_000_000, -8));
    let m = Market { side: Side::Long, correlation: true, ..Default::default() };
    let r = get_liquidation_price(&Pool::default(), &pos, &m, &target_custody(200_000, 0), &Custody::default(), &ONE_DOLLAR, 0);
    // (1_050_000000 * 10^9) / 1_000_000000 at exponent -9, rescaled to -8
    assert_eq!(r, Ok(OraclePrice::new(105_000_000, -8)));
}

#[test]
fn solvent_positions_liquidate_after_a_loss() {
    // $100 of collateral, $10 of liabilities, 10 tokens of size entered at $100
    let entry = OraclePrice::new(10_000_000_000, -8);
    let pos = position(1_000_000_000, 10_000_000, 100_000_000, entry);
    let long = Market { side: Side::Long, ..Default::default() };
    let short = Market { side: Side::Short, ..Default::default() };
    let target = target_custody(1_000_000, 0);
    let collateral_price = OraclePrice::new(1_000_000_000, -9);
    let r = get_liquidation_price(&Pool::default(), &pos, &long, &target, &Custody::default(), &collateral_price, 0);
    assert_eq!(r, Ok(OraclePrice::new(9_100_000_000, -8)));
    let r = get_liquidation_price(&Pool::default(), &pos, &short, &target, &Custody::default(), &collateral_price, 0);
    assert_eq!(r, Ok(OraclePrice::new(10_900_000_000, -8)));
}

#[test]
fn insolvent_positions_need_a_profit() {
    // $5 of collateral against $10 of liabilities
    let entry = OraclePrice::new(10_000_000_000, -8);
    let pos = position(1_000_000_000, 10_000_000, 5_000_000, entry);
    let long = Market { side: Side::Long, ..Default::default() };
    let short = Market { side: Side::Short, ..Default::default() };
    let target = target_custody(1_000_000, 0);
    let collateral_price = OraclePrice::new(1_000_000_000, -9);
    let r = get_liquidation_price(&Pool::default(), &pos, &long, &target, &Custody::default(), &collateral_price, 0);
    assert_eq!(r, Ok(OraclePrice::new(10_050_000_000, -8)));
    let r = get_liquidation_price(&Pool::default(), &pos, &short, &target, &Custody::default(), &collateral_price, 0);
    assert_eq!(r, Ok(OraclePrice::new(9_950_000_000, -8)));
}

#[test]
fn liquidation_price_saturates() {
    // a loss far beyond the entry price floors at zero for a long
    let entry = OraclePrice::new(1, -8);
    let pos = position(1_000_000_000, 10_000_000, 100_000_000, entry);
    let long = Market { side: Side::Long, ..Default::default() };
    let target = target_custody(1_000_000, 0);
    let collateral_price = OraclePrice::new(1_000_000_000, -9);
    let r = get_liquidation_price(&Pool::default(), &pos, &long, &target, &Custody::default(), &collateral_price, 0);
    assert_eq!(r, Ok(OraclePrice::new(0, -8)));
    let top = position(1_000_000_000, 10_000_000, 100_000_000, OraclePrice::new(u64::MAX - 1, -8));
    let short = Market { side: Side::Short, ..Default::default() };
    let r = get_liquidation_price(&Pool::default(), &top, &short, &target, &Custody::default(), &collateral_price, 0);
    assert_eq!(r, Ok(OraclePrice::new(u64::MAX, -8)));
}

#[test]
fn liabilities_include_fees() {
    // close fee 0.1% of $1000 = $1, leverage bound $10, unsettled $2, lock fee $1
    let entry = OraclePrice::new(10_000_000_000, -8);
    let mut pos = position(1_000_000_000, 10_000_000, 100_000_000, entry);
    pos.unsettled_fees_usd = 2_000_000;
    pos.locked_usd = 1_000_000_000;
    let collateral = Custody {
        borrow_rate_state: flash_compute::states::BorrowRateState { current_rate: 1_000_000, cumulative_lock_fee: 0, last_update: 0 },
        ..Default::default()
    };
    let long = Market { side: Side::Long, ..Default::default() };
    let target = target_custody(1_000_000, 1_000_000);
    let collateral_price = OraclePrice::new(1_000_000_000, -9);
    // assets $100 - liabilities $14 = $86 over 10 tokens
    let r = get_liquidation_price(&Pool::default(), &pos, &long, &target, &collateral, &collateral_price, 3_600);
    assert_eq!(r, Ok(OraclePrice::new(10_000_000_000 - 860_000_000, -8)));
}

#[test]
fn liquidation_errors() {
    let entry = OraclePrice::new(10_000_000_000, -8);
    let pos = position(1_000_000_000, 0, 100_000_000, entry);
    let long = Market { side: Side::Long, ..Default::default() };
    let collateral_price = OraclePrice::new(1_000_000_000, -9);
    // no leverage bound
    let r = get_liquidation_price(&Pool::default(), &pos, &long, &target_custody(0, 0), &Custody::default(), &collateral_price, 0);
    assert_eq!(r, Err(CompError::MathOverflow));
    // no size to spread the gap over
    let r = get_liquidation_price(&Pool::default(), &pos, &long, &target_custody(1_000_000, 0), &Custody::default(), &collateral_price, 0);
    assert_eq!(r, Err(CompError::MathOverflow));
}
