use flash_compute::error::CompError;
use flash_compute::oracle::{CustomOracle, OracleParams, OracleType};
use flash_compute::price::OraclePrice;

fn params(max_divergence_bps: u64, max_conf_bps: u64) -> OracleParams {
    OracleParams {
        max_divergence_bps,
        max_conf_bps,
        max_price_age_sec: 60,
        oracle_type: OracleType::Custom,
        ..Default::default()
    }
}

fn reading(price: u64, ema: u64, conf: u64) -> CustomOracle {
    CustomOracle { price, expo: -8, conf, ema, publish_time: 1_000 }
}

#[test]
fn zero_divergence_keeps_the_price() {
    let oracle = reading(100_000_000, 100_000_000, 0);
    let p = OraclePrice::new(100_000_000, -8);
    assert_eq!(OraclePrice::fetch_from_oracle(&oracle, &params(100, 50), 1_010, false), Ok((p, p, false)));
}

#[test]
fn wide_divergence_tight_confidence_widens_the_band() {
    // 5% above the moving average; confidence is 10 bps of the price
    let oracle = reading(105_000_000, 100_000_000, 105_000);
    assert_eq!(
        OraclePrice::fetch_from_oracle(&oracle, &params(100, 50), 1_010, false),
        Ok((OraclePrice::new(104_895_000, -8), OraclePrice::new(105_105_000, -8), true))
    );
}

#[test]
fn wide_divergence_wide_confidence_is_rejected() {
    // confidence is 100 bps of the price
    let oracle = reading(105_000_000, 100_000_000, 1_050_000);
    assert_eq!(
        OraclePrice::fetch_from_oracle(&oracle, &params(100, 50), 1_010, false),
        Err(CompError::InvalidOraclePrice)
    );
}

#[test]
fn divergence_below_the_bound_is_accepted() {
    // 4.99% below the average is 499 bps
    let oracle = reading(95_010_000, 100_000_000, 10_000_000);
    let p = OraclePrice::new(95_010_000, -8);
    assert_eq!(OraclePrice::fetch_from_oracle(&oracle, &params(500, 50), 1_000, false), Ok((p, p, false)));
    assert_eq!(
        OraclePrice::fetch_from_oracle(&oracle, &params(499, 50), 1_000, false),
        Err(CompError::InvalidOraclePrice)
    );
}

#[test]
fn stale_reading_is_rejected() {
    let oracle = reading(100_000_000, 100_000_000, 0);
    assert_eq!(
        OraclePrice::fetch_from_oracle(&oracle, &params(100, 50), 1_061, false),
        Err(CompError::InvalidOraclePrice)
    );
    assert!(OraclePrice::fetch_from_oracle(&oracle, &params(100, 50), 1_060, false).is_ok());
}

#[test]
fn stable_asset_is_held_against_one_dollar() {
    // the moving average is ignored for a stable asset
    let oracle = reading(100_000_000, 50_000_000, 0);
    let p = OraclePrice::new(100_000_000, -8);
    assert_eq!(OraclePrice::fetch_from_oracle(&oracle, &params(100, 50), 1_000, true), Ok((p, p, false)));
    // 200 bps off the peg with no uncertainty: accepted as volatile
    let depegged = reading(98_000_000, 100_000_000, 0);
    let d = OraclePrice::new(98_000_000, -8);
    assert_eq!(OraclePrice::fetch_from_oracle(&depegged, &params(100, 50), 1_000, true), Ok((d, d, true)));
}

#[test]
fn zero_price_with_divergence_fails_on_arithmetic() {
    let oracle = reading(0, 100_000_000, 1);
    assert_eq!(
        OraclePrice::fetch_from_oracle(&oracle, &params(100, 50), 1_000, false),
        Err(CompError::MathOverflow)
    );
}

#[test]
fn default_oracle_type_is_custom() {
    assert_eq!(OracleType::default(), OracleType::Custom);
}
