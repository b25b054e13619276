use ticket_contract::keys::Identity;
use ticket_contract::oracle::{OracleAdapter, OracleStep, PriceQuote};
use ticket_contract::tier::PricingConfig;

fn admin() -> Identity {
    Identity::new(b"GADMIN".to_vec())
}

fn configured() -> PricingConfig {
    let mut config = PricingConfig::unconfigured(&admin(), 1_000);
    config.oracle_address = Identity::new(b"CORACLE".to_vec());
    config.dex_fallback_address = Identity::new(b"CDEX".to_vec());
    config
}

#[test]
fn unconfigured_oracle_is_neutral_without_asking() {
    let config = PricingConfig::unconfigured(&admin(), 1_000);
    assert_eq!(OracleAdapter::begin(&config, &admin()), OracleStep::Resolved(10_000));
    let quote = Some(PriceQuote { price: 110_000_000, observed_at: 1_000 });
    assert_eq!(OracleAdapter::multiplier(&config, &admin(), quote, Some(105_000_000), 1_000), 10_000);
    assert_eq!(OracleAdapter::multiplier(&config, &admin(), None, None, 1_000), 10_000);
}

#[test]
fn fresh_primary_reading_gives_the_multiplier() {
    let config = configured();
    assert_eq!(OracleAdapter::begin(&config, &admin()), OracleStep::QueryPrimary);
    let quote = Some(PriceQuote { price: 110_000_000, observed_at: 1_000 });
    assert_eq!(OracleAdapter::after_primary(&config, quote, 1_000), OracleStep::Resolved(11_000));
    assert_eq!(OracleAdapter::multiplier(&config, &admin(), quote, Some(105_000_000), 1_000), 11_000);
    assert_eq!(OracleAdapter::multiplier(&config, &admin(), quote, None, 1_000), 11_000);
    assert_eq!(OracleAdapter::multiplier_from_price(110_000_000, 100_000_000), Some(11_000));
    assert_eq!(OracleAdapter::multiplier_from_price(100_000_000, 100_000_000), Some(10_000));
    // truncation: 123456789 * 10000 / 100000000 = 12345.6789
    assert_eq!(OracleAdapter::multiplier_from_price(123_456_789, 100_000_000), Some(12_345));
    assert_eq!(OracleAdapter::multiplier_from_price(9_999, 100_000_000), Some(0));
    assert_eq!(OracleAdapter::multiplier_from_price(0, 100_000_000), Some(0));
}

#[test]
fn stale_primary_reading_falls_back() {
    let config = configured();
    let now = 1_000_000u64;
    let age = config.max_oracle_age_seconds;
    let at = |observed_at: u64| Some(PriceQuote { price: 110_000_000, observed_at });
    // exactly at the limit is still fresh
    assert_eq!(OracleAdapter::after_primary(&config, at(now - age), now), OracleStep::Resolved(11_000));
    assert_eq!(OracleAdapter::after_primary(&config, at(now - age - 1), now), OracleStep::QueryFallback);
    assert_eq!(OracleAdapter::after_primary(&config, at(0), now), OracleStep::QueryFallback);
    // a reading from the future is not stale
    assert_eq!(OracleAdapter::after_primary(&config, at(now + 5), now), OracleStep::Resolved(11_000));
    assert_eq!(OracleAdapter::after_primary(&config, at(u64::MAX), 0), OracleStep::Resolved(11_000));
    assert!(!OracleAdapter::reading_is_stale(10, 10, 0));
    assert!(OracleAdapter::reading_is_stale(10, 11, 0));
    assert!(!OracleAdapter::reading_is_stale(0, u64::MAX, u64::MAX));
    assert!(OracleAdapter::reading_is_stale(0, u64::MAX, u64::MAX - 1));

    assert_eq!(
        OracleAdapter::multiplier(&config, &admin(), at(now - age - 1), Some(105_000_000), now),
        10_500
    );
    assert_eq!(OracleAdapter::multiplier(&config, &admin(), at(now - age - 1), None, now), 10_000);
}

#[test]
fn unreachable_or_malformed_primary_falls_back() {
    let config = configured();
    assert_eq!(OracleAdapter::after_primary(&config, None, 5), OracleStep::QueryFallback);
    let negative = Some(PriceQuote { price: -1, observed_at: 5 });
    assert_eq!(OracleAdapter::after_primary(&config, negative, 5), OracleStep::QueryFallback);
    let huge = Some(PriceQuote { price: i128::MAX / 10_000 + 1, observed_at: 5 });
    assert_eq!(OracleAdapter::after_primary(&config, huge, 5), OracleStep::QueryFallback);
    let largest = i128::MAX / 10_000;
    let fits = Some(PriceQuote { price: largest, observed_at: 5 });
    assert_eq!(
        OracleAdapter::after_primary(&config, fits, 5),
        OracleStep::Resolved((largest * 10_000 / 100_000_000) as u128)
    );
    assert_eq!(OracleAdapter::multiplier(&config, &admin(), None, Some(105_000_000), 5), 10_500);
    assert_eq!(OracleAdapter::multiplier(&config, &admin(), negative, Some(95_000_000), 5), 9_500);
}

#[test]
fn both_feeds_down_is_neutral() {
    let config = configured();
    assert_eq!(OracleAdapter::after_fallback(&config, None), 10_000);
    assert_eq!(OracleAdapter::after_fallback(&config, Some(-5)), 10_000);
    assert_eq!(OracleAdapter::after_fallback(&config, Some(i128::MAX)), 10_000);
    assert_eq!(OracleAdapter::after_fallback(&config, Some(105_000_000)), 10_500);
    assert_eq!(OracleAdapter::multiplier(&config, &admin(), None, None, 5), 10_000);
    let stale = Some(PriceQuote { price: 110_000_000, observed_at: 0 });
    assert_eq!(OracleAdapter::multiplier(&config, &admin(), stale, Some(-1), 1_000_000), 10_000);
}

#[test]
fn reference_price_that_is_not_positive_is_neutral() {
    for reference in [0i128, -1, i128::MIN] {
        let mut config = configured();
        config.oracle_reference_price = reference;
        let quote = Some(PriceQuote { price: 110_000_000, observed_at: 5 });
        assert_eq!(OracleAdapter::multiplier_from_price(110_000_000, reference), None);
        assert_eq!(OracleAdapter::after_primary(&config, quote, 5), OracleStep::QueryFallback);
        assert_eq!(OracleAdapter::multiplier(&config, &admin(), quote, Some(105_000_000), 5), 10_000);
    }
    assert_eq!(OracleAdapter::multiplier_from_price(3, 1), Some(30_000));
    assert_eq!(OracleAdapter::multiplier_from_price(1, i128::MAX), Some(0));
}
