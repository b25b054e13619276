use ticket_contract::error::ContractError;
use ticket_contract::keys::Identity;
use ticket_contract::pricing::{
    clamp_to_bounds, compute_demand_price, compute_effective_base, compute_payable_price,
    scale_by_ten_thousandths, strategy_rate_bps, PricingStrategy, NEUTRAL_MULTIPLIER,
    ORACLE_PRECISION,
};
use ticket_contract::tier::{PricingConfig, Tier, DEFAULT_STALENESS_SECONDS, DIA_ORACLE_DECIMALS};

fn open_config() -> PricingConfig {
    PricingConfig::unconfigured(&Identity::new(b"GADMIN".to_vec()), 0)
}

fn bounded(floor: i128, ceiling: i128, frozen: bool) -> PricingConfig {
    let mut config = open_config();
    config.price_floor = floor;
    config.price_ceiling = ceiling;
    config.is_frozen = frozen;
    config
}

fn tier(base_price: i128, max_supply: u32, minted: u32, strategy: PricingStrategy) -> Tier {
    let mut tier = Tier::create("T".to_string(), base_price, max_supply, strategy).unwrap();
    tier.minted = minted;
    tier
}

#[test]
fn constants_have_their_documented_values() {
    assert_eq!(ORACLE_PRECISION, 10_000);
    assert_eq!(NEUTRAL_MULTIPLIER, 10_000);
    assert_eq!(DIA_ORACLE_DECIMALS, 100_000_000);
    assert_eq!(DEFAULT_STALENESS_SECONDS, 3600);
    assert_eq!(strategy_rate_bps(PricingStrategy::Standard), 500);
    assert_eq!(strategy_rate_bps(PricingStrategy::AbTestA), 1000);
    assert_eq!(strategy_rate_bps(PricingStrategy::AbTestB), 500);
}

#[test]
fn standard_price_steps_at_whole_thresholds() {
    // capacity 10: a threshold every 2 tickets, 5% each
    let expected = [100, 100, 105, 105, 110, 110, 115, 115, 120, 120, 125];
    for (minted, price) in expected.iter().enumerate() {
        assert_eq!(
            compute_demand_price(100, minted as u32, 10, PricingStrategy::Standard),
            *price as u128
        );
    }
}

#[test]
fn demand_unit_is_at_least_one() {
    // capacity below five: every ticket is a threshold
    assert_eq!(compute_demand_price(100, 0, 4, PricingStrategy::Standard), 100);
    assert_eq!(compute_demand_price(100, 1, 4, PricingStrategy::Standard), 105);
    assert_eq!(compute_demand_price(100, 4, 4, PricingStrategy::Standard), 120);
    assert_eq!(compute_demand_price(100, 1, 1, PricingStrategy::Standard), 105);
    // capacity 9: unit 1, so nine thresholds when sold out
    assert_eq!(compute_demand_price(100, 9, 9, PricingStrategy::Standard), 145);
    assert_eq!(compute_demand_price(100, 9, 9, PricingStrategy::AbTestA), 190);
    // capacity 100: unit 20
    assert_eq!(compute_demand_price(100, 19, 100, PricingStrategy::Standard), 100);
    assert_eq!(compute_demand_price(100, 20, 100, PricingStrategy::Standard), 105);
    assert_eq!(compute_demand_price(100, 100, 100, PricingStrategy::Standard), 125);
}

#[test]
fn strategies_differ_in_rate_and_base() {
    assert_eq!(compute_effective_base(100, PricingStrategy::Standard), 100);
    assert_eq!(compute_effective_base(100, PricingStrategy::AbTestA), 100);
    assert_eq!(compute_effective_base(100, PricingStrategy::AbTestB), 120);
    assert_eq!(compute_demand_price(100, 2, 10, PricingStrategy::AbTestA), 110);
    assert_eq!(compute_demand_price(100, 4, 10, PricingStrategy::AbTestA), 120);
    assert_eq!(compute_demand_price(100, 0, 10, PricingStrategy::AbTestB), 120);
    assert_eq!(compute_demand_price(100, 2, 10, PricingStrategy::AbTestB), 126);
    assert_eq!(compute_demand_price(100, 10, 10, PricingStrategy::AbTestB), 150);
}

#[test]
fn division_truncates() {
    // 7 * 500 * 1 / 10000 = 0.35 -> 0
    assert_eq!(compute_demand_price(7, 2, 10, PricingStrategy::Standard), 7);
    // 19 * 500 * 1 / 10000 = 0.95 -> 0;  21 * 500 / 10000 = 1.05 -> 1
    assert_eq!(compute_demand_price(19, 2, 10, PricingStrategy::Standard), 19);
    assert_eq!(compute_demand_price(21, 2, 10, PricingStrategy::Standard), 22);
    // the 20% of the second variant truncates too: 4 -> 4, 5 -> 6, 9 -> 10
    assert_eq!(compute_effective_base(4, PricingStrategy::AbTestB), 4);
    assert_eq!(compute_effective_base(5, PricingStrategy::AbTestB), 6);
    assert_eq!(compute_effective_base(9, PricingStrategy::AbTestB), 10);
    // multiplier 1.0001 on 9999 -> 9999.9999 -> 9999
    assert_eq!(scale_by_ten_thousandths(9_999, 10_001), Some(9_999));
    assert_eq!(scale_by_ten_thousandths(10_000, 10_001), Some(10_001));
    assert_eq!(scale_by_ten_thousandths(1, 9_999), Some(0));
}

#[test]
fn scaling_is_exact_where_the_product_passes_128_bits() {
    let big: u128 = u128::MAX;
    assert_eq!(scale_by_ten_thousandths(big, 10_000), Some(big));
    assert_eq!(scale_by_ten_thousandths(big, 1), Some(big / 10_000));
    assert_eq!(scale_by_ten_thousandths(big, 5_000), Some(big / 2));
    assert_eq!(scale_by_ten_thousandths(big, 10_001), None);
    assert_eq!(scale_by_ten_thousandths(10_000, big), Some(big));
    assert_eq!(scale_by_ten_thousandths(10_001, big), None);
    assert_eq!(scale_by_ten_thousandths(0, big), Some(0));
    assert_eq!(scale_by_ten_thousandths(big, 0), Some(0));
    // (2^64 + 12345) * (2^63 + 6789) / 10000
    assert_eq!(
        scale_by_ten_thousandths((1u128 << 64) + 12_345, (1u128 << 63) + 6_789),
        Some(17_014_118_346_046_947_082_916_061_510_232_118)
    );
}

#[test]
fn largest_prices_do_not_overflow() {
    let max = i128::MAX;
    assert_eq!(compute_demand_price(max, 0, 10, PricingStrategy::Standard), max as u128);
    assert_eq!(
        compute_demand_price(max, 9, 9, PricingStrategy::AbTestA),
        max as u128 + (max as u128 / 10_000) * 9_000 + (max as u128 % 10_000) * 9_000 / 10_000
    );
    let open = open_config();
    // above the ceiling for every strategy once demand has moved the price
    assert_eq!(tier(max, 9, 9, PricingStrategy::AbTestA).current_price(&open, 10_000), max);
    assert_eq!(tier(max, 10, 0, PricingStrategy::AbTestB).current_price(&open, 10_000), max);
    assert_eq!(tier(max, 10, 0, PricingStrategy::Standard).current_price(&open, u128::MAX), max);
    // and back below it with a small multiplier
    assert_eq!(
        tier(max, 10, 0, PricingStrategy::Standard).current_price(&open, 1),
        max / 10_000
    );
    assert_eq!(tier(max, 10, 0, PricingStrategy::Standard).current_price(&open, 0), 0);
}

#[test]
fn price_is_clamped_last() {
    assert_eq!(clamp_to_bounds(Some(154), 50, 150), 150);
    assert_eq!(clamp_to_bounds(Some(150), 50, 150), 150);
    assert_eq!(clamp_to_bounds(Some(50), 50, 150), 50);
    assert_eq!(clamp_to_bounds(Some(49), 50, 150), 50);
    assert_eq!(clamp_to_bounds(Some(100), 50, 150), 100);
    assert_eq!(clamp_to_bounds(None, 50, 150), 150);
    assert_eq!(clamp_to_bounds(Some(u128::MAX), 50, 150), 150);
    assert_eq!(clamp_to_bounds(Some(0), -5, -1), -1);
    assert_eq!(clamp_to_bounds(Some(7), 7, 7), 7);

    // frozen or not, the bounds hold
    let t = tier(140, 10, 2, PricingStrategy::AbTestA);
    assert_eq!(t.current_price(&bounded(50, 150, false), 10_000), 150);
    assert_eq!(t.current_price(&bounded(50, 150, true), 10_000), 150);
    assert_eq!(t.current_price(&bounded(200, 300, false), 10_000), 200);
    assert_eq!(t.current_price(&bounded(200, 300, true), 10_000), 200);
    assert_eq!(t.current_price(&bounded(0, i128::MAX, false), 10_000), 154);
}

#[test]
fn price_stays_within_bounds_for_all_strategies_and_counts() {
    let strategies = [PricingStrategy::Standard, PricingStrategy::AbTestA, PricingStrategy::AbTestB];
    for strategy in strategies {
        for minted in 0..=10u32 {
            for multiplier in [0u128, 1, 5_000, 10_000, 11_000, 1_000_000] {
                for frozen in [false, true] {
                    let price = tier(100, 10, minted, strategy)
                        .current_price(&bounded(90, 130, frozen), multiplier);
                    assert!((90..=130).contains(&price));
                }
            }
        }
    }
}

#[test]
fn price_does_not_fall_as_tickets_are_minted() {
    let strategies = [PricingStrategy::Standard, PricingStrategy::AbTestA, PricingStrategy::AbTestB];
    for strategy in strategies {
        for multiplier in [0u128, 3_333, 10_000, 12_345] {
            for frozen in [false, true] {
                let config = bounded(1, 1_000_000, frozen);
                let mut last = i128::MIN;
                for minted in 0..=37u32 {
                    let price = tier(997, 37, minted, strategy).current_price(&config, multiplier);
                    assert!(price >= last);
                    last = price;
                }
            }
        }
    }
}

#[test]
fn freeze_leaves_out_the_multiplier_only() {
    let t = tier(100, 10, 4, PricingStrategy::Standard);
    let frozen = bounded(0, i128::MAX, true);
    let live = bounded(0, i128::MAX, false);
    assert_eq!(t.current_price(&frozen, 11_000), 110);
    assert_eq!(t.current_price(&frozen, 0), 110);
    assert_eq!(t.current_price(&frozen, u128::MAX), 110);
    assert_eq!(t.current_price(&live, 10_000), 110);
    assert_eq!(t.current_price(&live, 11_000), 121);
    assert_eq!(t.current_price(&live, 5_000), 55);
}

#[test]
fn payable_price_composes_demand_multiplier_and_bounds() {
    let price = |minted: u32, strategy, frozen: bool, multiplier: u128, floor: i128, ceiling: i128| {
        compute_payable_price(100, minted, 10, strategy, frozen, multiplier, floor, ceiling)
    };
    assert_eq!(price(0, PricingStrategy::Standard, false, 11_000, 0, i128::MAX), 110);
    assert_eq!(price(2, PricingStrategy::Standard, false, 11_000, 0, i128::MAX), 115);
    assert_eq!(price(2, PricingStrategy::AbTestB, false, 11_000, 0, i128::MAX), 138);
    assert_eq!(price(2, PricingStrategy::AbTestB, true, 11_000, 0, i128::MAX), 126);
    assert_eq!(price(2, PricingStrategy::AbTestB, false, 11_000, 0, 130), 130);
}

#[test]
fn tier_creation_validates_price_and_capacity() {
    let created = Tier::create("VIP".to_string(), 100, 50, PricingStrategy::AbTestA).unwrap();
    assert_eq!(created.name, "VIP");
    assert_eq!(created.base_price, 100);
    assert_eq!(created.current_price, 100);
    assert_eq!(created.max_supply, 50);
    assert_eq!(created.minted, 0);
    assert!(created.active);
    assert_eq!(created.pricing_strategy, PricingStrategy::AbTestA);

    for (price, supply) in [(0i128, 10u32), (-1, 10), (i128::MIN, 10), (100, 0), (0, 0)] {
        let refused = Tier::create("X".to_string(), price, supply, PricingStrategy::Standard);
        assert_eq!(refused.unwrap_err(), ContractError::InvalidParameters);
    }
    assert!(Tier::create("X".to_string(), 1, 1, PricingStrategy::Standard).is_ok());
    assert!(Tier::create("X".to_string(), i128::MAX, u32::MAX, PricingStrategy::Standard).is_ok());
}
