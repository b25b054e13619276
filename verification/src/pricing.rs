//! Demand-curve pricing: how the price of a tier follows the number of
//! tickets sold, the tier's strategy, the price-feed multiplier and the
//! administrative bounds.
//!
//! Every quantity here is non-negative, so the truncating division of the
//! executable code and the mathematical floor division of the specification
//! agree.

use vstd::prelude::*;
use vstd::arithmetic::div_mod::*;
use vstd::arithmetic::mul::*;

verus! {

/// Denominator of basis-point rates and of the price-feed multiplier.
pub const ORACLE_PRECISION: u128 = 10000;

/// The multiplier that leaves a price unchanged.
pub const NEUTRAL_MULTIPLIER: u128 = 10000;

/// Number of demand thresholds that a tier's capacity is divided into.
pub const DEMAND_STEPS: u32 = 5;

/// Price increase per threshold, in basis points, of the standard strategy.
pub const STANDARD_RATE_BPS: u128 = 500;

/// Price increase per threshold, in basis points, of the first test variant.
pub const AB_TEST_A_RATE_BPS: u128 = 1000;

/// Price increase per threshold, in basis points, of the second test variant.
pub const AB_TEST_B_RATE_BPS: u128 = 500;

/// Up-front increase of the base price, in basis points, of the second test
/// variant.
pub const AB_TEST_B_PREMIUM_BPS: u128 = 2000;

/// How a tier's price responds to demand.
#[derive(Clone, Copy, Debug, PartialEq, Eq, Structural)]
pub enum PricingStrategy {
    /// 5% per threshold on the base price.
    Standard,
    /// 10% per threshold on the base price.
    AbTestA,
    /// 5% per threshold on a base price raised by 20% once.
    AbTestB,
}

/// Tickets per demand threshold: a fifth of the capacity, at least one.
pub open spec fn demand_unit(max_supply: int) -> int {
    if max_supply / 5 >= 1 {
        max_supply / 5
    } else {
        1
    }
}

/// Whole thresholds that `minted` tickets have crossed.
pub open spec fn thresholds_passed(minted: int, max_supply: int) -> int {
    minted / demand_unit(max_supply)
}

/// Basis points added per threshold under `strategy`.
pub open spec fn rate_bps(strategy: PricingStrategy) -> int {
    match strategy {
        PricingStrategy::Standard => 500,
        PricingStrategy::AbTestA => 1000,
        PricingStrategy::AbTestB => 500,
    }
}

/// The base price that threshold scaling starts from.
pub open spec fn effective_base(base_price: int, strategy: PricingStrategy) -> int {
    match strategy {
        PricingStrategy::AbTestB => base_price + base_price * 2000 / 10000,
        _ => base_price,
    }
}

/// The price that demand alone gives.
pub open spec fn demand_price(
    base_price: int,
    minted: int,
    max_supply: int,
    strategy: PricingStrategy,
) -> int {
    let base = effective_base(base_price, strategy);
    base + base * rate_bps(strategy) * thresholds_passed(minted, max_supply) / 10000
}

/// A price scaled by a price-feed multiplier.
pub open spec fn adjusted_price(price: int, multiplier: int) -> int {
    price * multiplier / 10000
}

/// `price` held within `[floor, ceiling]`.
pub open spec fn clamp_price(price: int, floor: int, ceiling: int) -> int {
    if price < floor {
        floor
    } else if price > ceiling {
        ceiling
    } else {
        price
    }
}

/// The payable price: the demand price, scaled by the multiplier unless
/// pricing is frozen, then held within the bounds.
pub open spec fn payable_price(
    base_price: int,
    minted: int,
    max_supply: int,
    strategy: PricingStrategy,
    is_frozen: bool,
    multiplier: int,
    floor: int,
    ceiling: int,
) -> int {
    let demand = demand_price(base_price, minted, max_supply, strategy);
    let raw = if is_frozen {
        demand
    } else {
        adjusted_price(demand, multiplier)
    };
    clamp_price(raw, floor, ceiling)
}

/// `value * factor / 10000` without forming the product, or `None` where the
/// quotient does not fit 128 bits.
pub fn scale_by_ten_thousandths(value: u128, factor: u128) -> (scaled: Option<u128>)
    ensures
        match scaled {
            Some(q) => q == value * factor / 10000,
            None => value * factor / 10000 > u128::MAX,
        },
{
    let value_whole: u128 = value / 10000;
    let value_rest: u128 = value % 10000;
    let factor_whole: u128 = factor / 10000;
    let factor_rest: u128 = factor % 10000;
    proof {
        lemma_scale_split(value as int, factor as int);
        assert(0 <= value_whole * factor) by (nonlinear_arith);
        assert(0 <= value_rest * factor_whole <= 9999 * factor_whole) by (nonlinear_arith)
            requires
                value_rest <= 9999,
        ;
        assert(0 <= value_rest * factor_rest <= 9999 * 9999) by (nonlinear_arith)
            requires
                value_rest <= 9999,
                factor_rest <= 9999,
        ;
    }
    let tail: u128 = value_rest * factor_whole + value_rest * factor_rest / 10000;
    match value_whole.checked_mul(factor) {
        None => None,
        Some(head) => head.checked_add(tail),
    }
}

/// Splits `value * factor / 10000` into parts whose products stay small.
proof fn lemma_scale_split(value: int, factor: int)
    requires
        0 <= value,
        0 <= factor,
    ensures
        value * factor / 10000 == (value / 10000) * factor + (value % 10000) * (factor / 10000) + (
        value % 10000) * (factor % 10000) / 10000,
{
    let vq: int = value / 10000;
    let vr: int = value % 10000;
    let fq: int = factor / 10000;
    let fr: int = factor % 10000;
    assert(value == 10000 * vq + vr);
    assert(factor == 10000 * fq + fr);
    assert(value * factor == vr * fr + (vq * factor + vr * fq) * 10000) by (nonlinear_arith)
        requires
            value == 10000 * vq + vr,
            factor == 10000 * fq + fr,
    ;
    lemma_mul_nonnegative(vr, fr);
    lemma_hoist_over_denominator(vr * fr, vq * factor + vr * fq, 10000);
}

/// With at most `max_supply` tickets minted, fewer than ten thresholds are
/// crossed.
pub proof fn lemma_thresholds_bounded(minted: int, max_supply: int)
    requires
        0 <= minted <= max_supply,
    ensures
        0 <= thresholds_passed(minted, max_supply) <= 9,
{
    let unit: int = demand_unit(max_supply);
    assert(1 <= unit);
    assert(max_supply <= 5 * unit + 4);
    assert(0 <= minted / unit <= 9) by (nonlinear_arith)
        requires
            0 <= minted < 10 * unit,
            1 <= unit,
    ;
}

/// Executable form of [`rate_bps`].
pub fn strategy_rate_bps(strategy: PricingStrategy) -> (rate: u128)
    ensures
        rate == rate_bps(strategy),
{
    match strategy {
        PricingStrategy::Standard => STANDARD_RATE_BPS,
        PricingStrategy::AbTestA => AB_TEST_A_RATE_BPS,
        PricingStrategy::AbTestB => AB_TEST_B_RATE_BPS,
    }
}

/// Executable form of [`effective_base`].
pub fn compute_effective_base(base_price: i128, strategy: PricingStrategy) -> (base: u128)
    requires
        base_price > 0,
    ensures
        base == effective_base(base_price as int, strategy),
        base_price <= base <= base_price + base_price / 5,
{
    let plain: u128 = base_price as u128;
    match strategy {
        PricingStrategy::AbTestB => {
            proof {
                lemma_div_multiples_vanish_quotient(2000, base_price as int, 5);
                assert(base_price * 2000 == 2000 * base_price) by (nonlinear_arith);
            }
            plain + plain / 5
        },
        _ => plain,
    }
}

/// Executable form of [`demand_price`]. The result can pass `i128::MAX`,
/// which is why it is unsigned.
pub fn compute_demand_price(
    base_price: i128,
    minted: u32,
    max_supply: u32,
    strategy: PricingStrategy,
) -> (price: u128)
    requires
        base_price > 0,
        minted <= max_supply,
    ensures
        price == demand_price(base_price as int, minted as int, max_supply as int, strategy),
        price >= base_price,
{
    let fifth: u32 = max_supply / DEMAND_STEPS;
    let unit: u32 = if fifth >= 1 {
        fifth
    } else {
        1
    };
    let thresholds: u32 = minted / unit;
    proof {
        lemma_thresholds_bounded(minted as int, max_supply as int);
    }
    let base: u128 = compute_effective_base(base_price, strategy);
    let rate: u128 = strategy_rate_bps(strategy);
    let factor: u128 = rate * (thresholds as u128);
    proof {
        let ghost_rate: int = rate_bps(strategy);
        let t: int = thresholds as int;
        assert(base * ghost_rate * t == base * (ghost_rate * t)) by (nonlinear_arith);
        assert(strategy == PricingStrategy::AbTestA ==> factor <= 9000);
        assert(strategy != PricingStrategy::AbTestA ==> factor <= 4500);
        lemma_scaled_share(base as int, factor as int);
    }
    base + share_of(base, factor)
}

/// `value * factor / 10000` for a factor of at most 10000, without forming
/// the product.
fn share_of(value: u128, factor: u128) -> (share: u128)
    requires
        factor <= 10000,
    ensures
        share == value * factor / 10000,
{
    let whole: u128 = value / 10000;
    let rest: u128 = value % 10000;
    proof {
        assert(0 <= whole * factor <= whole * 10000) by (nonlinear_arith)
            requires
                0 <= whole,
                0 <= factor <= 10000,
        ;
        assert(0 <= rest * factor <= 9999 * 10000) by (nonlinear_arith)
            requires
                0 <= rest <= 9999,
                0 <= factor <= 10000,
        ;
        assert(value * factor == rest * factor + (whole * factor) * 10000) by (nonlinear_arith)
            requires
                value == 10000 * whole + rest,
        ;
        lemma_hoist_over_denominator(rest * factor, whole * factor, 10000);
        lemma_scaled_share(value as int, factor as int);
    }
    whole * factor + rest * factor / 10000
}

/// A share of at most `factor / 10000` of `value` is no more than `value`,
/// and no more than half of it where the factor is at most 5000.
proof fn lemma_scaled_share(value: int, factor: int)
    requires
        0 <= value,
        0 <= factor <= 10000,
    ensures
        0 <= value * factor / 10000 <= value,
        factor <= 5000 ==> 2 * (value * factor / 10000) <= value,
{
    assert(0 <= value * factor <= value * 10000) by (nonlinear_arith)
        requires
            0 <= value,
            0 <= factor <= 10000,
    ;
    if factor <= 5000 {
        assert(value * factor <= value * 5000) by (nonlinear_arith)
            requires
                0 <= value,
                0 <= factor <= 5000,
        ;
    }
}

/// Executable form of [`clamp_price`] for a price that may have passed 128
/// bits (`None`).
pub fn clamp_to_bounds(price: Option<u128>, floor: i128, ceiling: i128) -> (clamped: i128)
    ensures
        price matches Some(p) ==> clamped == clamp_price(p as int, floor as int, ceiling as int),
        price is None ==> clamped == ceiling,
{
    match price {
        Some(p) => {
            if p > (i128::MAX as u128) {
                ceiling
            } else {
                let signed: i128 = p as i128;
                if signed < floor {
                    floor
                } else if signed > ceiling {
                    ceiling
                } else {
                    signed
                }
            }
        },
        None => ceiling,
    }
}

/// Executable form of [`payable_price`]: exact for every multiplier and every
/// pair of bounds, with no intermediate overflow.
pub fn compute_payable_price(
    base_price: i128,
    minted: u32,
    max_supply: u32,
    strategy: PricingStrategy,
    is_frozen: bool,
    multiplier: u128,
    floor: i128,
    ceiling: i128,
) -> (price: i128)
    requires
        base_price > 0,
        minted <= max_supply,
    ensures
        price == payable_price(
            base_price as int,
            minted as int,
            max_supply as int,
            strategy,
            is_frozen,
            multiplier as int,
            floor as int,
            ceiling as int,
        ),
        floor <= ceiling ==> floor <= price <= ceiling,
{
    let demand: u128 = compute_demand_price(base_price, minted, max_supply, strategy);
    let raw: Option<u128> = if is_frozen {
        Some(demand)
    } else {
        scale_by_ten_thousandths(demand, multiplier)
    };
    clamp_to_bounds(raw, floor, ceiling)
}


/// The payable price lies within the configured bounds, whatever the
/// strategy, the minted count and the multiplier.
pub proof fn lemma_price_within_bounds(
    base_price: int,
    minted: int,
    max_supply: int,
    strategy: PricingStrategy,
    is_frozen: bool,
    multiplier: int,
    floor: int,
    ceiling: int,
)
    requires
        floor <= ceiling,
    ensures
        floor <= payable_price(
            base_price,
            minted,
            max_supply,
            strategy,
            is_frozen,
            multiplier,
            floor,
            ceiling,
        ) <= ceiling,
{
}

/// The demand price does not fall when more tickets are minted.
pub proof fn lemma_demand_price_monotonic(
    base_price: int,
    minted_before: int,
    minted_after: int,
    max_supply: int,
    strategy: PricingStrategy,
)
    requires
        base_price > 0,
        0 <= minted_before <= minted_after,
    ensures
        0 < demand_price(base_price, minted_before, max_supply, strategy) <= demand_price(
            base_price,
            minted_after,
            max_supply,
            strategy,
        ),
{
    let unit: int = demand_unit(max_supply);
    let before: int = thresholds_passed(minted_before, max_supply);
    let after: int = thresholds_passed(minted_after, max_supply);
    lemma_div_is_ordered(0, minted_before, unit);
    lemma_div_is_ordered(minted_before, minted_after, unit);
    assert(0 <= before <= after);
    let base: int = effective_base(base_price, strategy);
    assert(base >= base_price) by {
        lemma_mul_nonnegative(base_price, 2000);
        lemma_div_is_ordered(0, base_price * 2000, 10000);
    }
    let rate: int = rate_bps(strategy);
    assert(0 <= base * rate * before <= base * rate * after) by (nonlinear_arith)
        requires
            0 < base,
            0 < rate,
            0 <= before <= after,
    ;
    lemma_div_is_ordered(0, base * rate * before, 10000);
    lemma_div_is_ordered(base * rate * before, base * rate * after, 10000);
}

/// For a fixed tier, strategy, multiplier and pair of bounds, the payable
/// price does not fall when more tickets are minted.
pub proof fn lemma_price_monotonic_in_minted(
    base_price: int,
    minted_before: int,
    minted_after: int,
    max_supply: int,
    strategy: PricingStrategy,
    is_frozen: bool,
    multiplier: int,
    floor: int,
    ceiling: int,
)
    requires
        base_price > 0,
        0 <= minted_before <= minted_after,
        0 <= multiplier,
        floor <= ceiling,
    ensures
        payable_price(
            base_price,
            minted_before,
            max_supply,
            strategy,
            is_frozen,
            multiplier,
            floor,
            ceiling,
        ) <= payable_price(
            base_price,
            minted_after,
            max_supply,
            strategy,
            is_frozen,
            multiplier,
            floor,
            ceiling,
        ),
{
    lemma_demand_price_monotonic(base_price, minted_before, minted_after, max_supply, strategy);
    let before: int = demand_price(base_price, minted_before, max_supply, strategy);
    let after: int = demand_price(base_price, minted_after, max_supply, strategy);
    lemma_mul_inequality(before, after, multiplier);
    lemma_div_is_ordered(before * multiplier, after * multiplier, 10000);
}

/// Freezing removes the price feed from the price and nothing else: a frozen
/// price is the same for every multiplier, and equals the price that the
/// neutral multiplier gives when pricing is not frozen.
pub proof fn lemma_freeze_is_neutral_multiplier(
    base_price: int,
    minted: int,
    max_supply: int,
    strategy: PricingStrategy,
    multiplier: int,
    floor: int,
    ceiling: int,
)
    ensures
        payable_price(base_price, minted, max_supply, strategy, true, multiplier, floor, ceiling)
            == payable_price(
            base_price,
            minted,
            max_supply,
            strategy,
            false,
            NEUTRAL_MULTIPLIER as int,
            floor,
            ceiling,
        ),
{
    let demand: int = demand_price(base_price, minted, max_supply, strategy);
    assert(demand * 10000 / 10000 == demand);
}


} // verus!
