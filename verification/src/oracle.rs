//! The price-feed adapter: turns what the feeds report into a multiplier for
//! prices, and never fails. The feeds themselves are asked by the caller;
//! this module decides which feed to ask next and what its answer is worth.

use vstd::prelude::*;
use crate::keys::Identity;
use crate::pricing::NEUTRAL_MULTIPLIER;
use crate::tier::PricingConfig;

verus! {

/// What the primary feed reports: a price and the time it was observed.
#[derive(Clone, Copy, Debug, PartialEq, Eq, Structural)]
pub struct PriceQuote {
    pub price: i128,
    pub observed_at: u64,
}

/// What the adapter asks of its caller next.
#[derive(Clone, Copy, Debug, PartialEq, Eq, Structural)]
pub enum OracleStep {
    /// Ask the primary feed, then call [`OracleAdapter::after_primary`].
    QueryPrimary,
    /// Ask the secondary feed, then call [`OracleAdapter::after_fallback`].
    QueryFallback,
    /// The multiplier is settled.
    Resolved(u128),
}

/// The price-feed adapter. It holds no state.
pub struct OracleAdapter;

/// Whether a primary feed is configured: its address is not `sentinel`, the
/// identity that stands for "none".
pub open spec fn oracle_configured(config: &PricingConfig, sentinel: Seq<u8>) -> bool {
    config.oracle_address@ != sentinel
}

/// Whether a feed price can be turned into a multiplier: the reference price
/// is positive, the price is not negative, and the price in ten-thousandths
/// fits 128 signed bits. Any other reading is malformed.
pub open spec fn price_usable(price: int, reference: int) -> bool {
    reference > 0 && 0 <= price && price * 10000 <= i128::MAX
}

/// The multiplier that a feed price stands for: the price relative to the
/// reference price, in ten-thousandths, rounded down.
pub open spec fn multiplier_of(price: int, reference: int) -> int {
    price * 10000 / reference
}

/// Whether a reading observed at `observed_at` is too old at `now`.
pub open spec fn is_stale(observed_at: int, now: int, max_age: int) -> bool {
    now - observed_at > max_age
}

/// Whether the primary feed's answer is taken: there is one, it is
/// well-formed and it is fresh.
pub open spec fn primary_accepted(
    config: &PricingConfig,
    quote: Option<PriceQuote>,
    now: u64,
) -> bool {
    quote matches Some(q) && price_usable(q.price as int, config.oracle_reference_price as int)
        && !is_stale(q.observed_at as int, now as int, config.max_oracle_age_seconds as int)
}

/// Whether the secondary feed's answer is taken: there is one and it is
/// well-formed. Its age is not asked for.
pub open spec fn fallback_accepted(config: &PricingConfig, spot: Option<i128>) -> bool {
    spot matches Some(price) && price_usable(price as int, config.oracle_reference_price as int)
}

/// The multiplier after the secondary feed has answered, or failed to.
pub open spec fn fallback_multiplier(config: &PricingConfig, spot: Option<i128>) -> int {
    if fallback_accepted(config, spot) {
        multiplier_of(spot->0 as int, config.oracle_reference_price as int)
    } else {
        NEUTRAL_MULTIPLIER as int
    }
}

/// The multiplier for given answers of both feeds: neutral where no feed is
/// configured; else from the primary feed where its answer is taken; else
/// from the secondary feed where its answer is taken; else neutral.
pub open spec fn oracle_multiplier(
    config: &PricingConfig,
    sentinel: Seq<u8>,
    primary: Option<PriceQuote>,
    fallback: Option<i128>,
    now: u64,
) -> int {
    if !oracle_configured(config, sentinel) {
        NEUTRAL_MULTIPLIER as int
    } else if primary_accepted(config, primary, now) {
        multiplier_of(primary->0.price as int, config.oracle_reference_price as int)
    } else {
        fallback_multiplier(config, fallback)
    }
}

/// The multiplier of a usable price fits 128 signed bits and is not
/// negative.
pub proof fn lemma_multiplier_in_range(price: int, reference: int)
    requires
        price_usable(price, reference),
    ensures
        0 <= multiplier_of(price, reference) <= price * 10000 <= i128::MAX,
{
    assert(0 <= price * 10000 / reference <= price * 10000) by (nonlinear_arith)
        requires
            0 <= price * 10000,
            reference >= 1,
    ;
}

impl OracleAdapter {
    /// The multiplier of `price` against `reference`, or `None` where the
    /// reading is malformed.
    pub fn multiplier_from_price(price: i128, reference: i128) -> (multiplier: Option<u128>)
        ensures
            multiplier is Some <==> price_usable(price as int, reference as int),
            multiplier matches Some(m) ==> m == multiplier_of(price as int, reference as int),
    {
        if reference <= 0 || price < 0 {
            return None;
        }
        match price.checked_mul(10000) {
            None => None,
            Some(scaled) => {
                proof {
                    lemma_multiplier_in_range(price as int, reference as int);
                }
                Some((scaled / reference) as u128)
            },
        }
    }

    /// Whether a reading observed at `observed_at` is too old at `now`. A
    /// reading from the future is not.
    pub fn reading_is_stale(observed_at: u64, now: u64, max_age: u64) -> (stale: bool)
        ensures
            stale == is_stale(observed_at as int, now as int, max_age as int),
    {
        now > observed_at && now - observed_at > max_age
    }

    /// The first step: with no feed configured the multiplier is neutral at
    /// once; else the primary feed is to be asked.
    pub fn begin(config: &PricingConfig, sentinel: &Identity) -> (step: OracleStep)
        ensures
            step == if oracle_configured(config, sentinel@) {
                OracleStep::QueryPrimary
            } else {
                OracleStep::Resolved(NEUTRAL_MULTIPLIER)
            },
    {
        if config.oracle_address.same_as(sentinel) {
            OracleStep::Resolved(NEUTRAL_MULTIPLIER)
        } else {
            OracleStep::QueryPrimary
        }
    }

    /// The step after the primary feed was asked. `quote` is `None` where the
    /// feed could not be reached. A fresh, well-formed answer settles the
    /// multiplier; anything else sends the caller to the secondary feed.
    pub fn after_primary(config: &PricingConfig, quote: Option<PriceQuote>, now: u64) -> (step:
        OracleStep)
        ensures
            !primary_accepted(config, quote, now) ==> step == OracleStep::QueryFallback,
            primary_accepted(config, quote, now) ==> (step matches OracleStep::Resolved(m) && m
                == multiplier_of(quote->0.price as int, config.oracle_reference_price as int)),
    {
        match quote {
            None => OracleStep::QueryFallback,
            Some(q) => {
                if Self::reading_is_stale(q.observed_at, now, config.max_oracle_age_seconds) {
                    OracleStep::QueryFallback
                } else {
                    match Self::multiplier_from_price(q.price, config.oracle_reference_price) {
                        Some(m) => OracleStep::Resolved(m),
                        None => OracleStep::QueryFallback,
                    }
                }
            },
        }
    }

    /// The multiplier after the secondary feed was asked. `spot` is `None`
    /// where the feed could not be reached. A well-formed answer gives the
    /// multiplier; anything else gives the neutral one.
    pub fn after_fallback(config: &PricingConfig, spot: Option<i128>) -> (multiplier: u128)
        ensures
            multiplier == fallback_multiplier(config, spot),
    {
        match spot {
            None => NEUTRAL_MULTIPLIER,
            Some(price) => {
                match Self::multiplier_from_price(price, config.oracle_reference_price) {
                    Some(m) => m,
                    None => NEUTRAL_MULTIPLIER,
                }
            },
        }
    }

    /// The multiplier for given answers of both feeds. It is defined for
    /// every input: unreachable, malformed and stale feeds end in the neutral
    /// multiplier.
    pub fn multiplier(
        config: &PricingConfig,
        sentinel: &Identity,
        primary: Option<PriceQuote>,
        fallback: Option<i128>,
        now: u64,
    ) -> (multiplier: u128)
        ensures
            multiplier == oracle_multiplier(config, sentinel@, primary, fallback, now),
    {
        match Self::begin(config, sentinel) {
            OracleStep::Resolved(m) => m,
            _ => {
                match Self::after_primary(config, primary, now) {
                    OracleStep::Resolved(m) => m,
                    _ => Self::after_fallback(config, fallback),
                }
            },
        }
    }
}

/// With no feed configured, or with neither feed giving an answer that is
/// taken, the multiplier is the neutral one.
pub proof fn lemma_multiplier_degrades_to_neutral(
    config: &PricingConfig,
    sentinel: Seq<u8>,
    primary: Option<PriceQuote>,
    fallback: Option<i128>,
    now: u64,
)
    requires
        !oracle_configured(config, sentinel) || (!primary_accepted(config, primary, now)
            && !fallback_accepted(config, fallback)),
    ensures
        oracle_multiplier(config, sentinel, primary, fallback, now) == NEUTRAL_MULTIPLIER,
{
}

} // verus!
