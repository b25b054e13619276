//! A tier of tickets and the pricing configuration of a sale.

use vstd::prelude::*;
use crate::error::ContractError;
use crate::keys::Identity;
use crate::pricing::{
    compute_payable_price, demand_price, lemma_price_monotonic_in_minted, payable_price,
    PricingStrategy,
};

verus! {

/// Reference price of the price feed that stands for 1.0: eight decimals.
pub const DIA_ORACLE_DECIMALS: i128 = 100_000_000;

/// Age in seconds beyond which a price-feed reading is stale by default.
pub const DEFAULT_STALENESS_SECONDS: u64 = 3600;

/// A priced category of tickets with a limited capacity.
#[derive(Debug)]
pub struct Tier {
    pub name: String,
    /// The price before demand and price feed are applied.
    pub base_price: i128,
    /// The price at creation. It is advisory: the payable price is always
    /// computed anew.
    pub current_price: i128,
    /// The capacity.
    pub max_supply: u32,
    /// Tickets sold or handed out so far.
    pub minted: u32,
    /// Whether the tier is open for sales.
    pub active: bool,
    pub pricing_strategy: PricingStrategy,
}

/// The pricing configuration of a sale.
#[derive(Debug)]
pub struct PricingConfig {
    /// The primary price feed. The administrator's own identity here means
    /// that no feed is configured.
    pub oracle_address: Identity,
    /// The secondary, spot-price feed.
    pub dex_fallback_address: Identity,
    /// The least payable price.
    pub price_floor: i128,
    /// The greatest payable price.
    pub price_ceiling: i128,
    pub update_frequency: u64,
    pub last_update_time: u64,
    /// While set, the price feed is left out of the price.
    pub is_frozen: bool,
    /// The pair that the feeds are asked for.
    pub oracle_pair_id: String,
    /// The feed price that stands for a multiplier of 1.0.
    pub oracle_reference_price: i128,
    /// Age in seconds beyond which a reading of the primary feed is stale.
    pub max_oracle_age_seconds: u64,
}

impl PricingConfig {
    /// The bounds are in order.
    pub open spec fn wf(&self) -> bool {
        self.price_floor <= self.price_ceiling
    }

    /// Whether this is the configuration that a sale starts with: both feeds
    /// point at the administrator, which stands for "no feed"; the bounds admit
    /// every non-negative price; pricing is not frozen; the reference price is
    /// 1.0 with eight decimals.
    pub open spec fn is_unconfigured(&self, admin: Seq<u8>, now: u64) -> bool {
        &&& self.oracle_address@ == admin
        &&& self.dex_fallback_address@ == admin
        &&& self.price_floor == 0
        &&& self.price_ceiling == i128::MAX
        &&& self.update_frequency == 0
        &&& self.last_update_time == now
        &&& !self.is_frozen
        &&& self.oracle_pair_id@ == "XLM/USD"@
        &&& self.oracle_reference_price == DIA_ORACLE_DECIMALS
        &&& self.max_oracle_age_seconds == DEFAULT_STALENESS_SECONDS
    }

    /// This configuration with the freeze flag set to `frozen`.
    pub open spec fn with_freeze(self, frozen: bool) -> PricingConfig {
        PricingConfig { is_frozen: frozen, ..self }
    }

    /// Whether the bounds are in order.
    pub fn is_valid(&self) -> (valid: bool)
        ensures
            valid == self.wf(),
    {
        self.price_floor <= self.price_ceiling
    }

    /// The configuration of a sale that has no price feed: both feeds point
    /// at the administrator, the bounds admit every non-negative price, and
    /// pricing is not frozen.
    pub fn unconfigured(admin: &Identity, now: u64) -> (config: PricingConfig)
        ensures
            config.is_unconfigured(admin@, now),
            config.wf(),
    {
        PricingConfig {
            oracle_address: admin.duplicate(),
            dex_fallback_address: admin.duplicate(),
            price_floor: 0,
            price_ceiling: i128::MAX,
            update_frequency: 0,
            last_update_time: now,
            is_frozen: false,
            oracle_pair_id: "XLM/USD".to_owned(),
            oracle_reference_price: DIA_ORACLE_DECIMALS,
            max_oracle_age_seconds: DEFAULT_STALENESS_SECONDS,
        }
    }
}

impl Tier {
    /// The price is positive and no more tickets are minted than the tier
    /// holds.
    pub open spec fn wf(&self) -> bool {
        self.base_price > 0 && self.minted <= self.max_supply
    }

    /// The price that demand alone gives for this tier.
    pub open spec fn demand_price(&self) -> int {
        demand_price(
            self.base_price as int,
            self.minted as int,
            self.max_supply as int,
            self.pricing_strategy,
        )
    }

    /// The payable price of this tier under `config` and `multiplier`.
    pub open spec fn price_under(&self, config: &PricingConfig, multiplier: int) -> int {
        payable_price(
            self.base_price as int,
            self.minted as int,
            self.max_supply as int,
            self.pricing_strategy,
            config.is_frozen,
            multiplier,
            config.price_floor as int,
            config.price_ceiling as int,
        )
    }

    /// This tier with `quantity` more tickets minted.
    pub open spec fn after_mint(self, quantity: u32) -> Tier {
        Tier { minted: (self.minted + quantity) as u32, ..self }
    }

    /// Whether `quantity` tickets can be minted, and if not, why.
    pub open spec fn mint_check(&self, quantity: u32) -> Result<(), ContractError> {
        if !self.active {
            Err(ContractError::TierInactive)
        } else if self.minted + quantity > self.max_supply {
            Err(ContractError::CapacityExceeded)
        } else {
            Ok(())
        }
    }

    /// A new tier: nothing minted, open for sales, the advisory price at the
    /// base price. Refused where the price is not positive or the capacity is
    /// zero.
    pub fn create(
        name: String,
        base_price: i128,
        max_supply: u32,
        strategy: PricingStrategy,
    ) -> (created: Result<Tier, ContractError>)
        ensures
            created is Ok <==> base_price > 0 && max_supply > 0,
            created matches Err(e) ==> e == ContractError::InvalidParameters,
            created matches Ok(tier) ==> tier == (Tier {
                name,
                base_price,
                current_price: base_price,
                max_supply,
                minted: 0,
                active: true,
                pricing_strategy: strategy,
            }) && tier.wf(),
    {
        if base_price <= 0 || max_supply == 0 {
            return Err(ContractError::InvalidParameters);
        }
        Ok(
            Tier {
                name,
                base_price,
                current_price: base_price,
                max_supply,
                minted: 0,
                active: true,
                pricing_strategy: strategy,
            },
        )
    }

    /// The price payable now. It is computed from the tier, the
    /// configuration and the multiplier each time, and stored nowhere.
    pub fn current_price(&self, config: &PricingConfig, multiplier: u128) -> (price: i128)
        requires
            self.wf(),
        ensures
            price == self.price_under(config, multiplier as int),
            config.wf() ==> config.price_floor <= price <= config.price_ceiling,
    {
        compute_payable_price(
            self.base_price,
            self.minted,
            self.max_supply,
            self.pricing_strategy,
            config.is_frozen,
            multiplier,
            config.price_floor,
            config.price_ceiling,
        )
    }

    /// Counts `quantity` more tickets as minted. Refused, with the tier
    /// unchanged, where the tier is closed or has too few tickets left.
    pub fn mint(&mut self, quantity: u32) -> (outcome: Result<(), ContractError>)
        requires
            old(self).wf(),
        ensures
            outcome == old(self).mint_check(quantity),
            outcome is Ok ==> *final(self) == old(self).after_mint(quantity),
            outcome is Err ==> *final(self) == *old(self),
            final(self).wf(),
    {
        if !self.active {
            return Err(ContractError::TierInactive);
        }
        if quantity > self.max_supply - self.minted {
            return Err(ContractError::CapacityExceeded);
        }
        self.minted = self.minted + quantity;
        Ok(())
    }
}

/// Minting does not lower the price of a tier: for a fixed configuration and
/// multiplier, the price after a mint that the tier has room for is at least
/// the price before it.
pub proof fn lemma_mint_does_not_lower_price(
    tier: Tier,
    config: PricingConfig,
    quantity: u32,
    multiplier: int,
)
    requires
        tier.wf(),
        config.wf(),
        tier.minted + quantity <= tier.max_supply,
        0 <= multiplier,
    ensures
        tier.price_under(&config, multiplier) <= tier.after_mint(quantity).price_under(
            &config,
            multiplier,
        ),
{
    lemma_price_monotonic_in_minted(
        tier.base_price as int,
        tier.minted as int,
        tier.minted + quantity,
        tier.max_supply as int,
        tier.pricing_strategy,
        config.is_frozen,
        multiplier,
        config.price_floor as int,
        config.price_ceiling as int,
    );
}

/// Setting the freeze and lifting it again leaves a configuration that was
/// not frozen as it was; minting in between is not affected by the freeze, so
/// the price afterwards is the one that would have been payable had pricing
/// never been frozen.
pub proof fn lemma_freeze_round_trip(
    tier: Tier,
    config: PricingConfig,
    quantity: u32,
    multiplier: int,
)
    requires
        !config.is_frozen,
    ensures
        config.with_freeze(true).with_freeze(false) == config,
        tier.after_mint(quantity).price_under(
            &config.with_freeze(true).with_freeze(false),
            multiplier,
        ) == tier.after_mint(quantity).price_under(&config, multiplier),
        tier.after_mint(quantity).price_under(&config.with_freeze(true), multiplier)
            == tier.after_mint(quantity).price_under(&config, 10000),
{
    assert(tier.after_mint(quantity).demand_price() * 10000 / 10000 == tier.after_mint(
        quantity,
    ).demand_price());
}

} // verus!
