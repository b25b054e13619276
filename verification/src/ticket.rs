//! The ticket contract as a value: its tiers, its tickets and its pricing
//! configuration, and the operations that change them. Each operation either
//! succeeds and says what is to be paid and issued, or fails and changes
//! nothing. Authorization, payment and token issue are the caller's part.

use vstd::prelude::*;
use crate::error::ContractError;
use crate::keys::{Identity, TierKey};
use crate::oracle::{oracle_multiplier, OracleAdapter, PriceQuote};
use crate::pricing::PricingStrategy;
use crate::tier::{PricingConfig, Tier};

verus! {

/// When the event starts and until when tickets are refunded.
#[derive(Clone, Copy, Debug, PartialEq, Eq, Structural)]
pub struct EventInfo {
    pub start_time: u64,
    pub refund_cutoff_time: u64,
}

/// A ticket that was issued.
#[derive(Debug)]
pub struct Ticket {
    pub tier_symbol: TierKey,
    pub purchase_time: u64,
    pub price_paid: i128,
    /// Cleared when the ticket is refunded.
    pub is_valid: bool,
}

/// A ticket as plain values.
pub struct TicketView {
    pub tier_symbol: Seq<u8>,
    pub purchase_time: u64,
    pub price_paid: i128,
    pub is_valid: bool,
}

impl View for Ticket {
    type V = TicketView;

    open spec fn view(&self) -> TicketView {
        TicketView {
            tier_symbol: self.tier_symbol@,
            purchase_time: self.purchase_time,
            price_paid: self.price_paid,
            is_valid: self.is_valid,
        }
    }
}

/// A tier under its key.
#[derive(Debug)]
pub struct TierEntry {
    pub key: TierKey,
    pub tier: Tier,
}

/// What the caller is to carry out after a successful mint or purchase:
/// collect `charge` from the recipient and issue `count` tokens to them, the
/// last of which has the number `last_token_id`.
#[derive(Debug)]
pub struct MintOrder {
    pub recipient: Identity,
    pub last_token_id: u32,
    pub count: u32,
    pub charge: i128,
}

/// The state of one ticket sale.
#[derive(Debug)]
pub struct SoulboundTicketContract {
    admin: Identity,
    event_info: EventInfo,
    tiers: Vec<TierEntry>,
    tickets: Vec<Ticket>,
    config: PricingConfig,
}

/// Whether the entry at `i` has the key `key`.
pub open spec fn key_at(tiers: Seq<TierEntry>, key: Seq<u8>, i: int) -> bool {
    0 <= i < tiers.len() && tiers[i].key@ == key
}

/// Whether some entry has the key `key`.
pub open spec fn has_key(tiers: Seq<TierEntry>, key: Seq<u8>) -> bool {
    exists|i: int| key_at(tiers, key, i)
}

/// No two entries have the same key.
pub open spec fn keys_distinct(tiers: Seq<TierEntry>) -> bool {
    forall|i: int, j: int| key_at(tiers, tiers[j].key@, i) && 0 <= j < tiers.len() ==> i == j
}

/// The tiers by key.
pub open spec fn tier_map(tiers: Seq<TierEntry>) -> Map<Seq<u8>, Tier> {
    Map::new(
        |key: Seq<u8>| has_key(tiers, key),
        |key: Seq<u8>| tiers[choose|i: int| key_at(tiers, key, i)].tier,
    )
}

/// With distinct keys, the map holds each entry's tier under its key.
pub proof fn lemma_tier_map_at(tiers: Seq<TierEntry>, i: int)
    requires
        keys_distinct(tiers),
        0 <= i < tiers.len(),
    ensures
        tier_map(tiers).dom().contains(tiers[i].key@),
        tier_map(tiers)[tiers[i].key@] == tiers[i].tier,
{
    let key: Seq<u8> = tiers[i].key@;
    assert(key_at(tiers, key, i));
    let chosen: int = choose|j: int| key_at(tiers, key, j);
    assert(key_at(tiers, key, chosen));
    assert(chosen == i);
}

/// Adding an entry under a new key adds it to the map.
pub proof fn lemma_tier_map_push(tiers: Seq<TierEntry>, entry: TierEntry)
    requires
        keys_distinct(tiers),
        !has_key(tiers, entry.key@),
    ensures
        keys_distinct(tiers.push(entry)),
        tier_map(tiers.push(entry)) == tier_map(tiers).insert(entry.key@, entry.tier),
{
    let grown: Seq<TierEntry> = tiers.push(entry);
    assert forall|i: int, j: int| key_at(grown, grown[j].key@, i) && 0 <= j < grown.len() implies i
        == j by {
        if i < tiers.len() && j < tiers.len() {
            assert(key_at(tiers, tiers[j].key@, i));
        } else if i < tiers.len() {
            assert(key_at(tiers, entry.key@, i));
        } else if j < tiers.len() {
            assert(key_at(tiers, entry.key@, j));
        }
    }
    assert forall|key: Seq<u8>| has_key(grown, key) <==> (has_key(tiers, key) || key
        == entry.key@) by {
        if has_key(grown, key) {
            let i: int = choose|i: int| key_at(grown, key, i);
            if i < tiers.len() {
                assert(key_at(tiers, key, i));
            }
        }
        if has_key(tiers, key) {
            let i: int = choose|i: int| key_at(tiers, key, i);
            assert(key_at(grown, key, i));
        }
        if key == entry.key@ {
            assert(key_at(grown, key, tiers.len() as int));
        }
    }
    assert forall|key: Seq<u8>| has_key(grown, key) implies #[trigger] tier_map(grown)[key]
        == tier_map(tiers).insert(entry.key@, entry.tier)[key] by {
        let i: int = choose|i: int| key_at(grown, key, i);
        lemma_tier_map_at(grown, i);
        if i < tiers.len() {
            assert(key_at(tiers, key, i));
            lemma_tier_map_at(tiers, i);
        }
    }
    assert(tier_map(grown) =~= tier_map(tiers).insert(entry.key@, entry.tier));
}

/// Replacing the tier of an entry replaces it in the map.
pub proof fn lemma_tier_map_update(tiers: Seq<TierEntry>, at: int, entry: TierEntry)
    requires
        keys_distinct(tiers),
        0 <= at < tiers.len(),
        entry.key@ == tiers[at].key@,
    ensures
        keys_distinct(tiers.update(at, entry)),
        tier_map(tiers.update(at, entry)) == tier_map(tiers).insert(entry.key@, entry.tier),
{
    let changed: Seq<TierEntry> = tiers.update(at, entry);
    assert forall|i: int, j: int|
        key_at(changed, changed[j].key@, i) && 0 <= j < changed.len() implies i == j by {
        assert(changed[i].key@ == tiers[i].key@);
        assert(changed[j].key@ == tiers[j].key@);
        assert(key_at(tiers, tiers[j].key@, i));
    }
    assert forall|key: Seq<u8>| has_key(changed, key) <==> has_key(tiers, key) by {
        if has_key(changed, key) {
            let i: int = choose|i: int| key_at(changed, key, i);
            assert(changed[i].key@ == tiers[i].key@);
            assert(key_at(tiers, key, i));
        }
        if has_key(tiers, key) {
            let i: int = choose|i: int| key_at(tiers, key, i);
            assert(changed[i].key@ == tiers[i].key@);
            assert(key_at(changed, key, i));
        }
    }
    assert(key_at(tiers, entry.key@, at));
    assert forall|key: Seq<u8>| has_key(changed, key) implies #[trigger] tier_map(changed)[key]
        == tier_map(tiers).insert(entry.key@, entry.tier)[key] by {
        let i: int = choose|i: int| key_at(changed, key, i);
        lemma_tier_map_at(changed, i);
        assert(changed[i].key@ == tiers[i].key@);
        if i != at {
            lemma_tier_map_at(tiers, i);
        }
    }
    assert(tier_map(changed) =~= tier_map(tiers).insert(entry.key@, entry.tier));
}

/// Whether every entry's tier is valid.
pub open spec fn tiers_valid(tiers: Seq<TierEntry>) -> bool {
    forall|i: int| 0 <= i < tiers.len() ==> (#[trigger] tiers[i]).tier.wf()
}

impl SoulboundTicketContract {
    /// The administrator.
    pub closed spec fn admin(&self) -> Seq<u8> {
        self.admin@
    }

    /// The event's times.
    pub closed spec fn event_info(&self) -> EventInfo {
        self.event_info
    }

    /// The tiers by key.
    pub closed spec fn tiers(&self) -> Map<Seq<u8>, Tier> {
        tier_map(self.tiers@)
    }

    /// The tickets issued so far. The ticket with token number `n` stands at
    /// position `n - 1`.
    pub closed spec fn tickets(&self) -> Seq<TicketView> {
        self.tickets@.map_values(|t: Ticket| t@)
    }

    /// The pricing configuration.
    pub closed spec fn config(&self) -> PricingConfig {
        self.config
    }

    /// The state is consistent: keys are unique, every tier is valid, the
    /// price bounds are in order, and token numbers fit 32 bits.
    pub closed spec fn wf(&self) -> bool {
        &&& keys_distinct(self.tiers@)
        &&& tiers_valid(self.tiers@)
        &&& self.config.wf()
        &&& self.tickets@.len() <= u32::MAX
    }

    /// What consistency means for the values that the contracts speak of.
    pub proof fn lemma_wf(&self)
        requires
            self.wf(),
        ensures
            self.config().wf(),
            self.tickets().len() <= u32::MAX,
            forall|key: Seq<u8>| self.tiers().dom().contains(key) ==> (#[trigger] self.tiers()[key]).wf(),
    {
        assert forall|key: Seq<u8>| self.tiers().dom().contains(key) implies (
        #[trigger] self.tiers()[key]).wf() by {
            let i: int = choose|i: int| key_at(self.tiers@, key, i);
            lemma_tier_map_at(self.tiers@, i);
        }
    }

    /// Sets the contract up: no tiers, no tickets, and the configuration of a
    /// sale without a price feed. Refused where the contract was set up
    /// before.
    pub fn initialize(
        already_initialized: bool,
        admin: Identity,
        start_time: u64,
        refund_cutoff_time: u64,
        now: u64,
    ) -> (created: Result<SoulboundTicketContract, ContractError>)
        ensures
            already_initialized ==> created == Err::<SoulboundTicketContract, ContractError>(
                ContractError::AlreadyInitialized,
            ),
            !already_initialized ==> (created matches Ok(contract) && {
                &&& contract.wf()
                &&& contract.admin() == admin@
                &&& contract.event_info() == (EventInfo { start_time, refund_cutoff_time })
                &&& contract.tiers() == Map::<Seq<u8>, Tier>::empty()
                &&& contract.tickets() == Seq::<TicketView>::empty()
                &&& contract.config().is_unconfigured(admin@, now)
            }),
    {
        if already_initialized {
            return Err(ContractError::AlreadyInitialized);
        }
        let config: PricingConfig = PricingConfig::unconfigured(&admin, now);
        let contract = SoulboundTicketContract {
            admin,
            event_info: EventInfo { start_time, refund_cutoff_time },
            tiers: Vec::new(),
            tickets: Vec::new(),
            config,
        };
        proof {
            assert(contract.tiers() =~= Map::<Seq<u8>, Tier>::empty());
            assert(contract.tickets() =~= Seq::<TicketView>::empty());
        }
        Ok(contract)
    }

    /// The position of the tier with this key.
    fn find_tier(&self, key: &TierKey) -> (found: Option<usize>)
        ensures
            found matches Some(i) ==> key_at(self.tiers@, key@, i as int),
            found is None ==> !has_key(self.tiers@, key@),
    {
        let mut i: usize = 0;
        while i < self.tiers.len()
            invariant
                i <= self.tiers@.len(),
                forall|j: int| 0 <= j < i ==> !key_at(self.tiers@, key@, j),
            decreases self.tiers@.len() - i,
        {
            if self.tiers[i].key.same_as(key) {
                return Some(i);
            }
            i = i + 1;
        }
        None
    }

    /// Whether a tier with this key exists.
    pub fn has_tier(&self, tier_symbol: &TierKey) -> (found: bool)
        ensures
            found == self.tiers().dom().contains(tier_symbol@),
    {
        self.find_tier(tier_symbol).is_some()
    }

    /// The tier with this key, if there is one.
    pub fn get_tier(&self, tier_symbol: &TierKey) -> (found: Option<&Tier>)
        requires
            self.wf(),
        ensures
            found is Some <==> self.tiers().dom().contains(tier_symbol@),
            found matches Some(tier) ==> *tier == self.tiers()[tier_symbol@],
    {
        match self.find_tier(tier_symbol) {
            Some(i) => {
                proof {
                    lemma_tier_map_at(self.tiers@, i as int);
                }
                Some(&self.tiers[i].tier)
            },
            None => None,
        }
    }

    /// The pricing configuration.
    pub fn pricing_config(&self) -> (config: &PricingConfig)
        ensures
            *config == self.config(),
    {
        &self.config
    }

    /// The administrator.
    pub fn administrator(&self) -> (admin: &Identity)
        ensures
            admin@ == self.admin(),
    {
        &self.admin
    }

    /// The number of tickets issued so far, which is also the last token
    /// number given out.
    pub fn token_count(&self) -> (count: u32)
        requires
            self.wf(),
        ensures
            count == self.tickets().len(),
    {
        self.tickets.len() as u32
    }

    /// Adds a tier under a new key: nothing minted, open for sales. Refused
    /// where the key is taken, and else where the price is not positive or
    /// the capacity is zero.
    pub fn add_tier(
        &mut self,
        tier_symbol: TierKey,
        name: String,
        base_price: i128,
        max_supply: u32,
        strategy: PricingStrategy,
    ) -> (outcome: Result<(), ContractError>)
        requires
            old(self).wf(),
        ensures
            final(self).wf(),
            outcome == if old(self).tiers().dom().contains(tier_symbol@) {
                Err::<(), ContractError>(ContractError::DuplicateTier)
            } else if base_price <= 0 || max_supply == 0 {
                Err(ContractError::InvalidParameters)
            } else {
                Ok(())
            },
            outcome is Err ==> *final(self) == *old(self),
            outcome is Ok ==> {
                &&& final(self).tiers() == old(self).tiers().insert(
                    tier_symbol@,
                    Tier {
                        name,
                        base_price,
                        current_price: base_price,
                        max_supply,
                        minted: 0,
                        active: true,
                        pricing_strategy: strategy,
                    },
                )
                &&& final(self).tickets() == old(self).tickets()
                &&& final(self).config() == old(self).config()
                &&& final(self).admin() == old(self).admin()
                &&& final(self).event_info() == old(self).event_info()
            },
    {
        if self.find_tier(&tier_symbol).is_some() {
            return Err(ContractError::DuplicateTier);
        }
        match Tier::create(name, base_price, max_supply, strategy) {
            Err(e) => Err(e),
            Ok(tier) => {
                let entry = TierEntry { key: tier_symbol, tier };
                proof {
                    lemma_tier_map_push(self.tiers@, entry);
                }
                self.tiers.push(entry);
                Ok(())
            },
        }
    }

    /// The price payable now for a ticket of the tier, given the multiplier
    /// that the price feed stands at. While pricing is frozen the multiplier
    /// plays no part. Refused where no tier has this key.
    pub fn get_ticket_price(&self, tier_symbol: &TierKey, multiplier: u128) -> (price: Result<
        i128,
        ContractError,
    >)
        requires
            self.wf(),
        ensures
            !self.tiers().dom().contains(tier_symbol@) ==> price == Err::<i128, ContractError>(
                ContractError::TierNotFound,
            ),
            self.tiers().dom().contains(tier_symbol@) ==> (price matches Ok(p) && p
                == self.tiers()[tier_symbol@].price_under(&self.config(), multiplier as int)
                && self.config().price_floor <= p <= self.config().price_ceiling),
    {
        match self.find_tier(tier_symbol) {
            None => Err(ContractError::TierNotFound),
            Some(i) => {
                proof {
                    lemma_tier_map_at(self.tiers@, i as int);
                }
                Ok(self.tiers[i].tier.current_price(&self.config, multiplier))
            },
        }
    }

    /// The price payable now for a ticket of the tier, given what the two
    /// price feeds answered (`None` for a feed that could not be reached):
    /// the demand price, scaled by the multiplier that the answers stand for
    /// unless pricing is frozen, held within the bounds. Refused where no tier
    /// has this key.
    pub fn current_price(
        &self,
        tier_symbol: &TierKey,
        primary: Option<PriceQuote>,
        fallback: Option<i128>,
        now: u64,
    ) -> (price: Result<i128, ContractError>)
        requires
            self.wf(),
        ensures
            !self.tiers().dom().contains(tier_symbol@) ==> price == Err::<i128, ContractError>(
                ContractError::TierNotFound,
            ),
            self.tiers().dom().contains(tier_symbol@) ==> (price matches Ok(p) && p
                == self.tiers()[tier_symbol@].price_under(
                &self.config(),
                oracle_multiplier(&self.config(), self.admin(), primary, fallback, now),
            ) && self.config().price_floor <= p <= self.config().price_ceiling),
    {
        let multiplier: u128 = OracleAdapter::multiplier(
            &self.config,
            &self.admin,
            primary,
            fallback,
            now,
        );
        self.get_ticket_price(tier_symbol, multiplier)
    }

    /// Whether the price feed is to be asked before a price is computed.
    pub fn needs_multiplier(&self) -> (needed: bool)
        ensures
            needed == !self.config().is_frozen,
    {
        !self.config.is_frozen
    }

    /// Replaces the pricing configuration. Refused where the floor lies above
    /// the ceiling.
    pub fn set_pricing_config(&mut self, config: PricingConfig) -> (outcome: Result<
        (),
        ContractError,
    >)
        requires
            old(self).wf(),
        ensures
            final(self).wf(),
            outcome == if config.wf() {
                Ok::<(), ContractError>(())
            } else {
                Err(ContractError::InvalidParameters)
            },
            outcome is Err ==> *final(self) == *old(self),
            outcome is Ok ==> {
                &&& final(self).config() == config
                &&& final(self).tiers() == old(self).tiers()
                &&& final(self).tickets() == old(self).tickets()
                &&& final(self).admin() == old(self).admin()
                &&& final(self).event_info() == old(self).event_info()
            },
    {
        if !config.is_valid() {
            return Err(ContractError::InvalidParameters);
        }
        self.config = config;
        Ok(())
    }

    /// Sets or lifts the freeze. Nothing else changes.
    pub fn emergency_freeze(&mut self, frozen: bool)
        requires
            old(self).wf(),
        ensures
            final(self).wf(),
            final(self).config() == old(self).config().with_freeze(frozen),
            final(self).tiers() == old(self).tiers(),
            final(self).tickets() == old(self).tickets(),
            final(self).admin() == old(self).admin(),
            final(self).event_info() == old(self).event_info(),
    {
        self.config.is_frozen = frozen;
    }
}


/// The tickets that one mint issues: `quantity` valid tickets of the tier,
/// each bought at `now` for `price_per_unit`.
pub open spec fn issued_tickets(
    tier_symbol: Seq<u8>,
    quantity: u32,
    price_per_unit: i128,
    now: u64,
) -> Seq<TicketView> {
    Seq::new(
        quantity as nat,
        |i: int|
            TicketView { tier_symbol, purchase_time: now, price_paid: price_per_unit, is_valid: true },
    )
}

/// Executable form of [`issued_tickets`].
fn issue_tickets(tier_symbol: &TierKey, quantity: u32, price_per_unit: i128, now: u64) -> (fresh:
    Vec<Ticket>)
    ensures
        fresh@.map_values(|t: Ticket| t@) == issued_tickets(
            tier_symbol@,
            quantity,
            price_per_unit,
            now,
        ),
        fresh@.len() == quantity,
{
    let mut fresh: Vec<Ticket> = Vec::new();
    let mut n: u32 = 0;
    while n < quantity
        invariant
            n <= quantity,
            fresh@.len() == n,
            forall|j: int|
                0 <= j < n ==> (#[trigger] fresh@[j])@ == (TicketView {
                    tier_symbol: tier_symbol@,
                    purchase_time: now,
                    price_paid: price_per_unit,
                    is_valid: true,
                }),
        decreases quantity - n,
    {
        fresh.push(
            Ticket {
                tier_symbol: tier_symbol.duplicate(),
                purchase_time: now,
                price_paid: price_per_unit,
                is_valid: true,
            },
        );
        n = n + 1;
    }
    proof {
        assert(fresh@.map_values(|t: Ticket| t@) =~= issued_tickets(
            tier_symbol@,
            quantity,
            price_per_unit,
            now,
        ));
    }
    fresh
}

impl SoulboundTicketContract {
    /// What a mint of `quantity` tickets of the tier comes to: the last
    /// token number after it, or why it is refused.
    pub open spec fn mint_outcome(&self, tier_symbol: Seq<u8>, quantity: u32) -> Result<
        u32,
        ContractError,
    > {
        if !self.tiers().dom().contains(tier_symbol) {
            Err(ContractError::TierNotFound)
        } else if self.tiers()[tier_symbol].mint_check(quantity) is Err {
            Err(self.tiers()[tier_symbol].mint_check(quantity)->Err_0)
        } else if self.tickets().len() + quantity > u32::MAX {
            Err(ContractError::CounterExhausted)
        } else {
            Ok((self.tickets().len() + quantity) as u32)
        }
    }

    /// The state after a successful mint, told from the state before it.
    pub open spec fn minted_from(
        &self,
        before: &SoulboundTicketContract,
        tier_symbol: Seq<u8>,
        quantity: u32,
        price_per_unit: i128,
        now: u64,
    ) -> bool {
        &&& self.tiers() == before.tiers().insert(
            tier_symbol,
            before.tiers()[tier_symbol].after_mint(quantity),
        )
        &&& self.tickets() == before.tickets() + issued_tickets(
            tier_symbol,
            quantity,
            price_per_unit,
            now,
        )
        &&& self.config() == before.config()
        &&& self.admin() == before.admin()
        &&& self.event_info() == before.event_info()
    }

    /// Mints `quantity` tickets of the tier at `price_per_unit` each: the
    /// tier's count grows and the tickets are recorded. Returns the last token
    /// number given out. Refused where the tier is unknown, closed or too
    /// full, or where token numbers run out. No price is computed here: the
    /// caller says what each ticket costs.
    pub fn mint(&mut self, tier_symbol: &TierKey, quantity: u32, price_per_unit: i128, now: u64) -> (outcome:
        Result<u32, ContractError>)
        requires
            old(self).wf(),
        ensures
            final(self).wf(),
            outcome == old(self).mint_outcome(tier_symbol@, quantity),
            outcome is Err ==> *final(self) == *old(self),
            outcome is Ok ==> final(self).minted_from(
                old(self),
                tier_symbol@,
                quantity,
                price_per_unit,
                now,
            ),
    {
        let at: usize = match self.find_tier(tier_symbol) {
            None => {
                return Err(ContractError::TierNotFound);
            },
            Some(i) => i,
        };
        proof {
            lemma_tier_map_at(self.tiers@, at as int);
        }
        if !self.tiers[at].tier.active {
            return Err(ContractError::TierInactive);
        }
        if quantity > self.tiers[at].tier.max_supply - self.tiers[at].tier.minted {
            return Err(ContractError::CapacityExceeded);
        }
        let issued_before: u32 = self.tickets.len() as u32;
        if quantity > u32::MAX - issued_before {
            return Err(ContractError::CounterExhausted);
        }
        let mut entry: TierEntry = self.tiers.remove(at);
        entry.tier.minted = entry.tier.minted + quantity;
        proof {
            lemma_tier_map_update(old(self).tiers@, at as int, entry);
            assert(self.tiers@.insert(at as int, entry) =~= old(self).tiers@.update(at as int, entry));
        }
        self.tiers.insert(at, entry);
        let mut fresh: Vec<Ticket> = issue_tickets(tier_symbol, quantity, price_per_unit, now);
        proof {
            assert((self.tickets@ + fresh@).map_values(|t: Ticket| t@) =~= self.tickets@.map_values(
                |t: Ticket| t@,
            ) + fresh@.map_values(|t: Ticket| t@));
        }
        self.tickets.append(&mut fresh);
        Ok(issued_before + quantity)
    }
}


impl SoulboundTicketContract {
    /// Whether a ticket with this token number was issued.
    pub open spec fn ticket_exists(&self, token_id: u32) -> bool {
        1 <= token_id <= self.tickets().len()
    }

    /// The ticket with this token number.
    pub open spec fn ticket(&self, token_id: u32) -> TicketView {
        self.tickets()[token_id - 1]
    }

    /// Hands out `amount` tickets of the tier to `to` free of charge, as the
    /// organizer may. Refused as [`Self::mint`] is.
    pub fn batch_mint(&mut self, to: &Identity, tier_symbol: &TierKey, amount: u32, now: u64) -> (outcome:
        Result<MintOrder, ContractError>)
        requires
            old(self).wf(),
        ensures
            final(self).wf(),
            outcome is Ok <==> old(self).mint_outcome(tier_symbol@, amount) is Ok,
            outcome matches Err(e) ==> old(self).mint_outcome(tier_symbol@, amount) == Err::<
                u32,
                ContractError,
            >(e) && *final(self) == *old(self),
            outcome matches Ok(order) ==> {
                &&& order.recipient@ == to@
                &&& order.count == amount
                &&& order.charge == 0
                &&& order.last_token_id == old(self).tickets().len() + amount
                &&& final(self).minted_from(old(self), tier_symbol@, amount, 0, now)
            },
    {
        match self.mint(tier_symbol, amount, 0, now) {
            Err(e) => Err(e),
            Ok(last) => Ok(
                MintOrder {
                    recipient: to.duplicate(),
                    last_token_id: last,
                    count: amount,
                    charge: 0,
                },
            ),
        }
    }

    /// Sells one ticket of the tier to `buyer` at the price payable now,
    /// given the multiplier that the price feed stands at. Refused where the
    /// tier is unknown, closed or sold out, or where token numbers run out.
    pub fn purchase(&mut self, buyer: &Identity, tier_symbol: &TierKey, multiplier: u128, now: u64) -> (outcome:
        Result<MintOrder, ContractError>)
        requires
            old(self).wf(),
        ensures
            final(self).wf(),
            outcome is Ok <==> old(self).mint_outcome(tier_symbol@, 1) is Ok,
            outcome matches Err(e) ==> old(self).mint_outcome(tier_symbol@, 1) == Err::<
                u32,
                ContractError,
            >(e) && *final(self) == *old(self),
            outcome matches Ok(order) ==> {
                &&& order.recipient@ == buyer@
                &&& order.count == 1
                &&& order.charge == old(self).tiers()[tier_symbol@].price_under(
                    &old(self).config(),
                    multiplier as int,
                )
                &&& order.last_token_id == old(self).tickets().len() + 1
                &&& final(self).minted_from(old(self), tier_symbol@, 1, order.charge, now)
            },
    {
        let price: i128 = match self.get_ticket_price(tier_symbol, multiplier) {
            Err(e) => {
                return Err(e);
            },
            Ok(p) => p,
        };
        match self.mint(tier_symbol, 1, price, now) {
            Err(e) => Err(e),
            Ok(last) => Ok(
                MintOrder { recipient: buyer.duplicate(), last_token_id: last, count: 1, charge: price },
            ),
        }
    }

    /// What a refund of the ticket comes to when `owner` asks for it at
    /// `now` and the token belongs to `current_owner`: the amount to pay
    /// back, or why it is refused.
    pub open spec fn refund_outcome(
        &self,
        owner: Seq<u8>,
        current_owner: Seq<u8>,
        token_id: u32,
        now: u64,
    ) -> Result<i128, ContractError> {
        if !self.ticket_exists(token_id) {
            Err(ContractError::TicketNotFound)
        } else if owner != current_owner {
            Err(ContractError::Unauthorized)
        } else if now > self.event_info().refund_cutoff_time {
            Err(ContractError::RefundWindowClosed)
        } else if !self.ticket(token_id).is_valid {
            Err(ContractError::TicketInvalid)
        } else {
            Ok(self.ticket(token_id).price_paid)
        }
    }

    /// Refunds a ticket: the ticket becomes invalid, and the price paid for
    /// it is returned, to be paid back to `owner`. `current_owner` is whom the
    /// token ledger names as the token's owner. Refused where the ticket is
    /// unknown, where `owner` does not own it, after the refund cutoff, and
    /// where the ticket was refunded before.
    pub fn refund(&mut self, owner: &Identity, current_owner: &Identity, token_id: u32, now: u64) -> (outcome:
        Result<i128, ContractError>)
        requires
            old(self).wf(),
        ensures
            final(self).wf(),
            outcome == old(self).refund_outcome(owner@, current_owner@, token_id, now),
            outcome is Err ==> *final(self) == *old(self),
            outcome is Ok ==> {
                &&& final(self).tickets() == old(self).tickets().update(
                    token_id - 1,
                    TicketView { is_valid: false, ..old(self).ticket(token_id) },
                )
                &&& final(self).tiers() == old(self).tiers()
                &&& final(self).config() == old(self).config()
                &&& final(self).admin() == old(self).admin()
                &&& final(self).event_info() == old(self).event_info()
            },
    {
        if token_id == 0 || token_id as usize > self.tickets.len() {
            return Err(ContractError::TicketNotFound);
        }
        if !owner.same_as(current_owner) {
            return Err(ContractError::Unauthorized);
        }
        if now > self.event_info.refund_cutoff_time {
            return Err(ContractError::RefundWindowClosed);
        }
        let at: usize = (token_id - 1) as usize;
        if !self.tickets[at].is_valid {
            return Err(ContractError::TicketInvalid);
        }
        let mut ticket: Ticket = self.tickets.remove(at);
        let amount: i128 = ticket.price_paid;
        ticket.is_valid = false;
        proof {
            assert(self.tickets@.insert(at as int, ticket).map_values(|t: Ticket| t@) =~= old(
                self,
            ).tickets().update(
                token_id - 1,
                TicketView { is_valid: false, ..old(self).ticket(token_id) },
            ));
        }
        self.tickets.insert(at, ticket);
        Ok(amount)
    }

    /// Whether the ticket exists and has not been refunded.
    pub fn validate_ticket(&self, token_id: u32) -> (valid: bool)
        ensures
            valid == (self.ticket_exists(token_id) && self.ticket(token_id).is_valid),
    {
        if token_id == 0 || token_id as usize > self.tickets.len() {
            return false;
        }
        self.tickets[(token_id - 1) as usize].is_valid
    }

    /// The ticket with this token number, if it was issued.
    pub fn get_ticket(&self, token_id: u32) -> (found: Option<&Ticket>)
        ensures
            found is Some <==> self.ticket_exists(token_id),
            found matches Some(ticket) ==> ticket@ == self.ticket(token_id),
    {
        if token_id == 0 || token_id as usize > self.tickets.len() {
            return None;
        }
        Some(&self.tickets[(token_id - 1) as usize])
    }
}


/// Whether the parts of a stored contract fit together: keys are unique,
/// every tier is valid, the price bounds are in order, and token numbers fit
/// 32 bits.
pub open spec fn parts_valid(
    tiers: Seq<TierEntry>,
    tickets: Seq<Ticket>,
    config: &PricingConfig,
) -> bool {
    &&& keys_distinct(tiers)
    &&& tiers_valid(tiers)
    &&& config.wf()
    &&& tickets.len() <= u32::MAX
}

/// Whether no two entries have the same key and every tier is valid.
fn entries_valid(tiers: &Vec<TierEntry>) -> (valid: bool)
    ensures
        valid == (keys_distinct(tiers@) && tiers_valid(tiers@)),
{
    let mut i: usize = 0;
    while i < tiers.len()
        invariant
            i <= tiers@.len(),
            forall|a: int, b: int|
                0 <= a < b < i ==> (#[trigger] tiers@[a]).key@ != (#[trigger] tiers@[b]).key@,
            forall|a: int| 0 <= a < i ==> (#[trigger] tiers@[a]).tier.wf(),
        decreases tiers@.len() - i,
    {
        if tiers[i].tier.base_price <= 0 || tiers[i].tier.minted > tiers[i].tier.max_supply {
            proof {
                assert(!tiers@[i as int].tier.wf());
            }
            return false;
        }
        let mut j: usize = 0;
        while j < i
            invariant
                j <= i < tiers@.len(),
                forall|a: int| 0 <= a < j ==> (#[trigger] tiers@[a]).key@ != tiers@[i as int].key@,
            decreases i - j,
        {
            if tiers[j].key.same_as(&tiers[i].key) {
                proof {
                    assert(key_at(tiers@, tiers@[i as int].key@, j as int));
                }
                return false;
            }
            j = j + 1;
        }
        i = i + 1;
    }
    proof {
        assert forall|a: int, b: int| key_at(tiers@, tiers@[b].key@, a) && 0 <= b < tiers@.len() implies a
            == b by {
            if a < b {
                assert(tiers@[a].key@ != tiers@[b].key@);
            } else if b < a {
                assert(tiers@[b].key@ != tiers@[a].key@);
            }
        }
    }
    true
}

impl SoulboundTicketContract {
    /// Puts a contract together again from its stored parts. Refused where
    /// the parts do not fit together.
    pub fn restore(
        admin: Identity,
        event_info: EventInfo,
        tiers: Vec<TierEntry>,
        tickets: Vec<Ticket>,
        config: PricingConfig,
    ) -> (restored: Result<SoulboundTicketContract, ContractError>)
        ensures
            restored is Ok <==> parts_valid(tiers@, tickets@, &config),
            restored matches Err(e) ==> e == ContractError::InvalidParameters,
            restored matches Ok(contract) ==> {
                &&& contract.wf()
                &&& contract.admin() == admin@
                &&& contract.event_info() == event_info
                &&& contract.tiers() == tier_map(tiers@)
                &&& contract.tickets() == tickets@.map_values(|t: Ticket| t@)
                &&& contract.config() == config
            },
    {
        if !entries_valid(&tiers) || !config.is_valid() || tickets.len() > u32::MAX as usize {
            return Err(ContractError::InvalidParameters);
        }
        Ok(SoulboundTicketContract { admin, event_info, tiers, tickets, config })
    }

    /// The tiers with their keys, in the order they were added.
    pub fn tier_entries(&self) -> (entries: &Vec<TierEntry>)
        requires
            self.wf(),
        ensures
            keys_distinct(entries@),
            tiers_valid(entries@),
            tier_map(entries@) == self.tiers(),
    {
        &self.tiers
    }

    /// The tickets issued so far, by token number.
    pub fn issued(&self) -> (tickets: &Vec<Ticket>)
        ensures
            tickets@.map_values(|t: Ticket| t@) == self.tickets(),
    {
        &self.tickets
    }

    /// The event's times.
    pub fn event_times(&self) -> (info: EventInfo)
        ensures
            info == self.event_info(),
    {
        self.event_info
    }
}


} // verus!
