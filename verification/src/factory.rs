//! The event factory as a value: who administers it, which contract code new
//! events run, and whether it creates events at the moment. The lists of
//! events per organizer are kept by the caller and handed in.

use vstd::prelude::*;
use vstd::bytes::{spec_u32_to_le_bytes, u32_to_le_bytes};
use crate::error::ContractError;
use crate::keys::Identity;

verus! {

/// A list of identities as plain values.
pub open spec fn identities(list: Seq<Identity>) -> Seq<Seq<u8>> {
    list.map_values(|identity: Identity| identity@)
}

/// The salt under which the event with number `counter` is deployed: 28 zero
/// bytes, then the number as four big-endian bytes.
pub open spec fn deployment_salt(counter: u32) -> Seq<u8> {
    Seq::new(28, |i: int| 0u8) + spec_u32_to_le_bytes(counter).reverse()
}

/// `events` without every occurrence of `event`.
pub open spec fn without_event(events: Seq<Seq<u8>>, event: Seq<u8>) -> Seq<Seq<u8>> {
    events.filter(|e: Seq<u8>| e != event)
}

/// Adding an identity to a list adds its value to the list's values.
pub proof fn lemma_identities_push(list: Seq<Identity>, identity: Identity)
    ensures
        identities(list.push(identity)) == identities(list).push(identity@),
{
    assert(identities(list.push(identity)) =~= identities(list).push(identity@));
}

/// What the caller is to deploy for a new event.
#[derive(Debug)]
pub struct DeployOrder {
    /// The hash of the contract code to run.
    pub wasm_hash: Vec<u8>,
    /// The salt that the new contract's address is derived from.
    pub salt: Vec<u8>,
}

/// The state of the event factory.
#[derive(Debug)]
pub struct EventFactoryContract {
    pub admin: Identity,
    pub event_wasm_hash: Vec<u8>,
    pub paused: bool,
    /// The number of events created so far.
    pub nonce: u32,
}

/// Executable form of [`deployment_salt`].
pub fn salt_for(counter: u32) -> (salt: Vec<u8>)
    ensures
        salt@ == deployment_salt(counter),
        salt@.len() == 32,
{
    let low_first: Vec<u8> = u32_to_le_bytes(counter);
    let mut salt: Vec<u8> = Vec::new();
    let mut i: usize = 0;
    while i < 28
        invariant
            i <= 28,
            salt@.len() == i,
            forall|j: int| 0 <= j < i ==> salt@[j] == 0u8,
        decreases 28 - i,
    {
        salt.push(0u8);
        i = i + 1;
    }
    salt.push(low_first[3]);
    salt.push(low_first[2]);
    salt.push(low_first[1]);
    salt.push(low_first[0]);
    proof {
        assert(salt@ =~= deployment_salt(counter));
    }
    salt
}

/// The events among `events` that are not `event`, in their order, and
/// whether `event` was among them.
pub fn remove_event(events: &Vec<Identity>, event: &Identity) -> (result: (Vec<Identity>, bool))
    ensures
        identities(result.0@) == without_event(identities(events@), event@),
        result.1 == identities(events@).contains(event@),
{
    let mut kept: Vec<Identity> = Vec::new();
    let mut found: bool = false;
    let mut i: usize = 0;
    while i < events.len()
        invariant
            i <= events@.len(),
            identities(kept@) == without_event(identities(events@).subrange(0, i as int), event@),
            found == identities(events@).subrange(0, i as int).contains(event@),
        decreases events@.len() - i,
    {
        proof {
            let all: Seq<Seq<u8>> = identities(events@);
            let before: Seq<Seq<u8>> = all.subrange(0, i as int);
            let after: Seq<Seq<u8>> = all.subrange(0, i + 1);
            assert(after =~= before.push(all[i as int]));
            assert(after.drop_last() =~= before);
            reveal(Seq::filter);
            assert(after.contains(event@) <==> (before.contains(event@) || all[i as int] == event@)) by {
                if before.contains(event@) {
                    let k: int = choose|k: int| 0 <= k < before.len() && before[k] == event@;
                    assert(after[k] == event@);
                }
                if all[i as int] == event@ {
                    assert(after[i as int] == event@);
                }
            }
        }
        if events[i].same_as(event) {
            found = true;
        } else {
            let copy: Identity = events[i].duplicate();
            proof {
                lemma_identities_push(kept@, copy);
            }
            kept.push(copy);
        }
        i = i + 1;
    }
    proof {
        assert(identities(events@).subrange(0, i as int) =~= identities(events@));
    }
    (kept, found)
}

impl EventFactoryContract {
    /// Sets the factory up, not paused and with no event created. Refused
    /// where the factory was set up before.
    pub fn initialize(already_initialized: bool, admin: Identity, event_wasm_hash: Vec<u8>) -> (created:
        Result<EventFactoryContract, ContractError>)
        ensures
            already_initialized ==> created == Err::<EventFactoryContract, ContractError>(
                ContractError::AlreadyInitialized,
            ),
            !already_initialized ==> created == Ok::<EventFactoryContract, ContractError>(
                EventFactoryContract { admin, event_wasm_hash, paused: false, nonce: 0 },
            ),
    {
        if already_initialized {
            return Err(ContractError::AlreadyInitialized);
        }
        Ok(EventFactoryContract { admin, event_wasm_hash, paused: false, nonce: 0 })
    }

    /// Stops the creation of events.
    pub fn pause(&mut self)
        ensures
            *final(self) == (EventFactoryContract { paused: true, ..*old(self) }),
    {
        self.paused = true;
    }

    /// Allows the creation of events again.
    pub fn unpause(&mut self)
        ensures
            *final(self) == (EventFactoryContract { paused: false, ..*old(self) }),
    {
        self.paused = false;
    }

    /// Replaces the contract code that new events run.
    pub fn update_wasm_hash(&mut self, new_wasm_hash: Vec<u8>)
        ensures
            *final(self) == (EventFactoryContract { event_wasm_hash: new_wasm_hash, ..*old(self) }),
    {
        self.event_wasm_hash = new_wasm_hash;
    }

    /// Prepares a new event: counts it and says what is to be deployed, under
    /// a salt made from the number of events created before. Refused while
    /// the factory is paused, and where the count has reached its last
    /// number.
    pub fn create_event(&mut self) -> (outcome: Result<DeployOrder, ContractError>)
        ensures
            old(self).paused ==> outcome == Err::<DeployOrder, ContractError>(
                ContractError::FactoryPaused,
            ),
            !old(self).paused && old(self).nonce == u32::MAX ==> outcome == Err::<
                DeployOrder,
                ContractError,
            >(ContractError::CounterExhausted),
            outcome is Err ==> *final(self) == *old(self),
            outcome matches Ok(order) ==> {
                &&& order.wasm_hash@ == old(self).event_wasm_hash@
                &&& order.salt@ == deployment_salt(old(self).nonce)
                &&& *final(self) == (EventFactoryContract {
                    nonce: (old(self).nonce + 1) as u32,
                    ..*old(self)
                })
            },
            outcome is Ok <==> !old(self).paused && old(self).nonce < u32::MAX,
    {
        if self.paused {
            return Err(ContractError::FactoryPaused);
        }
        if self.nonce == u32::MAX {
            return Err(ContractError::CounterExhausted);
        }
        let order = DeployOrder {
            wasm_hash: crate::keys::copy_bytes(&self.event_wasm_hash),
            salt: salt_for(self.nonce),
        };
        self.nonce = self.nonce + 1;
        Ok(order)
    }

    /// The organizer's list with a newly deployed event added at its end.
    pub fn record_event(events: Vec<Identity>, event: Identity) -> (recorded: Vec<Identity>)
        ensures
            recorded@ == events@.push(event),
    {
        let mut recorded: Vec<Identity> = events;
        recorded.push(event);
        recorded
    }

    /// The events of an organizer: the stored list, or none where nothing is
    /// stored.
    pub fn get_events_by_organizer(stored: Option<Vec<Identity>>) -> (events: Vec<Identity>)
        ensures
            events@ == match stored {
                Some(list) => list@,
                None => Seq::<Identity>::empty(),
            },
    {
        match stored {
            Some(list) => list,
            None => Vec::new(),
        }
    }

    /// Moves an event from one organizer to another. Given the lists of both,
    /// returns the giver's list without the event and the receiver's list
    /// with the event at its end. Refused where the giver's list does not
    /// hold the event.
    pub fn transfer_event_ownership(
        event: &Identity,
        from_events: &Vec<Identity>,
        to_events: &Vec<Identity>,
    ) -> (outcome: Result<(Vec<Identity>, Vec<Identity>), ContractError>)
        ensures
            outcome is Ok <==> identities(from_events@).contains(event@),
            outcome matches Err(e) ==> e == ContractError::EventNotOwned,
            outcome matches Ok(lists) ==> {
                &&& identities(lists.0@) == without_event(identities(from_events@), event@)
                &&& identities(lists.1@) == identities(to_events@).push(event@)
            },
    {
        let (kept, found) = remove_event(from_events, event);
        if !found {
            return Err(ContractError::EventNotOwned);
        }
        let mut received: Vec<Identity> = Vec::new();
        let mut i: usize = 0;
        while i < to_events.len()
            invariant
                i <= to_events@.len(),
                identities(received@) == identities(to_events@).subrange(0, i as int),
            decreases to_events@.len() - i,
        {
            let copy: Identity = to_events[i].duplicate();
            proof {
                lemma_identities_push(received@, copy);
                assert(identities(to_events@).subrange(0, i + 1) =~= identities(
                    to_events@,
                ).subrange(0, i as int).push(copy@));
            }
            received.push(copy);
            i = i + 1;
        }
        let copy: Identity = event.duplicate();
        proof {
            lemma_identities_push(received@, copy);
            assert(identities(to_events@).subrange(0, i as int) =~= identities(to_events@));
        }
        received.push(copy);
        Ok((kept, received))
    }
}

} // verus!
