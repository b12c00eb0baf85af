//! The registry of kitties: identifiers handed out in order, one owner per
//! kitty, and the parents of each bred kitty. Nothing here is ever removed.
use crate::currency::AccountId;
use crate::dna::{combine_dna, combined, random_value, seed_of, Dna, SeedSource};
use vstd::hash_map::HashMapWithView;
use vstd::prelude::*;

verus! {

broadcast use vstd::std_specs::hash::group_hash_axioms;

/// Identifier of a kitty.
pub type KittyId = u32;

/// A kitty: its gene data, fixed once it exists.
#[derive(Clone, Copy, Debug, PartialEq, Eq)]
pub struct Kitty(pub Dna);

/// What a successful call reports.
#[derive(Clone, Copy, Debug, PartialEq, Eq)]
pub enum Event {
    KittyCreated { who: AccountId, kitty_id: KittyId, kitty: Kitty },
    KittyBreed { who: AccountId, kitty_id: KittyId, kitty: Kitty },
    KittyTransferred { who: AccountId, recipient: AccountId, kitty_id: KittyId },
    KittyOnSale { who: AccountId, kitty_id: KittyId },
    KittyBought { who: AccountId, kitty_id: KittyId },
}

/// Why a call failed. A failed call changes nothing.
#[derive(Clone, Copy, Debug, PartialEq, Eq)]
pub enum Error {
    /// The kitty does not exist, or no identifier is left to hand out.
    InvalidKittyId,
    /// Both parents are the same kitty.
    SameKittyId,
    /// The caller does not own the kitty.
    NotOwner,
    /// The kitty is listed already.
    AlreadyOnSale,
    /// The buyer owns the kitty already.
    AlreadyOwned,
    /// The kitty is not listed.
    NotOnSale,
    /// The caller's free balance does not exceed the price.
    LowBalance,
    /// No account owns the kitty.
    UnknownOwner,
    /// The ledger refused the payment.
    Transfer(crate::currency::TransferError),
}

/// The registry's state as mathematical maps.
pub struct RegistryState {
    pub next_kitty_id: KittyId,
    pub kitties: Map<KittyId, Kitty>,
    pub owners: Map<KittyId, AccountId>,
    pub parents: Map<KittyId, (KittyId, KittyId)>,
}

impl RegistryState {
    /// Every kitty lies below the next identifier and has exactly one owner;
    /// parents belong to existing kitties, and the two parents of a kitty are
    /// distinct existing kitties.
    pub open spec fn inv(self) -> bool {
        &&& forall|k: KittyId| #[trigger] self.kitties.contains_key(k) ==> k < self.next_kitty_id
        &&& self.owners.dom() == self.kitties.dom()
        &&& forall|k: KittyId| #[trigger]
            self.parents.contains_key(k) ==> {
                &&& self.kitties.contains_key(k)
                &&& self.parents[k].0 != self.parents[k].1
                &&& self.kitties.contains_key(self.parents[k].0)
                &&& self.kitties.contains_key(self.parents[k].1)
            }
    }

    /// The state once kitty `id` exists with `owner`, and the counter has moved past it.
    pub open spec fn with_kitty(self, id: KittyId, kitty: Kitty, owner: AccountId) -> RegistryState {
        RegistryState {
            next_kitty_id: (id + 1) as KittyId,
            kitties: self.kitties.insert(id, kitty),
            owners: self.owners.insert(id, owner),
            ..self
        }
    }

    /// The state once kitty `id` exists with `owner`, bred from `parents`.
    pub open spec fn with_child(
        self,
        id: KittyId,
        kitty: Kitty,
        owner: AccountId,
        parents: (KittyId, KittyId),
    ) -> RegistryState {
        RegistryState { parents: self.parents.insert(id, parents), ..self.with_kitty(id, kitty, owner) }
    }

    /// Whether kitty `id` would be bred from `id_1` and `id_2` with an
    /// identifier to spare.
    pub open spec fn can_breed(self, id_1: KittyId, id_2: KittyId) -> bool {
        &&& id_1 != id_2
        &&& self.kitties.contains_key(id_1)
        &&& self.kitties.contains_key(id_2)
        &&& self.next_kitty_id < KittyId::MAX
    }
}

/// The kitties, their owners and their parents.
pub struct Registry {
    next_kitty_id: KittyId,
    kitties: HashMapWithView<KittyId, Kitty>,
    kitty_owner: HashMapWithView<KittyId, AccountId>,
    kitty_parents: HashMapWithView<KittyId, (KittyId, KittyId)>,
}

impl View for Registry {
    type V = RegistryState;

    closed spec fn view(&self) -> RegistryState {
        RegistryState {
            next_kitty_id: self.next_kitty_id,
            kitties: self.kitties@,
            owners: self.kitty_owner@,
            parents: self.kitty_parents@,
        }
    }
}

impl Registry {
    pub open spec fn well_formed(&self) -> bool {
        self@.inv()
    }

    /// An empty registry whose first kitty gets identifier 0.
    pub fn new() -> (r: Self)
        ensures
            r.well_formed(),
            r@.next_kitty_id == 0,
            r@.kitties == Map::<KittyId, Kitty>::empty(),
            r@.owners == Map::<KittyId, AccountId>::empty(),
            r@.parents == Map::<KittyId, (KittyId, KittyId)>::empty(),
    {
        let r = Registry {
            next_kitty_id: 0,
            kitties: HashMapWithView::new(),
            kitty_owner: HashMapWithView::new(),
            kitty_parents: HashMapWithView::new(),
        };
        assert(r@.owners.dom() =~= r@.kitties.dom());
        r
    }

    /// Hands out the next identifier and moves the counter past it; fails
    /// with `InvalidKittyId`, leaving the counter as it was, once the
    /// identifier space is used up.
    fn get_next_id(&mut self) -> (r: Result<KittyId, Error>)
        ensures
            old(self).next_kitty_id == KittyId::MAX ==> r == Err::<KittyId, Error>(
                Error::InvalidKittyId,
            ) && *final(self) == *old(self),
            old(self).next_kitty_id < KittyId::MAX ==> r == Ok::<KittyId, Error>(
                old(self).next_kitty_id,
            ) && final(self).next_kitty_id == old(self).next_kitty_id + 1,
            final(self).kitties == old(self).kitties,
            final(self).kitty_owner == old(self).kitty_owner,
            final(self).kitty_parents == old(self).kitty_parents,
    {
        let current_id = self.next_kitty_id;
        match current_id.checked_add(1) {
            Some(next) => {
                self.next_kitty_id = next;
                Ok(current_id)
            },
            None => Err(Error::InvalidKittyId),
        }
    }

    /// Creates a kitty for `owner` whose genes are the seed drawn for this
    /// call. The identifier is the counter's value, and the counter moves one
    /// past it. Fails with `InvalidKittyId` when no identifier is left.
    pub fn create(&mut self, owner: AccountId, source: &SeedSource) -> (r: Result<Event, Error>)
        requires
            old(self).well_formed(),
        ensures
            final(self).well_formed(),
            r is Ok <==> old(self)@.next_kitty_id < KittyId::MAX,
            r is Err ==> r == Err::<Event, Error>(Error::InvalidKittyId) && final(self)@ == old(
                self,
            )@,
            r is Ok ==> {
                let id = old(self)@.next_kitty_id;
                let kitty = final(self)@.kitties[id];
                &&& kitty.0@ == seed_of(*source, owner)
                &&& r == Ok::<Event, Error>(Event::KittyCreated { who: owner, kitty_id: id, kitty })
                &&& final(self)@ == old(self)@.with_kitty(id, kitty, owner)
            },
    {
        let kitty_id = match self.get_next_id() {
            Ok(id) => id,
            Err(e) => {
                return Err(e);
            },
        };
        let kitty = Kitty(random_value(source, owner));
        self.kitties.insert(kitty_id, kitty);
        self.kitty_owner.insert(kitty_id, owner);
        assert(self@.owners.dom() =~= self@.kitties.dom());
        assert forall|k: KittyId| #[trigger] self@.parents.contains_key(k) implies {
            &&& self@.kitties.contains_key(k)
            &&& self@.parents[k].0 != self@.parents[k].1
            &&& self@.kitties.contains_key(self@.parents[k].0)
            &&& self@.kitties.contains_key(self@.parents[k].1)
        } by {
            assert(old(self)@.parents.contains_key(k));
        }
        Ok(Event::KittyCreated { who: owner, kitty_id, kitty })
    }

    /// Breeds a kitty for `owner` from two distinct existing kitties: its
    /// genes combine the parents' under the seed drawn for this call, and its
    /// parents are recorded.
    ///
    /// Fails with `SameKittyId` when the parents are one kitty, and with
    /// `InvalidKittyId` when a parent does not exist or no identifier is left.
    pub fn breed(
        &mut self,
        owner: AccountId,
        kitty_id_1: KittyId,
        kitty_id_2: KittyId,
        source: &SeedSource,
    ) -> (r: Result<Event, Error>)
        requires
            old(self).well_formed(),
        ensures
            final(self).well_formed(),
            r == Err::<Event, Error>(Error::SameKittyId) <==> kitty_id_1 == kitty_id_2,
            r == Err::<Event, Error>(Error::InvalidKittyId) <==> kitty_id_1 != kitty_id_2
                && !old(self)@.can_breed(kitty_id_1, kitty_id_2),
            r is Ok <==> old(self)@.can_breed(kitty_id_1, kitty_id_2),
            r is Err ==> final(self)@ == old(self)@,
            r is Ok ==> {
                let id = old(self)@.next_kitty_id;
                let kitty = final(self)@.kitties[id];
                &&& kitty.0@ == combined(
                    old(self)@.kitties[kitty_id_1].0@,
                    old(self)@.kitties[kitty_id_2].0@,
                    seed_of(*source, owner),
                )
                &&& r == Ok::<Event, Error>(Event::KittyBreed { who: owner, kitty_id: id, kitty })
                &&& final(self)@ == old(self)@.with_child(id, kitty, owner, (kitty_id_1, kitty_id_2))
            },
    {
        if kitty_id_1 == kitty_id_2 {
            return Err(Error::SameKittyId);
        }
        let kitty_1 = match self.kitties.get(&kitty_id_1) {
            Some(k) => *k,
            None => {
                return Err(Error::InvalidKittyId);
            },
        };
        let kitty_2 = match self.kitties.get(&kitty_id_2) {
            Some(k) => *k,
            None => {
                return Err(Error::InvalidKittyId);
            },
        };
        let kitty_id = match self.get_next_id() {
            Ok(id) => id,
            Err(e) => {
                return Err(e);
            },
        };
        let selector = random_value(source, owner);
        let kitty = Kitty(combine_dna(&kitty_1.0, &kitty_2.0, &selector));
        self.kitties.insert(kitty_id, kitty);
        self.kitty_owner.insert(kitty_id, owner);
        self.kitty_parents.insert(kitty_id, (kitty_id_1, kitty_id_2));
        assert(self@.owners.dom() =~= self@.kitties.dom());
        assert forall|k: KittyId| #[trigger] self@.parents.contains_key(k) implies {
            &&& self@.kitties.contains_key(k)
            &&& self@.parents[k].0 != self@.parents[k].1
            &&& self@.kitties.contains_key(self@.parents[k].0)
            &&& self@.kitties.contains_key(self@.parents[k].1)
        } by {
            if k != kitty_id {
                assert(old(self)@.parents.contains_key(k));
            }
        }
        Ok(Event::KittyBreed { who: owner, kitty_id, kitty })
    }

    /// Hands kitty `kitty_id` from its owner `who` to `recipient`. A transfer
    /// to oneself is allowed and changes nothing.
    ///
    /// Fails with `UnknownOwner` when the kitty has no owner and with
    /// `NotOwner` when `who` does not own it.
    pub fn transfer(&mut self, who: AccountId, recipient: AccountId, kitty_id: KittyId) -> (r:
        Result<Event, Error>)
        requires
            old(self).well_formed(),
        ensures
            final(self).well_formed(),
            r == Err::<Event, Error>(Error::UnknownOwner) <==> !old(self)@.owners.contains_key(
                kitty_id,
            ),
            r == Err::<Event, Error>(Error::NotOwner) <==> old(self)@.owners.contains_key(kitty_id)
                && old(self)@.owners[kitty_id] != who,
            r is Ok <==> old(self)@.owners.contains_key(kitty_id) && old(self)@.owners[kitty_id]
                == who,
            r is Err ==> final(self)@ == old(self)@,
            r is Ok ==> r == Ok::<Event, Error>(
                Event::KittyTransferred { who, recipient, kitty_id },
            ) && final(self)@ == (RegistryState {
                owners: old(self)@.owners.insert(kitty_id, recipient),
                ..old(self)@
            }),
    {
        let owner = match self.kitty_owner.get(&kitty_id) {
            Some(o) => *o,
            None => {
                return Err(Error::UnknownOwner);
            },
        };
        if who != owner {
            return Err(Error::NotOwner);
        }
        self.kitty_owner.insert(kitty_id, recipient);
        assert(self@.owners.dom() =~= self@.kitties.dom());
        Ok(Event::KittyTransferred { who, recipient, kitty_id })
    }
}

impl Registry {
    /// The identifier that the next kitty will get.
    pub fn next_kitty_id(&self) -> (r: KittyId)
        ensures
            r == self@.next_kitty_id,
    {
        self.next_kitty_id
    }

    /// Moves the counter forward to `id`, as a host's storage write may;
    /// identifiers below it are not handed out any more.
    pub fn set_next_kitty_id(&mut self, id: KittyId)
        requires
            old(self).well_formed(),
            old(self)@.next_kitty_id <= id,
        ensures
            final(self).well_formed(),
            final(self)@ == (RegistryState { next_kitty_id: id, ..old(self)@ }),
    {
        self.next_kitty_id = id;
    }

    /// The kitty stored under `kitty_id`, if any.
    pub fn kitties(&self, kitty_id: KittyId) -> (r: Option<Kitty>)
        ensures
            r == (if self@.kitties.contains_key(kitty_id) {
                Some(self@.kitties[kitty_id])
            } else {
                None
            }),
    {
        match self.kitties.get(&kitty_id) {
            Some(k) => Some(*k),
            None => None,
        }
    }

    /// The owner of kitty `kitty_id`, if any.
    pub fn kitty_owner(&self, kitty_id: KittyId) -> (r: Option<AccountId>)
        ensures
            r == (if self@.owners.contains_key(kitty_id) {
                Some(self@.owners[kitty_id])
            } else {
                None
            }),
    {
        match self.kitty_owner.get(&kitty_id) {
            Some(o) => Some(*o),
            None => None,
        }
    }

    /// The parents of kitty `kitty_id`, if it was bred.
    pub fn kitty_parents(&self, kitty_id: KittyId) -> (r: Option<(KittyId, KittyId)>)
        ensures
            r == (if self@.parents.contains_key(kitty_id) {
                Some(self@.parents[kitty_id])
            } else {
                None
            }),
    {
        match self.kitty_parents.get(&kitty_id) {
            Some(p) => Some(*p),
            None => None,
        }
    }
}

} // verus!
