//! The marketplace over the registry: kitties cost a fixed price to create
//! or breed, paid into the pallet's own account, and owners may list them
//! for sale to any account that pays the price. Each call is atomic.
use crate::currency::{moved, AccountId, Balance, Currency, ExistenceRequirement};
use crate::dna::{combined, seed_of, SeedSource};
use crate::registry::{Error, Event, Kitty, KittyId, Registry, RegistryState};
use crate::scale::le_value;
use frame_support::PalletId;
use sp_runtime::traits::AccountIdConversion;
use vstd::hash_map::HashMapWithView;
use vstd::prelude::*;

verus! {

broadcast use vstd::std_specs::hash::group_hash_axioms;

/// The pallet's state as mathematical values.
pub struct PalletState {
    pub registry: RegistryState,
    pub on_sale: Map<KittyId, AccountId>,
    pub price: Balance,
    pub escrow: AccountId,
}

impl PalletState {
    /// The registry is consistent and only existing kitties are listed.
    pub open spec fn inv(self) -> bool {
        &&& self.registry.inv()
        &&& forall|k: KittyId| #[trigger]
            self.on_sale.contains_key(k) ==> self.registry.kitties.contains_key(k)
    }
}

/// No balance of the ledger changed.
pub open spec fn ledger_unchanged<C: Currency>(before: C, after: C) -> bool {
    forall|a: AccountId| #[trigger] after.free_of(a) == before.free_of(a)
}

/// Exactly `amount` moved from `from` to `to`.
pub open spec fn ledger_paid<C: Currency>(
    before: C,
    after: C,
    from: AccountId,
    to: AccountId,
    amount: Balance,
) -> bool {
    forall|a: AccountId| #[trigger] after.free_of(a) == moved(before.free_of(a), a, from, to, amount)
}

/// The account of a pallet: the bytes `modl` followed by the pallet id, of
/// which an eight-byte account keeps the first eight, read little-endian.
pub open spec fn pallet_account_of(id: Seq<u8>) -> nat {
    le_value(seq![109u8, 111u8, 100u8, 108u8] + id.subrange(0, 4))
}

/// Relies on sp_runtime's `AccountIdConversion::into_account_truncating` for
/// frame_support's `PalletId`: it decodes a `u64` account from `modl ++ id`,
/// padded with zeroes, so from the first eight of those bytes.
#[verifier::external_body]
fn into_account_truncating(id: [u8; 8]) -> (r: AccountId)
    ensures
        r as nat == pallet_account_of(id@),
{
    PalletId(id).into_account_truncating()
}

/// The registry of kitties with its marketplace.
pub struct Pallet {
    registry: Registry,
    kitty_on_sale: HashMapWithView<KittyId, AccountId>,
    price: Balance,
    account: AccountId,
}

impl View for Pallet {
    type V = PalletState;

    closed spec fn view(&self) -> PalletState {
        PalletState {
            registry: self.registry@,
            on_sale: self.kitty_on_sale@,
            price: self.price,
            escrow: self.account,
        }
    }
}

impl Pallet {
    pub open spec fn well_formed(&self) -> bool {
        self@.inv()
    }

    /// An empty registry selling at `price`, whose fees go to the account of `pallet_id`.
    pub fn new(price: Balance, pallet_id: [u8; 8]) -> (r: Self)
        ensures
            r.well_formed(),
            r@.registry.next_kitty_id == 0,
            r@.registry.kitties == Map::<KittyId, Kitty>::empty(),
            r@.registry.owners == Map::<KittyId, AccountId>::empty(),
            r@.registry.parents == Map::<KittyId, (KittyId, KittyId)>::empty(),
            r@.on_sale == Map::<KittyId, AccountId>::empty(),
            r@.price == price,
            r@.escrow as nat == pallet_account_of(pallet_id@),
    {
        Pallet {
            registry: Registry::new(),
            kitty_on_sale: HashMapWithView::new(),
            price,
            account: into_account_truncating(pallet_id),
        }
    }

    /// Creates a kitty for `who`, with the seed drawn for this call as its
    /// genes, and charges the price into the pallet's account.
    ///
    /// Fails with `InvalidKittyId` when no identifier is left, with
    /// `LowBalance` when the free balance of `who` does not exceed the price,
    /// and with `Transfer` when the ledger refuses the payment.
    pub fn create<C: Currency>(&mut self, ledger: &mut C, who: AccountId, source: &SeedSource) -> (r:
        Result<Event, Error>)
        requires
            old(self).well_formed(),
        ensures
            final(self).well_formed(),
            r == Err::<Event, Error>(Error::InvalidKittyId) <==> old(self)@.registry.next_kitty_id
                == KittyId::MAX,
            r == Err::<Event, Error>(Error::LowBalance) <==> old(self)@.registry.next_kitty_id
                < KittyId::MAX && old(ledger).free_of(who) <= old(self)@.price,
            r is Ok <==> old(self)@.registry.next_kitty_id < KittyId::MAX && old(self)@.price < old(
                ledger,
            ).free_of(who) && old(ledger).can_transfer(
                who,
                old(self)@.escrow,
                old(self)@.price,
                ExistenceRequirement::KeepAlive,
            ),
            r is Err ==> final(self)@ == old(self)@ && ledger_unchanged(*old(ledger), *final(ledger)),
            r is Ok ==> {
                let id = old(self)@.registry.next_kitty_id;
                let kitty = final(self)@.registry.kitties[id];
                &&& kitty.0@ == seed_of(*source, who)
                &&& r == Ok::<Event, Error>(Event::KittyCreated { who, kitty_id: id, kitty })
                &&& final(self)@ == (PalletState {
                    registry: old(self)@.registry.with_kitty(id, kitty, who),
                    ..old(self)@
                })
                &&& ledger_paid(*old(ledger), *final(ledger), who, old(self)@.escrow, old(self)@.price)
            },
    {
        if self.registry.next_kitty_id() == KittyId::MAX {
            return Err(Error::InvalidKittyId);
        }
        let price = self.price;
        let balance = ledger.free_balance(who);
        if price >= balance {
            return Err(Error::LowBalance);
        }
        match ledger.transfer(who, self.account, price, ExistenceRequirement::KeepAlive) {
            Ok(()) => {},
            Err(e) => {
                return Err(Error::Transfer(e));
            },
        }
        let r = self.registry.create(who, source);
        assert forall|k: KittyId| #[trigger] self@.on_sale.contains_key(k) implies self@.registry.kitties.contains_key(k) by {
            assert(old(self)@.on_sale.contains_key(k));
        }
        r
    }

    /// Breeds a kitty for `who` from two distinct existing kitties: its genes
    /// combine the parents' under the seed drawn for this call. The price is
    /// charged into the pallet's account, and the parents are recorded.
    ///
    /// Fails with `SameKittyId` when the parents are one kitty, with
    /// `InvalidKittyId` when a parent does not exist or no identifier is left,
    /// with `LowBalance` when the free balance of `who` does not exceed the
    /// price, and with `Transfer` when the ledger refuses the payment.
    pub fn breed<C: Currency>(
        &mut self,
        ledger: &mut C,
        who: AccountId,
        kitty_id_1: KittyId,
        kitty_id_2: KittyId,
        source: &SeedSource,
    ) -> (r: Result<Event, Error>)
        requires
            old(self).well_formed(),
        ensures
            final(self).well_formed(),
            r == Err::<Event, Error>(Error::SameKittyId) <==> kitty_id_1 == kitty_id_2,
            r == Err::<Event, Error>(Error::InvalidKittyId) <==> kitty_id_1 != kitty_id_2 && !old(
                self,
            )@.registry.can_breed(kitty_id_1, kitty_id_2),
            r == Err::<Event, Error>(Error::LowBalance) <==> old(self)@.registry.can_breed(
                kitty_id_1,
                kitty_id_2,
            ) && old(ledger).free_of(who) <= old(self)@.price,
            r is Ok <==> old(self)@.registry.can_breed(kitty_id_1, kitty_id_2) && old(self)@.price
                < old(ledger).free_of(who) && old(ledger).can_transfer(
                who,
                old(self)@.escrow,
                old(self)@.price,
                ExistenceRequirement::KeepAlive,
            ),
            r is Err ==> final(self)@ == old(self)@ && ledger_unchanged(*old(ledger), *final(ledger)),
            r is Ok ==> {
                let id = old(self)@.registry.next_kitty_id;
                let kitty = final(self)@.registry.kitties[id];
                &&& kitty.0@ == combined(
                    old(self)@.registry.kitties[kitty_id_1].0@,
                    old(self)@.registry.kitties[kitty_id_2].0@,
                    seed_of(*source, who),
                )
                &&& r == Ok::<Event, Error>(Event::KittyBreed { who, kitty_id: id, kitty })
                &&& final(self)@ == (PalletState {
                    registry: old(self)@.registry.with_child(
                        id,
                        kitty,
                        who,
                        (kitty_id_1, kitty_id_2),
                    ),
                    ..old(self)@
                })
                &&& ledger_paid(*old(ledger), *final(ledger), who, old(self)@.escrow, old(self)@.price)
            },
    {
        if kitty_id_1 == kitty_id_2 {
            return Err(Error::SameKittyId);
        }
        if self.registry.kitties(kitty_id_1).is_none() || self.registry.kitties(kitty_id_2).is_none()
            || self.registry.next_kitty_id() == KittyId::MAX {
            return Err(Error::InvalidKittyId);
        }
        let price = self.price;
        let balance = ledger.free_balance(who);
        if price >= balance {
            return Err(Error::LowBalance);
        }
        match ledger.transfer(who, self.account, price, ExistenceRequirement::KeepAlive) {
            Ok(()) => {},
            Err(e) => {
                return Err(Error::Transfer(e));
            },
        }
        let r = self.registry.breed(who, kitty_id_1, kitty_id_2, source);
        assert forall|k: KittyId| #[trigger] self@.on_sale.contains_key(k) implies self@.registry.kitties.contains_key(k) by {
            assert(old(self)@.on_sale.contains_key(k));
        }
        r
    }

    /// Hands kitty `kitty_id` from its owner `who` to `recipient`. A transfer
    /// to oneself is allowed and changes nothing. A listing of the kitty stays
    /// in place: it goes only when the kitty is bought, and the price then
    /// goes to whoever owns the kitty at that time.
    ///
    /// Fails with `UnknownOwner` when the kitty has no owner and with
    /// `NotOwner` when `who` does not own it.
    pub fn transfer(&mut self, who: AccountId, recipient: AccountId, kitty_id: KittyId) -> (r:
        Result<Event, Error>)
        requires
            old(self).well_formed(),
        ensures
            final(self).well_formed(),
            r == Err::<Event, Error>(Error::UnknownOwner) <==> !old(
                self,
            )@.registry.owners.contains_key(kitty_id),
            r == Err::<Event, Error>(Error::NotOwner) <==> old(self)@.registry.owners.contains_key(
                kitty_id,
            ) && old(self)@.registry.owners[kitty_id] != who,
            r is Ok <==> old(self)@.registry.owners.contains_key(kitty_id)
                && old(self)@.registry.owners[kitty_id] == who,
            r is Err ==> final(self)@ == old(self)@,
            r is Ok ==> r == Ok::<Event, Error>(
                Event::KittyTransferred { who, recipient, kitty_id },
            ) && final(self)@ == (PalletState {
                registry: RegistryState {
                    owners: old(self)@.registry.owners.insert(kitty_id, recipient),
                    ..old(self)@.registry
                },
                ..old(self)@
            }),
    {
        self.registry.transfer(who, recipient, kitty_id)
    }

    /// Lists kitty `kitty_id` for sale by its owner `who`.
    ///
    /// Fails with `InvalidKittyId` when the kitty does not exist, with
    /// `NotOwner` when `who` does not own it, and with `AlreadyOnSale` when it
    /// is listed already.
    pub fn sale(&mut self, who: AccountId, kitty_id: KittyId) -> (r: Result<Event, Error>)
        requires
            old(self).well_formed(),
        ensures
            final(self).well_formed(),
            r == Err::<Event, Error>(Error::InvalidKittyId) <==> !old(
                self,
            )@.registry.kitties.contains_key(kitty_id),
            r == Err::<Event, Error>(Error::NotOwner) <==> old(self)@.registry.kitties.contains_key(
                kitty_id,
            ) && old(self)@.registry.owners[kitty_id] != who,
            r == Err::<Event, Error>(Error::AlreadyOnSale) <==> old(
                self,
            )@.registry.kitties.contains_key(kitty_id) && old(self)@.registry.owners[kitty_id]
                == who && old(self)@.on_sale.contains_key(kitty_id),
            r is Ok <==> old(self)@.registry.kitties.contains_key(kitty_id)
                && old(self)@.registry.owners[kitty_id] == who && !old(self)@.on_sale.contains_key(
                kitty_id,
            ),
            r is Err ==> final(self)@ == old(self)@,
            r is Ok ==> r == Ok::<Event, Error>(Event::KittyOnSale { who, kitty_id })
                && final(self)@ == (PalletState {
                on_sale: old(self)@.on_sale.insert(kitty_id, who),
                ..old(self)@
            }),
    {
        if self.registry.kitties(kitty_id).is_none() {
            return Err(Error::InvalidKittyId);
        }
        match self.registry.kitty_owner(kitty_id) {
            Some(o) => {
                if o != who {
                    return Err(Error::NotOwner);
                }
            },
            None => {
                return Err(Error::NotOwner);
            },
        }
        if self.kitty_on_sale.contains_key(&kitty_id) {
            return Err(Error::AlreadyOnSale);
        }
        self.kitty_on_sale.insert(kitty_id, who);
        Ok(Event::KittyOnSale { who, kitty_id })
    }

    /// Buys listed kitty `kitty_id` for `who`: the price goes from `who`
    /// straight to the current owner, the kitty to `who`, and the listing is
    /// removed, all together or not at all.
    ///
    /// Fails with `InvalidKittyId` when the kitty does not exist, with
    /// `AlreadyOwned` when `who` owns it, with `NotOnSale` when it is not
    /// listed, with `LowBalance` when the free balance of `who` does not
    /// exceed the price, and with `Transfer` when the ledger refuses the
    /// payment.
    pub fn buy<C: Currency>(&mut self, ledger: &mut C, who: AccountId, kitty_id: KittyId) -> (r:
        Result<Event, Error>)
        requires
            old(self).well_formed(),
        ensures
            final(self).well_formed(),
            r == Err::<Event, Error>(Error::InvalidKittyId) <==> !old(
                self,
            )@.registry.kitties.contains_key(kitty_id),
            r == Err::<Event, Error>(Error::AlreadyOwned) <==> old(
                self,
            )@.registry.kitties.contains_key(kitty_id) && old(self)@.registry.owners[kitty_id]
                == who,
            r == Err::<Event, Error>(Error::NotOnSale) <==> old(self)@.registry.kitties.contains_key(
                kitty_id,
            ) && old(self)@.registry.owners[kitty_id] != who && !old(self)@.on_sale.contains_key(
                kitty_id,
            ),
            r == Err::<Event, Error>(Error::LowBalance) <==> old(self)@.registry.kitties.contains_key(
                kitty_id,
            ) && old(self)@.registry.owners[kitty_id] != who && old(self)@.on_sale.contains_key(
                kitty_id,
            ) && old(ledger).free_of(who) <= old(self)@.price,
            r is Ok <==> old(self)@.registry.kitties.contains_key(kitty_id)
                && old(self)@.registry.owners[kitty_id] != who && old(self)@.on_sale.contains_key(
                kitty_id,
            ) && old(self)@.price < old(ledger).free_of(who) && old(ledger).can_transfer(
                who,
                old(self)@.registry.owners[kitty_id],
                old(self)@.price,
                ExistenceRequirement::KeepAlive,
            ),
            r is Err ==> final(self)@ == old(self)@ && ledger_unchanged(*old(ledger), *final(ledger)),
            r is Ok ==> {
                &&& r == Ok::<Event, Error>(Event::KittyBought { who, kitty_id })
                &&& final(self)@ == (PalletState {
                    registry: RegistryState {
                        owners: old(self)@.registry.owners.insert(kitty_id, who),
                        ..old(self)@.registry
                    },
                    on_sale: old(self)@.on_sale.remove(kitty_id),
                    ..old(self)@
                })
                &&& ledger_paid(
                    *old(ledger),
                    *final(ledger),
                    who,
                    old(self)@.registry.owners[kitty_id],
                    old(self)@.price,
                )
            },
    {
        if self.registry.kitties(kitty_id).is_none() {
            return Err(Error::InvalidKittyId);
        }
        let owner = match self.registry.kitty_owner(kitty_id) {
            Some(o) => o,
            None => {
                return Err(Error::InvalidKittyId);
            },
        };
        if owner == who {
            return Err(Error::AlreadyOwned);
        }
        if !self.kitty_on_sale.contains_key(&kitty_id) {
            return Err(Error::NotOnSale);
        }
        let price = self.price;
        let balance = ledger.free_balance(who);
        if price >= balance {
            return Err(Error::LowBalance);
        }
        match ledger.transfer(who, owner, price, ExistenceRequirement::KeepAlive) {
            Ok(()) => {},
            Err(e) => {
                return Err(Error::Transfer(e));
            },
        }
        let _ = self.registry.transfer(owner, who, kitty_id);
        self.kitty_on_sale.remove(&kitty_id);
        Ok(Event::KittyBought { who, kitty_id })
    }
}

impl Pallet {
    /// The identifier that the next kitty will get.
    pub fn next_kitty_id(&self) -> (r: KittyId)
        ensures
            r == self@.registry.next_kitty_id,
    {
        self.registry.next_kitty_id()
    }

    /// Moves the counter forward to `id`, as a host's storage write may;
    /// identifiers below it are not handed out any more.
    pub fn set_next_kitty_id(&mut self, id: KittyId)
        requires
            old(self).well_formed(),
            old(self)@.registry.next_kitty_id <= id,
        ensures
            final(self).well_formed(),
            final(self)@ == (PalletState {
                registry: RegistryState { next_kitty_id: id, ..old(self)@.registry },
                ..old(self)@
            }),
    {
        self.registry.set_next_kitty_id(id);
    }

    /// The kitty stored under `kitty_id`, if any.
    pub fn kitties(&self, kitty_id: KittyId) -> (r: Option<Kitty>)
        ensures
            r == (if self@.registry.kitties.contains_key(kitty_id) {
                Some(self@.registry.kitties[kitty_id])
            } else {
                None
            }),
    {
        self.registry.kitties(kitty_id)
    }

    /// The owner of kitty `kitty_id`, if any.
    pub fn kitty_owner(&self, kitty_id: KittyId) -> (r: Option<AccountId>)
        ensures
            r == (if self@.registry.owners.contains_key(kitty_id) {
                Some(self@.registry.owners[kitty_id])
            } else {
                None
            }),
    {
        self.registry.kitty_owner(kitty_id)
    }

    /// The parents of kitty `kitty_id`, if it was bred.
    pub fn kitty_parents(&self, kitty_id: KittyId) -> (r: Option<(KittyId, KittyId)>)
        ensures
            r == (if self@.registry.parents.contains_key(kitty_id) {
                Some(self@.registry.parents[kitty_id])
            } else {
                None
            }),
    {
        self.registry.kitty_parents(kitty_id)
    }

    /// The account that listed kitty `kitty_id`, if it is for sale.
    pub fn kitty_on_sale(&self, kitty_id: KittyId) -> (r: Option<AccountId>)
        ensures
            r == (if self@.on_sale.contains_key(kitty_id) {
                Some(self@.on_sale[kitty_id])
            } else {
                None
            }),
    {
        match self.kitty_on_sale.get(&kitty_id) {
            Some(a) => Some(*a),
            None => None,
        }
    }

    /// The price of creating, breeding or buying a kitty.
    pub fn kitty_price(&self) -> (r: Balance)
        ensures
            r == self@.price,
    {
        self.price
    }

    /// The pallet's own account, which collects the fees.
    pub fn get_account_id(&self) -> (r: AccountId)
        ensures
            r == self@.escrow,
    {
        self.account
    }
}

} // verus!
