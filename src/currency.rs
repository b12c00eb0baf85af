//! The balance ledger that the marketplace pays through, and a plain
//! in-memory ledger that implements it.
use vstd::hash_map::HashMapWithView;
use vstd::prelude::*;

verus! {

broadcast use vstd::std_specs::hash::group_hash_axioms;

/// An account identifier, as the host supplies it.
pub type AccountId = u64;

/// An amount of the fungible balance.
pub type Balance = u128;

/// Whether a transfer may take the payer below the minimum balance that
/// keeps its account alive.
#[derive(Clone, Copy, Debug, PartialEq, Eq, Structural)]
pub enum ExistenceRequirement {
    KeepAlive,
    AllowDeath,
}

/// Why a ledger refused a transfer.
#[derive(Clone, Copy, Debug, PartialEq, Eq, Structural)]
pub enum TransferError {
    /// The payer holds less than the amount.
    InsufficientBalance,
    /// The payer would drop below the minimum balance under `KeepAlive`.
    WouldReap,
    /// The recipient's balance would not fit.
    Overflow,
}

/// The balance of account `a` after `amount` moved from `from` to `to`.
pub open spec fn moved(
    before: Balance,
    a: AccountId,
    from: AccountId,
    to: AccountId,
    amount: Balance,
) -> int {
    before - (if a == from {
        amount as int
    } else {
        0
    }) + (if a == to {
        amount as int
    } else {
        0
    })
}

/// A ledger of free balances with atomic transfers.
pub trait Currency {
    /// The free balance of `who`.
    spec fn free_of(&self, who: AccountId) -> Balance;

    /// Whether a transfer of `amount` from `from` to `to` goes through.
    spec fn can_transfer(
        &self,
        from: AccountId,
        to: AccountId,
        amount: Balance,
        requirement: ExistenceRequirement,
    ) -> bool;

    /// Reads the free balance of `who`.
    fn free_balance(&self, who: AccountId) -> (r: Balance)
        ensures
            r == self.free_of(who),
    ;

    /// Moves `amount` from `from` to `to`, all of it or nothing.
    fn transfer(
        &mut self,
        from: AccountId,
        to: AccountId,
        amount: Balance,
        requirement: ExistenceRequirement,
    ) -> (r: Result<(), TransferError>)
        ensures
            r is Ok <==> old(self).can_transfer(from, to, amount, requirement),
            r is Ok ==> forall|a: AccountId|
                #[trigger] final(self).free_of(a) == moved(old(self).free_of(a), a, from, to, amount),
            r is Err ==> forall|a: AccountId| #[trigger] final(self).free_of(a) == old(self).free_of(a),
    ;
}

/// A ledger held in memory: accounts without an entry hold nothing.
pub struct Balances {
    free: HashMapWithView<AccountId, Balance>,
    existential_deposit: Balance,
}

impl View for Balances {
    type V = Map<AccountId, Balance>;

    closed spec fn view(&self) -> Map<AccountId, Balance> {
        self.free@
    }
}

impl Balances {
    /// The least balance that a `KeepAlive` transfer leaves its payer with.
    pub closed spec fn minimum(&self) -> Balance {
        self.existential_deposit
    }

    /// An empty ledger whose accounts must keep `existential_deposit` to stay alive.
    pub fn new(existential_deposit: Balance) -> (r: Self)
        ensures
            r@ == Map::<AccountId, Balance>::empty(),
            r.minimum() == existential_deposit,
    {
        Balances { free: HashMapWithView::new(), existential_deposit }
    }

    /// The least balance that keeps an account alive.
    pub fn existential_deposit(&self) -> (r: Balance)
        ensures
            r == self.minimum(),
    {
        self.existential_deposit
    }

    /// Sets the free balance of `who`, as the host's privileged origin may.
    pub fn force_set_balance(&mut self, who: AccountId, amount: Balance)
        ensures
            final(self)@ == old(self)@.insert(who, amount),
            final(self).minimum() == old(self).minimum(),
    {
        self.free.insert(who, amount);
    }

    fn balance_of(&self, who: AccountId) -> (r: Balance)
        ensures
            r == self.free_of(who),
    {
        match self.free.get(&who) {
            Some(b) => *b,
            None => 0,
        }
    }
}

impl Currency for Balances {
    open spec fn free_of(&self, who: AccountId) -> Balance {
        if self@.contains_key(who) {
            self@[who]
        } else {
            0
        }
    }

    /// A transfer to oneself always goes through and changes nothing. Otherwise
    /// the payer must hold the amount, keep the minimum under `KeepAlive`, and
    /// the recipient's balance must not overflow.
    open spec fn can_transfer(
        &self,
        from: AccountId,
        to: AccountId,
        amount: Balance,
        requirement: ExistenceRequirement,
    ) -> bool {
        from == to || {
            &&& amount <= self.free_of(from)
            &&& (requirement == ExistenceRequirement::KeepAlive ==> self.free_of(from) - amount
                >= self.minimum())
            &&& self.free_of(to) + amount <= Balance::MAX
        }
    }

    fn free_balance(&self, who: AccountId) -> (r: Balance) {
        self.balance_of(who)
    }

    fn transfer(
        &mut self,
        from: AccountId,
        to: AccountId,
        amount: Balance,
        requirement: ExistenceRequirement,
    ) -> (r: Result<(), TransferError>)
        ensures
            r == Err::<(), TransferError>(TransferError::InsufficientBalance) <==> from != to
                && amount > old(self).free_of(from),
            r == Err::<(), TransferError>(TransferError::WouldReap) <==> from != to && amount
                <= old(self).free_of(from) && requirement == ExistenceRequirement::KeepAlive
                && old(self).free_of(from) - amount < old(self).minimum(),
            r is Ok ==> final(self).minimum() == old(self).minimum(),
            r is Err ==> final(self)@ == old(self)@,
    {
        if from == to {
            return Ok(());
        }
        let payer = self.balance_of(from);
        if amount > payer {
            return Err(TransferError::InsufficientBalance);
        }
        if requirement == ExistenceRequirement::KeepAlive && payer - amount < self.existential_deposit {
            return Err(TransferError::WouldReap);
        }
        let payee = self.balance_of(to);
        if amount > Balance::MAX - payee {
            return Err(TransferError::Overflow);
        }
        self.free.insert(from, payer - amount);
        self.free.insert(to, payee + amount);
        Ok(())
    }
}

} // verus!
