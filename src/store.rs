//! The ledger's state: the total-issuance scalar and the balance table.
use vstd::prelude::*;

use std::collections::BTreeMap;

verus! {

broadcast use vstd::std_specs::btree::group_btree_axioms;

/// Identifier of a ledger participant.
pub type AccountId = u64;

/// Units held by one account, or issued in all.
pub type Balance = u128;

/// Plain storage for the ledger. It checks no rule of the ledger: that is
/// left to the operations built on it.
pub struct Store {
    total_issuance: Balance,
    balances: BTreeMap<AccountId, Balance>,
}

impl Store {
    /// The stored total issuance.
    pub closed spec fn issuance(&self) -> Balance {
        self.total_issuance
    }

    /// The stored balance table; an account is known iff it has an entry.
    pub closed spec fn accounts(&self) -> Map<AccountId, Balance> {
        self.balances@
    }

    /// An empty store: no accounts, nothing issued.
    pub fn new() -> (s: Self)
        ensures
            s.issuance() == 0,
            s.accounts() == Map::<AccountId, Balance>::empty(),
    {
        Store { total_issuance: 0, balances: BTreeMap::new() }
    }

    /// The current total issuance.
    pub fn total_issuance(&self) -> (r: Balance)
        ensures
            r == self.issuance(),
    {
        self.total_issuance
    }

    /// The entry of `id`, or `None` where it has none (which is not a zero balance).
    pub fn balance_of(&self, id: AccountId) -> (r: Option<Balance>)
        ensures
            r == (if self.accounts().contains_key(id) {
                Some(self.accounts()[id])
            } else {
                None::<Balance>
            }),
    {
        match self.balances.get(&id) {
            Some(b) => Some(*b),
            None => None,
        }
    }

    /// Whether `id` has an entry.
    pub fn has_account(&self, id: AccountId) -> (r: bool)
        ensures
            r == self.accounts().contains_key(id),
    {
        self.balances.contains_key(&id)
    }

    /// Inserts or overwrites the entry of `id`.
    pub fn set_balance(&mut self, id: AccountId, amount: Balance)
        ensures
            final(self).accounts() == old(self).accounts().insert(id, amount),
            final(self).issuance() == old(self).issuance(),
    {
        self.balances.insert(id, amount);
    }

    /// Removes the entry of `id`, if there is one.
    pub fn remove_account(&mut self, id: AccountId)
        ensures
            final(self).accounts() == old(self).accounts().remove(id),
            final(self).issuance() == old(self).issuance(),
    {
        self.balances.remove(&id);
    }

    /// Overwrites the total issuance.
    pub fn set_total_issuance(&mut self, amount: Balance)
        ensures
            final(self).issuance() == amount,
            final(self).accounts() == old(self).accounts(),
    {
        self.total_issuance = amount;
    }
}

} // verus!
