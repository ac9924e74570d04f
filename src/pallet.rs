//! The ledger and its two operations, minting and transfer.
use vstd::prelude::*;

use crate::store::{AccountId, Balance, Store};
use crate::sum::{
    lemma_total_insert_new, lemma_total_remove, lemma_total_two, lemma_total_update, total_of,
};

verus! {

/// The settings a ledger is built with.
#[derive(Clone, Copy, Debug, PartialEq, Eq)]
pub struct Config {
    /// The least balance an account may be created with.
    pub min_deposit: Balance,
}

impl Config {
    pub fn new(min_deposit: Balance) -> (c: Self)
        ensures
            c.min_deposit == min_deposit,
    {
        Config { min_deposit }
    }

    /// The minimum deposit.
    pub fn ed(&self) -> (r: Balance)
        ensures
            r == self.min_deposit,
    {
        self.min_deposit
    }
}

/// Who makes a request, as authenticated by the host.
#[derive(Clone, Copy, Debug, PartialEq, Eq)]
pub enum Origin {
    /// A caller that signed for this account.
    Signed(AccountId),
    /// A caller with no authenticated identity.
    Unsigned,
}

/// The account of a signed caller; `None` for an unsigned one.
pub fn ensure_signed(origin: Origin) -> (r: Option<AccountId>)
    ensures
        r == (match origin {
            Origin::Signed(who) => Some(who),
            Origin::Unsigned => None::<AccountId>,
        }),
{
    match origin {
        Origin::Signed(who) => Some(who),
        Origin::Unsigned => None,
    }
}

/// Why a mint was refused.
#[derive(Clone, Copy, Debug, PartialEq, Eq)]
pub enum MintError {
    Unauthorized,
    BelowMinimumDeposit,
    AccountAlreadyExists,
    /// The total issuance would exceed what a `Balance` holds.
    ArithmeticOverflow,
}

/// Why a transfer was refused.
#[derive(Clone, Copy, Debug, PartialEq, Eq)]
pub enum TransferError {
    Unauthorized,
    /// The caller has no account, or less than the amount in it.
    InsufficientFunds,
    /// The sender would keep a nonzero balance under the minimum deposit.
    WouldLeaveDust,
    /// A new recipient would be created with less than the minimum deposit.
    RecipientBelowMinimumDeposit,
}

/// The balance of `id` in `m`, zero where it has no entry.
pub open spec fn held(m: Map<AccountId, Balance>, id: AccountId) -> int {
    if m.contains_key(id) {
        m[id] as int
    } else {
        0
    }
}

/// The table after `amount` moves from `from` to a distinct `to`: a sender
/// left with nothing loses its entry, a new recipient gains one.
pub open spec fn moved(
    m: Map<AccountId, Balance>,
    from: AccountId,
    to: AccountId,
    amount: Balance,
) -> Map<AccountId, Balance> {
    let debited = if m[from] == amount {
        m.remove(from)
    } else {
        m.insert(from, (m[from] - amount) as Balance)
    };
    debited.insert(to, (held(m, to) + amount) as Balance)
}

/// The ledger: total issuance, balances, and the minimum deposit it was
/// configured with.
pub struct Pallet {
    config: Config,
    store: Store,
}

impl Pallet {
    /// The total issuance.
    pub closed spec fn issuance(&self) -> Balance {
        self.store.issuance()
    }

    /// The balance table.
    pub closed spec fn accounts(&self) -> Map<AccountId, Balance> {
        self.store.accounts()
    }

    /// The minimum deposit of this ledger.
    pub closed spec fn min_deposit(&self) -> Balance {
        self.config.min_deposit
    }

    /// The ledger's invariant: the table is finite, the total issuance is the
    /// sum of the balances, and no balance is under the minimum deposit.
    pub open spec fn wf(&self) -> bool {
        &&& self.accounts().dom().finite()
        &&& self.issuance() == total_of(self.accounts())
        &&& forall|id: AccountId| #[trigger]
            self.accounts().contains_key(id) ==> self.accounts()[id] >= self.min_deposit()
    }

    /// Whether `q` holds the same state as `self`.
    pub open spec fn same_state(&self, q: &Pallet) -> bool {
        &&& q.issuance() == self.issuance()
        &&& q.accounts() == self.accounts()
        &&& q.min_deposit() == self.min_deposit()
    }

    /// The error a mint by `origin` of `amount` meets, checked in this
    /// order; `None` where it succeeds.
    pub open spec fn mint_error(&self, origin: Origin, amount: Balance) -> Option<MintError> {
        match origin {
            Origin::Unsigned => Some(MintError::Unauthorized),
            Origin::Signed(who) => if amount < self.min_deposit() {
                Some(MintError::BelowMinimumDeposit)
            } else if self.accounts().contains_key(who) {
                Some(MintError::AccountAlreadyExists)
            } else if self.issuance() + amount > Balance::MAX {
                Some(MintError::ArithmeticOverflow)
            } else {
                None
            },
        }
    }

    /// `q` and `r` are what a mint by `origin` of `amount` on `self` leaves
    /// and returns: on success a new entry and as much more issued, on an
    /// error no change at all.
    pub open spec fn mint_step(
        &self,
        q: &Pallet,
        origin: Origin,
        amount: Balance,
        r: Result<(), MintError>,
    ) -> bool {
        &&& q.min_deposit() == self.min_deposit()
        &&& match self.mint_error(origin, amount) {
            Some(e) => r == Err::<(), MintError>(e) && self.same_state(q),
            None => {
                &&& r == Ok::<(), MintError>(())
                &&& origin matches Origin::Signed(who)
                &&& q.accounts() == self.accounts().insert(who, amount)
                &&& q.issuance() == self.issuance() + amount
            },
        }
    }

    /// The error a transfer by `origin` of `amount` to `to` meets, checked in
    /// this order; `None` where it succeeds.
    pub open spec fn transfer_error(&self, origin: Origin, to: AccountId, amount: Balance) -> Option<
        TransferError,
    > {
        let m = self.accounts();
        match origin {
            Origin::Unsigned => Some(TransferError::Unauthorized),
            Origin::Signed(from) => if !m.contains_key(from) || m[from] < amount {
                Some(TransferError::InsufficientFunds)
            } else if from == to {
                None
            } else if 0 < m[from] - amount < self.min_deposit() {
                Some(TransferError::WouldLeaveDust)
            } else if !m.contains_key(to) && amount < self.min_deposit() {
                Some(TransferError::RecipientBelowMinimumDeposit)
            } else {
                None
            },
        }
    }

    /// `q` and `r` are what a transfer by `origin` of `amount` to `to` on
    /// `self` leaves and returns. The total issuance never changes; on
    /// success the amount moves (a transfer to oneself moves nothing), on an
    /// error nothing changes.
    pub open spec fn transfer_step(
        &self,
        q: &Pallet,
        origin: Origin,
        to: AccountId,
        amount: Balance,
        r: Result<(), TransferError>,
    ) -> bool {
        &&& q.min_deposit() == self.min_deposit()
        &&& q.issuance() == self.issuance()
        &&& match self.transfer_error(origin, to, amount) {
            Some(e) => r == Err::<(), TransferError>(e) && self.same_state(q),
            None => {
                &&& r == Ok::<(), TransferError>(())
                &&& origin matches Origin::Signed(from)
                &&& q.accounts() == if from == to {
                    self.accounts()
                } else {
                    moved(self.accounts(), from, to, amount)
                }
            },
        }
    }

    /// A ledger with no accounts and nothing issued.
    pub fn new(config: Config) -> (p: Self)
        ensures
            p.wf(),
            p.issuance() == 0,
            p.accounts() == Map::<AccountId, Balance>::empty(),
            p.min_deposit() == config.min_deposit,
    {
        let p = Pallet { config, store: Store::new() };
        assert(p.accounts().dom() =~= Set::<AccountId>::empty());
        p
    }

    /// The total issuance.
    pub fn total_issuance(&self) -> (r: Balance)
        ensures
            r == self.issuance(),
    {
        self.store.total_issuance()
    }

    /// The balance of `id`, or `None` where it has no account.
    pub fn balance_of(&self, id: AccountId) -> (r: Option<Balance>)
        ensures
            r == (if self.accounts().contains_key(id) {
                Some(self.accounts()[id])
            } else {
                None::<Balance>
            }),
    {
        self.store.balance_of(id)
    }

    /// Whether `id` has an account.
    pub fn has_account(&self, id: AccountId) -> (r: bool)
        ensures
            r == self.accounts().contains_key(id),
    {
        self.store.has_account(id)
    }

    /// Creates the caller's account holding `amount` and issues as much.
    /// Fails, changing nothing, for an unsigned caller, an amount under the
    /// minimum deposit, a caller that already has an account, or a total
    /// issuance that would overflow.
    pub fn mint_unsafe(&mut self, origin: Origin, amount: Balance) -> (r: Result<(), MintError>)
        requires
            old(self).wf(),
        ensures
            final(self).wf(),
            old(self).mint_step(final(self), origin, amount, r),
    {
        let who = match ensure_signed(origin) {
            Some(who) => who,
            None => return Err(MintError::Unauthorized),
        };
        if amount < self.config.ed() {
            return Err(MintError::BelowMinimumDeposit);
        }
        if self.store.has_account(who) {
            return Err(MintError::AccountAlreadyExists);
        }
        let issuance = match self.store.total_issuance().checked_add(amount) {
            Some(v) => v,
            None => return Err(MintError::ArithmeticOverflow),
        };
        proof {
            lemma_total_insert_new(self.accounts(), who, amount);
        }
        self.store.set_balance(who, amount);
        self.store.set_total_issuance(issuance);
        Ok(())
    }

    /// Moves `amount` from the caller's account to `to`. The sender must
    /// hold at least `amount`, and must keep either nothing (its account is
    /// then removed) or at least the minimum deposit; a recipient without an
    /// account must receive at least the minimum deposit. The total issuance
    /// never changes, and a refused transfer changes nothing.
    pub fn transfer(&mut self, origin: Origin, to: AccountId, amount: Balance) -> (r: Result<
        (),
        TransferError,
    >)
        requires
            old(self).wf(),
        ensures
            final(self).wf(),
            old(self).transfer_step(final(self), origin, to, amount, r),
    {
        let from = match ensure_signed(origin) {
            Some(from) => from,
            None => return Err(TransferError::Unauthorized),
        };
        let balance = match self.store.balance_of(from) {
            Some(b) => b,
            None => return Err(TransferError::InsufficientFunds),
        };
        if balance < amount {
            return Err(TransferError::InsufficientFunds);
        }
        if from == to {
            return Ok(());
        }
        let min = self.config.ed();
        let remaining = balance - amount;
        if 0 < remaining && remaining < min {
            return Err(TransferError::WouldLeaveDust);
        }
        let received = match self.store.balance_of(to) {
            Some(b) => {
                proof {
                    lemma_total_two(self.accounts(), from, to);
                }
                b + amount
            },
            None => {
                if amount < min {
                    return Err(TransferError::RecipientBelowMinimumDeposit);
                }
                amount
            },
        };
        let ghost m0 = self.accounts();
        if remaining == 0 {
            proof {
                lemma_total_remove(m0, from);
            }
            self.store.remove_account(from);
        } else {
            proof {
                lemma_total_update(m0, from, remaining);
            }
            self.store.set_balance(from, remaining);
        }
        let ghost m1 = self.accounts();
        proof {
            if m1.contains_key(to) {
                lemma_total_update(m1, to, received);
            } else {
                lemma_total_insert_new(m1, to, received);
            }
        }
        self.store.set_balance(to, received);
        assert(self.accounts() =~= moved(m0, from, to, amount));
        Ok(())
    }

    /// The minimum deposit of this ledger.
    pub fn ed(&self) -> (r: Balance)
        ensures
            r == self.min_deposit(),
    {
        self.config.ed()
    }
}

} // verus!
