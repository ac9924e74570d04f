//! Properties of the ledger over sequences of operations.
use vstd::prelude::*;

use crate::pallet::{held, moved, MintError, Origin, Pallet, TransferError};
use crate::store::{AccountId, Balance};
use crate::sum::{
    lemma_total_insert_new, lemma_total_remove, lemma_total_two, lemma_total_update, total_of,
};

verus! {

/// `q` is what one mint or one transfer, whatever its arguments and
/// outcome, leaves of `p`.
pub open spec fn one_step(p: Pallet, q: Pallet) -> bool {
    ||| exists|origin: Origin, amount: Balance, r: Result<(), MintError>| #[trigger]
        p.mint_step(&q, origin, amount, r)
    ||| exists|origin: Origin, to: AccountId, amount: Balance, r| #[trigger]
        p.transfer_step(&q, origin, to, amount, r)
}

/// `q` is what one transfer, whatever its arguments and outcome, leaves of `p`.
pub open spec fn one_transfer(p: Pallet, q: Pallet) -> bool {
    exists|origin: Origin, to: AccountId, amount: Balance, r| #[trigger]
        p.transfer_step(&q, origin, to, amount, r)
}

/// `q` is what one refused transfer leaves of `p`.
pub open spec fn one_refused_transfer(p: Pallet, q: Pallet) -> bool {
    exists|origin: Origin, to: AccountId, amount: Balance, r: Result<(), TransferError>| #[trigger]
        p.transfer_step(&q, origin, to, amount, r) && r is Err
}

/// `s` is a run of the ledger: it starts empty, and each state comes from
/// the one before by one operation.
pub open spec fn is_run(s: Seq<Pallet>) -> bool {
    &&& s.len() > 0
    &&& s[0].accounts() == Map::<AccountId, Balance>::empty()
    &&& s[0].issuance() == 0
    &&& forall|i: int| 0 <= i < s.len() - 1 ==> one_step(#[trigger] s[i], s[i + 1])
}

/// A mint keeps the ledger's invariant.
pub proof fn lemma_mint_keeps_wf(
    p: Pallet,
    q: Pallet,
    origin: Origin,
    amount: Balance,
    r: Result<(), MintError>,
)
    requires
        p.wf(),
        p.mint_step(&q, origin, amount, r),
    ensures
        q.wf(),
{
    if let Origin::Signed(who) = origin {
        if p.mint_error(origin, amount) is None {
            lemma_total_insert_new(p.accounts(), who, amount);
        }
    }
}

/// A transfer keeps the ledger's invariant.
pub proof fn lemma_transfer_keeps_wf(
    p: Pallet,
    q: Pallet,
    origin: Origin,
    to: AccountId,
    amount: Balance,
    r: Result<(), TransferError>,
)
    requires
        p.wf(),
        p.transfer_step(&q, origin, to, amount, r),
    ensures
        q.wf(),
{
    if let Origin::Signed(from) = origin {
        if p.transfer_error(origin, to, amount) is None && from != to {
            let m0 = p.accounts();
            if m0.contains_key(to) {
                lemma_total_two(m0, from, to);
            }
            let debited = if m0[from] == amount {
                lemma_total_remove(m0, from);
                m0.remove(from)
            } else {
                lemma_total_update(m0, from, (m0[from] - amount) as Balance);
                m0.insert(from, (m0[from] - amount) as Balance)
            };
            let received = (held(m0, to) + amount) as Balance;
            if m0.contains_key(to) {
                lemma_total_update(debited, to, received);
            } else {
                lemma_total_insert_new(debited, to, received);
            }
            assert(q.accounts() == moved(m0, from, to, amount));
        }
    }
}

/// Total issuance equals the sum of all balances in every state that a run
/// of mints and transfers reaches from an empty ledger.
pub proof fn lemma_issuance_is_sum_of_balances(s: Seq<Pallet>)
    requires
        is_run(s),
    ensures
        forall|i: int| 0 <= i < s.len() ==> (#[trigger] s[i]).issuance() == total_of(s[i].accounts()),
{
    assert forall|i: int| 0 <= i < s.len() implies (#[trigger] s[i]).wf() by {
        lemma_run_wf(s, i);
    }
}

proof fn lemma_run_wf(s: Seq<Pallet>, i: int)
    requires
        is_run(s),
        0 <= i < s.len(),
    ensures
        s[i].wf(),
    decreases i,
{
    if i == 0 {
        assert(s[0].accounts().dom() =~= Set::<AccountId>::empty());
    } else {
        lemma_run_wf(s, i - 1);
        assert(one_step(s[i - 1], s[i]));
        if exists|origin: Origin, amount: Balance, r: Result<(), MintError>| #[trigger]
            s[i - 1].mint_step(&s[i], origin, amount, r) {
            let (origin, amount, r) = choose|origin: Origin, amount: Balance, r: Result<(), MintError>|
                #[trigger] s[i - 1].mint_step(&s[i], origin, amount, r);
            lemma_mint_keeps_wf(s[i - 1], s[i], origin, amount, r);
        } else {
            let (origin, to, amount, r) = choose|origin: Origin, to: AccountId, amount: Balance, r|
                #[trigger] s[i - 1].transfer_step(&s[i], origin, to, amount, r);
            lemma_transfer_keeps_wf(s[i - 1], s[i], origin, to, amount, r);
        }
    }
}

/// Minting the same amount twice to the same account never succeeds twice:
/// where the first mint succeeds, the second fails with
/// `AccountAlreadyExists` and changes nothing.
pub proof fn lemma_mint_twice(
    p0: Pallet,
    p1: Pallet,
    p2: Pallet,
    who: AccountId,
    amount: Balance,
    r1: Result<(), MintError>,
    r2: Result<(), MintError>,
)
    requires
        p0.mint_step(&p1, Origin::Signed(who), amount, r1),
        p1.mint_step(&p2, Origin::Signed(who), amount, r2),
    ensures
        !(r1 is Ok && r2 is Ok),
        r1 is Ok ==> r2 == Err::<(), MintError>(MintError::AccountAlreadyExists) && p1.same_state(
            &p2,
        ),
{
}

/// No sequence of transfers changes the total issuance.
pub proof fn lemma_transfers_keep_issuance(s: Seq<Pallet>)
    requires
        s.len() > 0,
        forall|i: int| 0 <= i < s.len() - 1 ==> one_transfer(#[trigger] s[i], s[i + 1]),
    ensures
        s.last().issuance() == s[0].issuance(),
    decreases s.len(),
{
    if s.len() > 1 {
        let t = s.drop_last();
        assert forall|i: int| 0 <= i < t.len() - 1 implies one_transfer(#[trigger] t[i], t[i + 1]) by {
            assert(one_transfer(s[i], s[i + 1]));
        }
        lemma_transfers_keep_issuance(t);
        assert(one_transfer(s[s.len() - 2], s[s.len() - 1]));
    }
}

/// A refused transfer changes nothing, so no sequence of refused transfers
/// changes the ledger.
pub proof fn lemma_refused_transfers_change_nothing(s: Seq<Pallet>)
    requires
        s.len() > 0,
        forall|i: int| 0 <= i < s.len() - 1 ==> one_refused_transfer(#[trigger] s[i], s[i + 1]),
    ensures
        s[0].same_state(&s.last()),
    decreases s.len(),
{
    if s.len() > 1 {
        let t = s.drop_last();
        assert forall|i: int| 0 <= i < t.len() - 1 implies one_refused_transfer(
            #[trigger] t[i],
            t[i + 1],
        ) by {
            assert(one_refused_transfer(s[i], s[i + 1]));
        }
        lemma_refused_transfers_change_nothing(t);
        assert(one_refused_transfer(s[s.len() - 2], s[s.len() - 1]));
    }
}

} // verus!
