//! Proved laws of the transaction rules.
//!
//! Each lemma states, over the spec-level [`Ledger`] transitions, a guarantee
//! the engine's users may rely on: rejected records change nothing, a lock is
//! permanent, a charged-back deposit is settled for good, and a dispute
//! followed by its resolve restores the account exactly.

use vstd::prelude::*;

use crate::engine::Ledger;
use crate::transaction::{
    Chargeback, Deposit, Dispute, DisputeState, Resolve, Transaction, TransactionId, Withdrawal,
};

verus! {

/// A withdrawal from an account without sufficient available funds is a
/// no-op: the ledger is exactly as before.
pub proof fn lemma_withdrawal_insufficient_noop(l: Ledger, w: Withdrawal)
    requires
        l.accounts.contains_key(w.client.0),
        l.accounts[w.client.0].available@ < w.amount@,
    ensures
        l.apply_withdrawal(w) == l,
{
}

/// A withdrawal that changes the ledger at all found sufficient available
/// funds on an unlocked account, and then it only lowered that client's
/// available funds by the amount, leaving the held funds alone.
pub proof fn lemma_withdrawal_needs_funds(l: Ledger, w: Withdrawal)
    ensures
        l.apply_withdrawal(w) != l ==> {
            let c = w.client.0;
            &&& l.accounts.contains_key(c)
            &&& !l.accounts[c].locked
            &&& l.accounts[c].available@ >= w.amount@
            &&& l.apply_withdrawal(w).accounts[c].available@ == l.accounts[c].available@
                - w.amount@
            &&& l.apply_withdrawal(w).accounts[c].held == l.accounts[c].held
            &&& l.apply_withdrawal(w).accounts[c].locked == l.accounts[c].locked
        },
{
}

/// Deposits and withdrawals against a locked account are no-ops.
pub proof fn lemma_locked_blocks_deposit_withdrawal(
    l: Ledger,
    tx: TransactionId,
    d: Deposit,
    w: Withdrawal,
)
    requires
        l.accounts.contains_key(d.client.0),
        l.accounts[d.client.0].locked,
        w.client == d.client,
    ensures
        l.apply_deposit(tx, d) == l,
        l.apply_withdrawal(w) == l,
{
}

/// No operation whatsoever unlocks an account: once locked, an account
/// exists and stays locked after every further record.
pub proof fn lemma_lock_is_permanent(l: Ledger, c: u16, t: Transaction)
    requires
        l.accounts.contains_key(c),
        l.accounts[c].locked,
    ensures
        l.apply_transaction(t).accounts.contains_key(c),
        l.apply_transaction(t).accounts[c].locked,
{
}

/// The dispute family is deliberately not gated by the account lock: a
/// dispute, resolve or chargeback whose preconditions hold moves the held
/// funds even on a locked account, and never clears the lock.
pub proof fn lemma_dispute_family_despite_lock(l: Ledger, d: Dispute, r: Resolve, c: Chargeback)
    ensures
        l.dispute_applies(d) ==> ({
            let post = l.apply_dispute(d);
            &&& post.accounts[d.client.0].held@ == l.accounts[d.client.0].held@
                + l.disputes[d.tx.0].deposit.amount@
            &&& post.accounts[d.client.0].locked == l.accounts[d.client.0].locked
        }),
        l.resolve_applies(r) ==> ({
            let post = l.apply_resolve(r);
            &&& post.accounts[r.client.0].held@ == l.accounts[r.client.0].held@
                - l.disputes[r.tx.0].deposit.amount@
            &&& post.accounts[r.client.0].locked == l.accounts[r.client.0].locked
        }),
        l.chargeback_applies(c) ==> ({
            let post = l.apply_chargeback(c);
            &&& post.accounts[c.client.0].held@ == l.accounts[c.client.0].held@
                - l.disputes[c.tx.0].deposit.amount@
            &&& post.accounts[c.client.0].locked
        }),
{
}

/// A dispute referencing an unknown client, an unknown transaction, a record
/// not currently undisputed, or a deposit of another client is a no-op.
pub proof fn lemma_invalid_dispute_noop(l: Ledger, d: Dispute)
    ensures
        !l.accounts.contains_key(d.client.0) ==> l.apply_dispute(d) == l,
        !l.disputes.contains_key(d.tx.0) ==> l.apply_dispute(d) == l,
        l.disputes.contains_key(d.tx.0) && l.disputes[d.tx.0].state != DisputeState::Undisputed
            ==> l.apply_dispute(d) == l,
        l.disputes.contains_key(d.tx.0) && l.disputes[d.tx.0].deposit.client != d.client
            ==> l.apply_dispute(d) == l,
{
}

/// A resolve referencing an unknown client, an unknown transaction, a record
/// not currently disputed, or a deposit of another client is a no-op.
pub proof fn lemma_invalid_resolve_noop(l: Ledger, r: Resolve)
    ensures
        !l.accounts.contains_key(r.client.0) ==> l.apply_resolve(r) == l,
        !l.disputes.contains_key(r.tx.0) ==> l.apply_resolve(r) == l,
        l.disputes.contains_key(r.tx.0) && l.disputes[r.tx.0].state != DisputeState::Disputed
            ==> l.apply_resolve(r) == l,
        l.disputes.contains_key(r.tx.0) && l.disputes[r.tx.0].deposit.client != r.client
            ==> l.apply_resolve(r) == l,
{
}

/// A chargeback referencing an unknown client, an unknown transaction, a
/// record not currently disputed, or a deposit of another client is a no-op.
pub proof fn lemma_invalid_chargeback_noop(l: Ledger, c: Chargeback)
    ensures
        !l.accounts.contains_key(c.client.0) ==> l.apply_chargeback(c) == l,
        !l.disputes.contains_key(c.tx.0) ==> l.apply_chargeback(c) == l,
        l.disputes.contains_key(c.tx.0) && l.disputes[c.tx.0].state != DisputeState::Disputed
            ==> l.apply_chargeback(c) == l,
        l.disputes.contains_key(c.tx.0) && l.disputes[c.tx.0].deposit.client != c.client ==> l
            .apply_chargeback(c) == l,
{
}

/// `Chargedback` is absorbing: a dispute, resolve or chargeback referencing
/// a charged-back transaction is a no-op on the whole ledger.
pub proof fn lemma_chargedback_reference_noop(l: Ledger, d: Dispute, r: Resolve, c: Chargeback)
    requires
        l.disputes.contains_key(d.tx.0),
        l.disputes[d.tx.0].state == DisputeState::Chargedback,
        r.tx == d.tx,
        c.tx == d.tx,
    ensures
        l.apply_dispute(d) == l,
        l.apply_resolve(r) == l,
        l.apply_chargeback(c) == l,
{
}

/// `Chargedback` is absorbing: no record at all moves a charged-back entry
/// out of its terminal state — only a fresh deposit reusing the same
/// transaction identifier replaces the entry wholesale, which the premise
/// rules out.
pub proof fn lemma_chargedback_is_absorbing(l: Ledger, t: Transaction, tx: TransactionId)
    requires
        l.disputes.contains_key(tx.0),
        l.disputes[tx.0].state == DisputeState::Chargedback,
        match t {
            Transaction::Deposit(dtx, _) => dtx.0 != tx.0,
            _ => true,
        },
    ensures
        l.apply_transaction(t).disputes.contains_key(tx.0),
        l.apply_transaction(t).disputes[tx.0] == l.disputes[tx.0],
{
}

/// A valid dispute followed immediately by its resolve restores the ledger
/// exactly — balances, dispute index and all — so repeated dispute/resolve
/// cycles cannot drift.
pub proof fn lemma_dispute_resolve_round_trip(l: Ledger, d: Dispute)
    requires
        l.wf(),
        l.dispute_applies(d),
    ensures
        l.apply_dispute(d).apply_resolve(Resolve { client: d.client, tx: d.tx }) == l,
{
    let r = Resolve { client: d.client, tx: d.tx };
    let mid = l.apply_dispute(d);
    assert(mid.resolve_applies(r));
    let post = mid.apply_resolve(r);
    assert(post.accounts[d.client.0] == l.accounts[d.client.0]);
    assert(post.accounts =~= l.accounts);
    assert(post.disputes[d.tx.0] == l.disputes[d.tx.0]);
    assert(post.disputes =~= l.disputes);
    assert(post =~= l);
}

} // verus!
