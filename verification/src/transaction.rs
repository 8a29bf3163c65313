//! Record types for the five transaction kinds.
//!
//! Each kind carries exactly the fields its rule needs: deposits and
//! withdrawals an amount, the dispute family a transaction reference.  A
//! record missing a required field therefore cannot be built at all; the
//! boundary that parses an external stream must reject such input before it
//! reaches the engine.

use vstd::prelude::*;

use crate::amount::Amount;
use crate::engine::ClientId;

verus! {

/// Identifier of a transaction, the key of the dispute index.
#[derive(Clone, Copy, Debug, Hash, PartialEq, Eq, Structural)]
pub struct TransactionId(pub u32);

/// A deposit order: credit `amount` to `client`.
#[derive(Clone, Copy, Debug, PartialEq, Eq, Structural)]
pub struct Deposit {
    pub client: ClientId,
    pub amount: Amount,
}

impl Deposit {
    /// Builds a deposit order.
    pub fn new(client: ClientId, amount: Amount) -> (r: Deposit)
        ensures
            r == (Deposit { client, amount }),
    {
        Deposit { client, amount }
    }
}

/// A withdrawal order: debit `amount` from `client` if it is available.
#[derive(Clone, Copy, Debug, PartialEq, Eq, Structural)]
pub struct Withdrawal {
    pub client: ClientId,
    pub amount: Amount,
}

impl Withdrawal {
    /// Builds a withdrawal order.
    pub fn new(client: ClientId, amount: Amount) -> (r: Withdrawal)
        ensures
            r == (Withdrawal { client, amount }),
    {
        Withdrawal { client, amount }
    }
}

/// A dispute: `client` contests the earlier deposit registered under `tx`.
#[derive(Clone, Copy, Debug, PartialEq, Eq, Structural)]
pub struct Dispute {
    pub client: ClientId,
    pub tx: TransactionId,
}

impl Dispute {
    /// Builds a dispute reference.
    pub fn new(client: ClientId, tx: TransactionId) -> (r: Dispute)
        ensures
            r == (Dispute { client, tx }),
    {
        Dispute { client, tx }
    }
}

/// A resolve: release the hold the dispute of `tx` placed.
#[derive(Clone, Copy, Debug, PartialEq, Eq, Structural)]
pub struct Resolve {
    pub client: ClientId,
    pub tx: TransactionId,
}

impl Resolve {
    /// Builds a resolve reference.
    pub fn new(client: ClientId, tx: TransactionId) -> (r: Resolve)
        ensures
            r == (Resolve { client, tx }),
    {
        Resolve { client, tx }
    }
}

/// A chargeback: reverse the disputed deposit of `tx` and lock the account.
#[derive(Clone, Copy, Debug, PartialEq, Eq, Structural)]
pub struct Chargeback {
    pub client: ClientId,
    pub tx: TransactionId,
}

impl Chargeback {
    /// Builds a chargeback reference.
    pub fn new(client: ClientId, tx: TransactionId) -> (r: Chargeback)
        ensures
            r == (Chargeback { client, tx }),
    {
        Chargeback { client, tx }
    }
}

/// Where a registered deposit stands in its dispute lifecycle.
///
/// `Undisputed` moves to `Disputed` on a dispute; `Disputed` moves back on a
/// resolve or on to `Chargedback` on a chargeback.  `Chargedback` is
/// terminal: no later dispute, resolve or chargeback touches the record
/// again.
#[derive(Clone, Copy, Debug, PartialEq, Eq, Structural)]
pub enum DisputeState {
    Undisputed,
    Disputed,
    Chargedback,
}

/// A deposit kept in the dispute index, with its current dispute state.
/// Only deposits are ever registered; they stay registered forever, even
/// after a chargeback.
#[derive(Clone, Copy, Debug, PartialEq, Eq, Structural)]
pub struct DisputableTransaction {
    pub deposit: Deposit,
    pub state: DisputeState,
}

impl DisputableTransaction {
    /// Builds a dispute-index entry.
    pub fn new(deposit: Deposit, state: DisputeState) -> (r: DisputableTransaction)
        ensures
            r == (DisputableTransaction { deposit, state }),
    {
        DisputableTransaction { deposit, state }
    }
}

/// One fully-validated transaction record, ready for the engine.
#[derive(Clone, Copy, Debug, PartialEq, Eq, Structural)]
pub enum Transaction {
    Deposit(TransactionId, Deposit),
    Withdrawal(Withdrawal),
    Dispute(Dispute),
    Resolve(Resolve),
    Chargeback(Chargeback),
}

} // verus!
