//! The transaction engine: account ledger, dispute index and dispatcher.
//!
//! The whole behaviour of the engine is specified against a mathematical
//! model, [`Ledger`]: a map from client identifier to account state and a map
//! from transaction identifier to registered deposit.  Each operation has a
//! spec-level transition (`apply_deposit`, `apply_withdrawal`, ...) that says
//! exactly when the operation takes effect and what it changes; every record
//! that fails its validation is a no-op that leaves the ledger untouched.
//! The executable [`Engine`] is proved to follow those transitions step by
//! step.

use vstd::prelude::*;

use rustc_hash::FxHashMap;

use crate::amount::{amount_of, in_range, Amount, BALANCE_LIMIT};
use crate::fxmap::{
    account_map_get, account_map_insert, account_map_new, dispute_map_get, dispute_map_insert,
    dispute_map_new,
};
use crate::transaction::{
    Chargeback, Deposit, DisputableTransaction, Dispute, DisputeState, Resolve, Transaction,
    TransactionId, Withdrawal,
};

verus! {

/// Identifier of a client, the key of the account ledger.
#[derive(Clone, Copy, Debug, Hash, PartialEq, Eq, PartialOrd, Ord, Structural)]
pub struct ClientId(pub u16);

/// The state of one account: spendable funds, funds frozen pending disputes,
/// and whether a chargeback has locked the account.
#[derive(Clone, Copy, Debug, PartialEq, Eq, Structural)]
pub struct ClientData {
    pub available: Amount,
    pub held: Amount,
    pub locked: bool,
}

/// The state every account starts in: nothing available, nothing held, not
/// locked.
pub open spec fn new_account() -> ClientData {
    ClientData { available: Amount { units: 0 }, held: Amount { units: 0 }, locked: false }
}

impl Default for ClientData {
    /// The zero-initialized account state.
    fn default() -> (r: ClientData)
        ensures
            r == new_account(),
    {
        ClientData {
            available: Amount { units: 0 },
            held: Amount { units: 0 },
            locked: false,
        }
    }
}

/// One output row: a client with its balances, the derived total, and the
/// lock flag.
#[derive(Clone, Copy, Debug, PartialEq, Eq, Structural)]
pub struct ClientRecord {
    pub client: ClientId,
    pub available: Amount,
    pub held: Amount,
    pub total: Amount,
    pub locked: bool,
}

impl ClientRecord {
    /// Builds an output row; the total is never stored anywhere else, it is
    /// always recomputed here as `available + held`.
    pub fn new(client: u16, available: Amount, held: Amount, locked: bool) -> (r: ClientRecord)
        requires
            i128::MIN <= available@ + held@ <= i128::MAX,
        ensures
            r == (ClientRecord {
                client: ClientId(client),
                available,
                held,
                total: amount_of(available@ + held@),
                locked,
            }),
            r.total@ == available@ + held@,
    {
        ClientRecord {
            client: ClientId(client),
            available,
            held,
            total: Amount { units: available.units + held.units },
            locked,
        }
    }
}

/// The mathematical state of the engine: the account ledger and the dispute
/// index.
#[verifier::ext_equal]
pub struct Ledger {
    /// Account state per client identifier.
    pub accounts: Map<u16, ClientData>,
    /// Registered deposits per transaction identifier, each with its dispute
    /// state.  Entries are never removed.
    pub disputes: Map<u32, DisputableTransaction>,
}

/// The output row the ledger owes for a known client.
pub open spec fn record_for(l: Ledger, k: u16) -> ClientRecord {
    let d = l.accounts[k];
    ClientRecord {
        client: ClientId(k),
        available: d.available,
        held: d.held,
        total: amount_of(d.available@ + d.held@),
        locked: d.locked,
    }
}

impl Ledger {
    /// Every balance a well-formed ledger holds is in range, and so is every
    /// account's total, so no arithmetic on them can leave the machine
    /// integer range.
    pub open spec fn wf(self) -> bool {
        forall|k: u16| #[trigger] self.accounts.contains_key(k) ==> {
            &&& in_range(self.accounts[k].available@)
            &&& in_range(self.accounts[k].held@)
            &&& in_range(self.accounts[k].available@ + self.accounts[k].held@)
        }
    }

    /// The account of `client`, or a fresh zero account if none exists yet.
    pub open spec fn account_or_new(self, client: ClientId) -> ClientData {
        if self.accounts.contains_key(client.0) {
            self.accounts[client.0]
        } else {
            new_account()
        }
    }

    /// A deposit takes effect unless the account is locked or a balance
    /// would leave the accepted range.
    pub open spec fn deposit_applies(self, deposit: Deposit) -> bool {
        let acct = self.account_or_new(deposit.client);
        &&& !acct.locked
        &&& in_range(acct.available@ + deposit.amount@)
        &&& in_range(acct.available@ + acct.held@ + deposit.amount@)
    }

    /// Effect of a deposit: create the account if needed, credit the amount,
    /// and register the deposit as undisputed under its transaction
    /// identifier (replacing any earlier entry under that identifier).  A
    /// deposit that does not apply changes nothing, not even by creating the
    /// account.
    pub open spec fn apply_deposit(self, tx: TransactionId, deposit: Deposit) -> Ledger {
        if self.deposit_applies(deposit) {
            let acct = self.account_or_new(deposit.client);
            Ledger {
                accounts: self.accounts.insert(
                    deposit.client.0,
                    ClientData {
                        available: amount_of(acct.available@ + deposit.amount@),
                        held: acct.held,
                        locked: acct.locked,
                    },
                ),
                disputes: self.disputes.insert(
                    tx.0,
                    DisputableTransaction { deposit, state: DisputeState::Undisputed },
                ),
            }
        } else {
            self
        }
    }

    /// A withdrawal takes effect only against an existing, unlocked account
    /// with sufficient available funds (and balances staying in range).
    pub open spec fn withdrawal_applies(self, withdrawal: Withdrawal) -> bool {
        let c = withdrawal.client.0;
        &&& self.accounts.contains_key(c)
        &&& !self.accounts[c].locked
        &&& self.accounts[c].available@ >= withdrawal.amount@
        &&& in_range(self.accounts[c].available@ - withdrawal.amount@)
        &&& in_range(self.accounts[c].available@ + self.accounts[c].held@ - withdrawal.amount@)
    }

    /// Effect of a withdrawal: debit the available funds.  A withdrawal
    /// never creates an account, and an insufficient balance leaves the
    /// ledger untouched.
    pub open spec fn apply_withdrawal(self, withdrawal: Withdrawal) -> Ledger {
        if self.withdrawal_applies(withdrawal) {
            let c = withdrawal.client.0;
            let acct = self.accounts[c];
            Ledger {
                accounts: self.accounts.insert(
                    c,
                    ClientData {
                        available: amount_of(acct.available@ - withdrawal.amount@),
                        held: acct.held,
                        locked: acct.locked,
                    },
                ),
                disputes: self.disputes,
            }
        } else {
            self
        }
    }

    /// A dispute takes effect only if the client's account exists, the
    /// referenced transaction is registered and still undisputed, and it
    /// belongs to that same client.  The account's lock is deliberately not
    /// consulted.
    pub open spec fn dispute_applies(self, dispute: Dispute) -> bool {
        let c = dispute.client.0;
        let t = dispute.tx.0;
        &&& self.accounts.contains_key(c)
        &&& self.disputes.contains_key(t)
        &&& self.disputes[t].state == DisputeState::Undisputed
        &&& self.disputes[t].deposit.client == dispute.client
        &&& in_range(self.accounts[c].available@ - self.disputes[t].deposit.amount@)
        &&& in_range(self.accounts[c].held@ + self.disputes[t].deposit.amount@)
    }

    /// Effect of a dispute: move the deposited amount from available to held
    /// funds — available may well go negative — and mark the deposit
    /// disputed.
    pub open spec fn apply_dispute(self, dispute: Dispute) -> Ledger {
        if self.dispute_applies(dispute) {
            let c = dispute.client.0;
            let t = dispute.tx.0;
            let acct = self.accounts[c];
            let rec = self.disputes[t];
            Ledger {
                accounts: self.accounts.insert(
                    c,
                    ClientData {
                        available: amount_of(acct.available@ - rec.deposit.amount@),
                        held: amount_of(acct.held@ + rec.deposit.amount@),
                        locked: acct.locked,
                    },
                ),
                disputes: self.disputes.insert(
                    t,
                    DisputableTransaction { deposit: rec.deposit, state: DisputeState::Disputed },
                ),
            }
        } else {
            self
        }
    }

    /// A resolve takes effect only for a registered transaction of the same
    /// client that is currently disputed.
    pub open spec fn resolve_applies(self, resolve: Resolve) -> bool {
        let c = resolve.client.0;
        let t = resolve.tx.0;
        &&& self.accounts.contains_key(c)
        &&& self.disputes.contains_key(t)
        &&& self.disputes[t].state == DisputeState::Disputed
        &&& self.disputes[t].deposit.client == resolve.client
        &&& in_range(self.accounts[c].available@ + self.disputes[t].deposit.amount@)
        &&& in_range(self.accounts[c].held@ - self.disputes[t].deposit.amount@)
    }

    /// Effect of a resolve: release the hold back into available funds and
    /// mark the deposit undisputed again.
    pub open spec fn apply_resolve(self, resolve: Resolve) -> Ledger {
        if self.resolve_applies(resolve) {
            let c = resolve.client.0;
            let t = resolve.tx.0;
            let acct = self.accounts[c];
            let rec = self.disputes[t];
            Ledger {
                accounts: self.accounts.insert(
                    c,
                    ClientData {
                        available: amount_of(acct.available@ + rec.deposit.amount@),
                        held: amount_of(acct.held@ - rec.deposit.amount@),
                        locked: acct.locked,
                    },
                ),
                disputes: self.disputes.insert(
                    t,
                    DisputableTransaction { deposit: rec.deposit, state: DisputeState::Undisputed },
                ),
            }
        } else {
            self
        }
    }

    /// A chargeback takes effect only for a registered transaction of the
    /// same client that is currently disputed.
    pub open spec fn chargeback_applies(self, chargeback: Chargeback) -> bool {
        let c = chargeback.client.0;
        let t = chargeback.tx.0;
        &&& self.accounts.contains_key(c)
        &&& self.disputes.contains_key(t)
        &&& self.disputes[t].state == DisputeState::Disputed
        &&& self.disputes[t].deposit.client == chargeback.client
        &&& in_range(self.accounts[c].held@ - self.disputes[t].deposit.amount@)
        &&& in_range(
            self.accounts[c].available@ + self.accounts[c].held@
                - self.disputes[t].deposit.amount@,
        )
    }

    /// Effect of a chargeback: withdraw the held amount for good, lock the
    /// account permanently, and mark the deposit charged back — a terminal
    /// state no later record can leave.
    pub open spec fn apply_chargeback(self, chargeback: Chargeback) -> Ledger {
        if self.chargeback_applies(chargeback) {
            let c = chargeback.client.0;
            let t = chargeback.tx.0;
            let acct = self.accounts[c];
            let rec = self.disputes[t];
            Ledger {
                accounts: self.accounts.insert(
                    c,
                    ClientData {
                        available: acct.available,
                        held: amount_of(acct.held@ - rec.deposit.amount@),
                        locked: true,
                    },
                ),
                disputes: self.disputes.insert(
                    t,
                    DisputableTransaction {
                        deposit: rec.deposit,
                        state: DisputeState::Chargedback,
                    },
                ),
            }
        } else {
            self
        }
    }

    /// Effect of one record of any kind.
    pub open spec fn apply_transaction(self, t: Transaction) -> Ledger {
        match t {
            Transaction::Deposit(tx, deposit) => self.apply_deposit(tx, deposit),
            Transaction::Withdrawal(withdrawal) => self.apply_withdrawal(withdrawal),
            Transaction::Dispute(dispute) => self.apply_dispute(dispute),
            Transaction::Resolve(resolve) => self.apply_resolve(resolve),
            Transaction::Chargeback(chargeback) => self.apply_chargeback(chargeback),
        }
    }
}

/// Effect of a whole stream of records, applied strictly in order.
pub open spec fn apply_all(l: Ledger, records: Seq<Transaction>) -> Ledger
    decreases records.len(),
{
    if records.len() == 0 {
        l
    } else {
        apply_all(l.apply_transaction(records[0]), records.drop_first())
    }
}

/// Transaction engine responsible for storing and processing transactions.
///
/// Build one with [`Engine::new`] (or `Default`), feed it records with
/// [`Engine::load_record`] or [`Engine::load_records`], and read the final
/// account states back with [`Engine::clients`] or
/// [`Engine::clients_ordered`].
pub struct Engine {
    disputable_transactions: FxHashMap<u32, DisputableTransaction>,
    clients: FxHashMap<u16, ClientData>,
    client_ids: Vec<u16>,
}

impl Default for Engine {
    /// A fresh engine with no accounts and no registered deposits.
    fn default() -> (r: Engine)
        ensures
            r.inv(),
            r@.accounts == Map::<u16, ClientData>::empty(),
            r@.disputes == Map::<u32, DisputableTransaction>::empty(),
    {
        Engine::new()
    }
}

impl View for Engine {
    type V = Ledger;

    closed spec fn view(&self) -> Ledger {
        Ledger { accounts: self.clients@, disputes: self.disputable_transactions@ }
    }
}

impl Engine {
    /// The engine's internal invariant: the ledger is well formed, and the
    /// auxiliary list of client identifiers holds exactly the ledger's keys
    /// in strictly ascending order.
    pub closed spec fn inv(&self) -> bool {
        &&& self@.wf()
        &&& forall|p: int, q: int|
            0 <= p < q < self.client_ids@.len() ==> self.client_ids@[p] < self.client_ids@[q]
        &&& forall|k: u16| #[trigger]
            self@.accounts.contains_key(k) ==> self.client_ids@.contains(k)
        &&& forall|p: int|
            0 <= p < self.client_ids@.len() ==> self@.accounts.contains_key(
                #[trigger] self.client_ids@[p],
            )
    }

    /// A fresh engine with no accounts and no registered deposits.
    pub fn new() -> (r: Engine)
        ensures
            r.inv(),
            r@.accounts == Map::<u16, ClientData>::empty(),
            r@.disputes == Map::<u32, DisputableTransaction>::empty(),
    {
        Engine {
            disputable_transactions: dispute_map_new(),
            clients: account_map_new(),
            client_ids: Vec::new(),
        }
    }

    /// Processes a transaction of type: deposit.
    pub fn process_deposit(&mut self, tx: TransactionId, deposit: Deposit)
        requires
            old(self).inv(),
        ensures
            final(self).inv(),
            final(self)@ == old(self)@.apply_deposit(tx, deposit),
    {
        let id: u16 = deposit.client.0;
        let found = account_map_get(&self.clients, id);
        let acct: ClientData = match found {
            Some(a) => a,
            None => ClientData::default(),
        };
        // The client must not be locked.
        if acct.locked {
            return;
        }
        // Credit the amount, rejecting the record if a balance would leave
        // the accepted range.
        let new_available: i128 = match acct.available.units.checked_add(deposit.amount.units) {
            Some(v) => v,
            None => {
                return;
            },
        };
        if new_available < -BALANCE_LIMIT || new_available > BALANCE_LIMIT {
            return;
        }
        let new_total: i128 = match new_available.checked_add(acct.held.units) {
            Some(v) => v,
            None => {
                return;
            },
        };
        if new_total < -BALANCE_LIMIT || new_total > BALANCE_LIMIT {
            return;
        }
        account_map_insert(
            &mut self.clients,
            id,
            ClientData {
                available: Amount { units: new_available },
                held: acct.held,
                locked: acct.locked,
            },
        );
        if found.is_none() {
            insert_client_id(&mut self.client_ids, id);
        }
        // Register the deposit so it can be disputed later.
        dispute_map_insert(
            &mut self.disputable_transactions,
            tx.0,
            DisputableTransaction { deposit, state: DisputeState::Undisputed },
        );
        proof {
            let prel = old(self)@;
            let post = self@;
            let newd = ClientData {
                available: Amount { units: new_available },
                held: acct.held,
                locked: acct.locked,
            };
            assert(acct == prel.account_or_new(deposit.client));
            assert(prel.deposit_applies(deposit));
            assert forall|k: u16| #[trigger] post.accounts.contains_key(k) implies {
                &&& in_range(post.accounts[k].available@)
                &&& in_range(post.accounts[k].held@)
                &&& in_range(post.accounts[k].available@ + post.accounts[k].held@)
            } by {
                if k == id {
                    assert(post.accounts[k] == newd);
                } else {
                    assert(prel.accounts.contains_key(k));
                    assert(post.accounts[k] == prel.accounts[k]);
                }
            }
            assert forall|k: u16| #[trigger] post.accounts.contains_key(k) implies self
                .client_ids@.contains(k) by {
                if k != id {
                    assert(prel.accounts.contains_key(k));
                    assert(old(self).client_ids@.contains(k));
                }
            }
            assert forall|p: int| 0 <= p < self.client_ids@.len() implies post.accounts
                .contains_key(#[trigger] self.client_ids@[p]) by {
                let k = self.client_ids@[p];
                assert(self.client_ids@.contains(k));
                if found is None {
                    assert(old(self).client_ids@.contains(k) || k == id);
                } else {
                    assert(prel.accounts.contains_key(k));
                }
            }
        }
    }

    /// Processes a transaction of type: withdrawal.
    pub fn process_withdrawal(&mut self, withdrawal: Withdrawal)
        requires
            old(self).inv(),
        ensures
            final(self).inv(),
            final(self)@ == old(self)@.apply_withdrawal(withdrawal),
    {
        let id: u16 = withdrawal.client.0;
        // The client must exist; a withdrawal never creates an account.
        let acct: ClientData = match account_map_get(&self.clients, id) {
            Some(a) => a,
            None => {
                return;
            },
        };
        // The client must not be locked.
        if acct.locked {
            return;
        }
        // Withdraw the money only if it is available (and stays in range).
        if acct.available.units < withdrawal.amount.units {
            return;
        }
        let new_available: i128 = match acct.available.units.checked_sub(withdrawal.amount.units) {
            Some(v) => v,
            None => {
                return;
            },
        };
        if new_available < -BALANCE_LIMIT || new_available > BALANCE_LIMIT {
            return;
        }
        let new_total: i128 = match new_available.checked_add(acct.held.units) {
            Some(v) => v,
            None => {
                return;
            },
        };
        if new_total < -BALANCE_LIMIT || new_total > BALANCE_LIMIT {
            return;
        }
        account_map_insert(
            &mut self.clients,
            id,
            ClientData {
                available: Amount { units: new_available },
                held: acct.held,
                locked: acct.locked,
            },
        );
    }

    /// Processes a transaction of type: dispute.
    pub fn process_dispute(&mut self, dispute: Dispute)
        requires
            old(self).inv(),
        ensures
            final(self).inv(),
            final(self)@ == old(self)@.apply_dispute(dispute),
    {
        let id: u16 = dispute.client.0;
        // The client must exist.
        let acct: ClientData = match account_map_get(&self.clients, id) {
            Some(a) => a,
            None => {
                return;
            },
        };
        // The transaction to be disputed must exist.
        let rec: DisputableTransaction = match dispute_map_get(
            &self.disputable_transactions,
            dispute.tx.0,
        ) {
            Some(r) => r,
            None => {
                return;
            },
        };
        // And be in the correct state.
        if rec.state != DisputeState::Undisputed {
            return;
        }
        // The client identifier must be the same.
        if rec.deposit.client != dispute.client {
            return;
        }
        // Hold the money (and stay in range) and advance the state.
        let new_available: i128 = match acct.available.units.checked_sub(rec.deposit.amount.units) {
            Some(v) => v,
            None => {
                return;
            },
        };
        if new_available < -BALANCE_LIMIT || new_available > BALANCE_LIMIT {
            return;
        }
        let new_held: i128 = match acct.held.units.checked_add(rec.deposit.amount.units) {
            Some(v) => v,
            None => {
                return;
            },
        };
        if new_held < -BALANCE_LIMIT || new_held > BALANCE_LIMIT {
            return;
        }
        account_map_insert(
            &mut self.clients,
            id,
            ClientData {
                available: Amount { units: new_available },
                held: Amount { units: new_held },
                locked: acct.locked,
            },
        );
        dispute_map_insert(
            &mut self.disputable_transactions,
            dispute.tx.0,
            DisputableTransaction { deposit: rec.deposit, state: DisputeState::Disputed },
        );
    }

    /// Processes a transaction of type: resolve.
    pub fn process_resolve(&mut self, resolve: Resolve)
        requires
            old(self).inv(),
        ensures
            final(self).inv(),
            final(self)@ == old(self)@.apply_resolve(resolve),
    {
        let id: u16 = resolve.client.0;
        // The client must exist.
        let acct: ClientData = match account_map_get(&self.clients, id) {
            Some(a) => a,
            None => {
                return;
            },
        };
        // The transaction to be resolved must exist.
        let rec: DisputableTransaction = match dispute_map_get(
            &self.disputable_transactions,
            resolve.tx.0,
        ) {
            Some(r) => r,
            None => {
                return;
            },
        };
        // And be in the correct state.
        if rec.state != DisputeState::Disputed {
            return;
        }
        // The client identifier must be the same.
        if rec.deposit.client != resolve.client {
            return;
        }
        // Unblock the money (staying in range) and step the state back.
        let new_available: i128 = match acct.available.units.checked_add(rec.deposit.amount.units) {
            Some(v) => v,
            None => {
                return;
            },
        };
        if new_available < -BALANCE_LIMIT || new_available > BALANCE_LIMIT {
            return;
        }
        let new_held: i128 = match acct.held.units.checked_sub(rec.deposit.amount.units) {
            Some(v) => v,
            None => {
                return;
            },
        };
        if new_held < -BALANCE_LIMIT || new_held > BALANCE_LIMIT {
            return;
        }
        account_map_insert(
            &mut self.clients,
            id,
            ClientData {
                available: Amount { units: new_available },
                held: Amount { units: new_held },
                locked: acct.locked,
            },
        );
        dispute_map_insert(
            &mut self.disputable_transactions,
            resolve.tx.0,
            DisputableTransaction { deposit: rec.deposit, state: DisputeState::Undisputed },
        );
    }

    /// Processes a transaction of type: chargeback.
    pub fn process_chargeback(&mut self, chargeback: Chargeback)
        requires
            old(self).inv(),
        ensures
            final(self).inv(),
            final(self)@ == old(self)@.apply_chargeback(chargeback),
    {
        let id: u16 = chargeback.client.0;
        // The client must exist.
        let acct: ClientData = match account_map_get(&self.clients, id) {
            Some(a) => a,
            None => {
                return;
            },
        };
        // The transaction for chargeback must exist.
        let rec: DisputableTransaction = match dispute_map_get(
            &self.disputable_transactions,
            chargeback.tx.0,
        ) {
            Some(r) => r,
            None => {
                return;
            },
        };
        // And be in the correct state.
        if rec.state != DisputeState::Disputed {
            return;
        }
        // The client identifier must be the same.
        if rec.deposit.client != chargeback.client {
            return;
        }
        // Take the held money away (staying in range), lock the client, and
        // end the record's lifecycle.
        let new_held: i128 = match acct.held.units.checked_sub(rec.deposit.amount.units) {
            Some(v) => v,
            None => {
                return;
            },
        };
        if new_held < -BALANCE_LIMIT || new_held > BALANCE_LIMIT {
            return;
        }
        let new_total: i128 = match acct.available.units.checked_add(new_held) {
            Some(v) => v,
            None => {
                return;
            },
        };
        if new_total < -BALANCE_LIMIT || new_total > BALANCE_LIMIT {
            return;
        }
        account_map_insert(
            &mut self.clients,
            id,
            ClientData {
                available: acct.available,
                held: Amount { units: new_held },
                locked: true,
            },
        );
        dispute_map_insert(
            &mut self.disputable_transactions,
            chargeback.tx.0,
            DisputableTransaction { deposit: rec.deposit, state: DisputeState::Chargedback },
        );
    }

    /// Loads one record (= one transaction) in the engine.
    pub fn load_record(&mut self, record: &Transaction)
        requires
            old(self).inv(),
        ensures
            final(self).inv(),
            final(self)@ == old(self)@.apply_transaction(*record),
    {
        match *record {
            Transaction::Deposit(tx, deposit) => self.process_deposit(tx, deposit),
            Transaction::Withdrawal(withdrawal) => self.process_withdrawal(withdrawal),
            Transaction::Dispute(dispute) => self.process_dispute(dispute),
            Transaction::Resolve(resolve) => self.process_resolve(resolve),
            Transaction::Chargeback(chargeback) => self.process_chargeback(chargeback),
        }
    }

    /// Loads a whole stream of records, in arrival order.
    pub fn load_records(&mut self, records: &Vec<Transaction>)
        requires
            old(self).inv(),
        ensures
            final(self).inv(),
            final(self)@ == apply_all(old(self)@, records@),
    {
        let mut i: usize = 0;
        proof {
            assert(records@.skip(0) =~= records@);
        }
        while i < records.len()
            invariant
                self.inv(),
                i <= records@.len(),
                apply_all(old(self)@, records@) == apply_all(self@, records@.skip(i as int)),
            decreases records@.len() - i,
        {
            let ghost pre = self@;
            self.load_record(&records[i]);
            proof {
                assert(records@.skip(i as int)[0] == records@[i as int]);
                assert(records@.skip(i as int).drop_first() =~= records@.skip(i as int + 1));
            }
            i += 1;
        }
        proof {
            assert(records@.skip(records@.len() as int) =~= Seq::<Transaction>::empty());
        }
    }

    /// Returns the map of all clients and their data.
    pub fn clients(&self) -> (r: &FxHashMap<u16, ClientData>)
        ensures
            r@ == self@.accounts,
    {
        &self.clients
    }

    /// Returns the set of all clients as a vector ordered by client id: one
    /// row per known client, in strictly ascending order, each with its total
    /// recomputed as `available + held`.
    pub fn clients_ordered(&self) -> (r: Vec<ClientRecord>)
        requires
            self.inv(),
        ensures
            forall|p: int|
                0 <= p < r@.len() ==> self@.accounts.contains_key(#[trigger] r@[p].client.0),
            forall|p: int| 0 <= p < r@.len() ==> #[trigger] r@[p] == record_for(self@, r@[p].client.0),
            forall|k: u16| #[trigger]
                self@.accounts.contains_key(k) ==> exists|p: int|
                    0 <= p < r@.len() && r@[p].client.0 == k,
            forall|p: int, q: int| 0 <= p < q < r@.len() ==> r@[p].client.0 < r@[q].client.0,
            forall|p: int| 0 <= p < r@.len() ==> #[trigger] r@[p].total@ == r@[p].available@ + r@[p].held@,
    {
        let mut out: Vec<ClientRecord> = Vec::new();
        let mut i: usize = 0;
        while i < self.client_ids.len()
            invariant
                self.inv(),
                i <= self.client_ids@.len(),
                out@.len() == i,
                forall|p: int| 0 <= p < i ==> #[trigger] out@[p].client.0 == self.client_ids@[p],
                forall|p: int|
                    0 <= p < i ==> #[trigger] out@[p] == record_for(self@, self.client_ids@[p]),
            decreases self.client_ids@.len() - i,
        {
            let id: u16 = self.client_ids[i];
            let data: ClientData = match account_map_get(&self.clients, id) {
                Some(d) => d,
                None => ClientData::default(),  // cannot happen: the id list only holds ledger keys
            };
            proof {
                assert(self@.accounts.contains_key(id));
            }
            let rec = ClientRecord::new(id, data.available, data.held, data.locked);
            out.push(rec);
            i += 1;
        }
        proof {
            assert forall|k: u16| #[trigger]
                self@.accounts.contains_key(k) implies exists|p: int|
                0 <= p < out@.len() && out@[p].client.0 == k by {
                let w: int = choose|w: int|
                    0 <= w < self.client_ids@.len() && self.client_ids@[w] == k;
                assert(out@[w].client.0 == k);
            }
        }
        out
    }
}

/// Inserts a fresh client identifier into the ascending identifier list,
/// keeping it strictly sorted.
fn insert_client_id(ids: &mut Vec<u16>, id: u16)
    requires
        forall|p: int, q: int| 0 <= p < q < old(ids)@.len() ==> old(ids)@[p] < old(ids)@[q],
        !old(ids)@.contains(id),
    ensures
        forall|p: int, q: int| 0 <= p < q < final(ids)@.len() ==> final(ids)@[p] < final(ids)@[q],
        forall|k: u16| #[trigger] final(ids)@.contains(k) <==> (old(ids)@.contains(k) || k == id),
{
    let mut i: usize = 0;
    while i < ids.len() && ids[i] < id
        invariant
            ids@ == old(ids)@,
            i <= ids@.len(),
            forall|p: int| 0 <= p < i ==> ids@[p] < id,
        decreases ids@.len() - i,
    {
        i += 1;
    }
    proof {
        if i < ids@.len() && ids@[i as int] == id {
            assert(old(ids)@.contains(id));
        }
        assert forall|q: int| i <= q < ids@.len() implies ids@[q] > id by {
            assert(ids@[i as int] >= id);
            assert(ids@[i as int] != id);
        }
        old(ids)@.insert_ensures(i as int, id);
    }
    ids.insert(i, id);
    proof {
        let s = ids@;
        let pre = old(ids)@;
        assert forall|k: u16| s.contains(k) implies (pre.contains(k) || k == id) by {
            let w: int = choose|w: int| 0 <= w < s.len() && s[w] == k;
            if w < i {
                assert(pre[w] == k);
            } else if w == i {
                assert(k == id);
            } else {
                assert(s[w] == pre[w - 1]);
                assert(pre[w - 1] == k);
            }
        }
        assert forall|k: u16| (pre.contains(k) || k == id) implies s.contains(k) by {
            if k == id {
                assert(s[i as int] == k);
            } else {
                let w: int = choose|w: int| 0 <= w < pre.len() && pre[w] == k;
                if w < i {
                    assert(s[w] == k);
                } else {
                    assert(s[w + 1] == k);
                }
            }
        }
    }
}

} // verus!
