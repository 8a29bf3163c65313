use toy_engine::amount::Amount;
use toy_engine::engine::{ClientId, ClientRecord, Engine};
use toy_engine::transaction::{
    Chargeback, Deposit, Dispute, Resolve, Transaction, TransactionId, Withdrawal,
};

fn deposit(client: u16, tx: u32, whole: i64) -> Transaction {
    Transaction::Deposit(
        TransactionId(tx),
        Deposit::new(ClientId(client), Amount::from_int(whole)),
    )
}

fn withdrawal(client: u16, whole: i64) -> Transaction {
    Transaction::Withdrawal(Withdrawal::new(ClientId(client), Amount::from_int(whole)))
}

fn dispute(client: u16, tx: u32) -> Transaction {
    Transaction::Dispute(Dispute::new(ClientId(client), TransactionId(tx)))
}

fn resolve(client: u16, tx: u32) -> Transaction {
    Transaction::Resolve(Resolve::new(ClientId(client), TransactionId(tx)))
}

fn chargeback(client: u16, tx: u32) -> Transaction {
    Transaction::Chargeback(Chargeback::new(ClientId(client), TransactionId(tx)))
}

fn run(records: Vec<Transaction>) -> Vec<ClientRecord> {
    let mut engine = Engine::default();
    engine.load_records(&records);
    engine.clients_ordered()
}

fn rec(client: u16, available: i64, held: i64, locked: bool) -> ClientRecord {
    ClientRecord::new(
        client,
        Amount::from_int(available),
        Amount::from_int(held),
        locked,
    )
}

#[test]
fn multiple_clients_deposit() {
    let clients = run(vec![deposit(1, 1, 1), deposit(2, 2, 2)]);
    assert_eq!(clients, vec![rec(1, 1, 0, false), rec(2, 2, 0, false)]);
}

#[test]
fn successful_withdrawal() {
    let clients = run(vec![deposit(1, 1, 3), withdrawal(1, 1)]);
    assert_eq!(clients, vec![rec(1, 2, 0, false)]);
}

#[test]
fn full_withdrawal() {
    let clients = run(vec![deposit(1, 1, 3), withdrawal(1, 3)]);
    assert_eq!(clients, vec![rec(1, 0, 0, false)]);
}

#[test]
fn unsuccessful_withdrawal() {
    let clients = run(vec![deposit(1, 1, 3), withdrawal(1, 4)]);
    assert_eq!(clients, vec![rec(1, 3, 0, false)]);
}

#[test]
fn successful_dispute() {
    let clients = run(vec![deposit(1, 1, 3), dispute(1, 1)]);
    assert_eq!(clients, vec![rec(1, 0, 3, false)]);
}

#[test]
fn successful_dispute_negative_balance() {
    let clients = run(vec![deposit(1, 1, 3), withdrawal(1, 1), dispute(1, 1)]);
    assert_eq!(clients, vec![rec(1, -1, 3, false)]);
}

#[test]
fn dispute_wrong_tx() {
    let clients = run(vec![deposit(1, 1, 3), dispute(1, 3)]);
    assert_eq!(clients, vec![rec(1, 3, 0, false)]);
}

#[test]
fn dispute_wrong_client() {
    let clients = run(vec![deposit(1, 1, 3), dispute(2, 1)]);
    assert_eq!(clients, vec![rec(1, 3, 0, false)]);
}

#[test]
fn successful_resolve() {
    let clients = run(vec![deposit(1, 1, 3), dispute(1, 1), resolve(1, 1)]);
    assert_eq!(clients, vec![rec(1, 3, 0, false)]);
}

#[test]
fn resolve_wrong_tx() {
    let clients = run(vec![deposit(1, 1, 3), dispute(1, 1), resolve(1, 2)]);
    assert_eq!(clients, vec![rec(1, 0, 3, false)]);
}

#[test]
fn resolve_not_under_dispute() {
    let clients = run(vec![
        deposit(1, 1, 3),
        dispute(1, 1),
        deposit(1, 2, 1),
        resolve(1, 2),
    ]);
    assert_eq!(clients, vec![rec(1, 1, 3, false)]);
}

#[test]
fn resolve_wrong_client() {
    let clients = run(vec![deposit(1, 1, 3), dispute(1, 1), resolve(2, 1)]);
    assert_eq!(clients, vec![rec(1, 0, 3, false)]);
}

#[test]
fn successful_chargeback() {
    let clients = run(vec![
        deposit(1, 1, 1),
        deposit(1, 2, 3),
        dispute(1, 1),
        chargeback(1, 1),
    ]);
    assert_eq!(clients, vec![rec(1, 3, 0, true)]);
}

#[test]
fn chargeback_wrong_tx() {
    let clients = run(vec![deposit(1, 1, 3), dispute(1, 1), chargeback(1, 2)]);
    assert_eq!(clients, vec![rec(1, 0, 3, false)]);
}

#[test]
fn chargeback_not_under_dispute() {
    let clients = run(vec![
        deposit(1, 1, 3),
        dispute(1, 1),
        deposit(1, 2, 1),
        chargeback(1, 2),
    ]);
    assert_eq!(clients, vec![rec(1, 1, 3, false)]);
}

#[test]
fn chargeback_wrong_client() {
    let clients = run(vec![deposit(1, 1, 3), dispute(1, 1), chargeback(2, 1)]);
    assert_eq!(clients, vec![rec(1, 0, 3, false)]);
}

#[test]
fn chargeback_freeze() {
    let clients = run(vec![
        deposit(1, 1, 3),
        dispute(1, 1),
        chargeback(1, 1),
        deposit(1, 2, 1),
    ]);
    assert_eq!(clients, vec![rec(1, 0, 0, true)]);
}

#[test]
fn interleaved_clients() {
    let clients = run(vec![
        deposit(1, 1, 4),
        withdrawal(1, 1),
        deposit(2, 2, 4),
        dispute(2, 2),
        resolve(2, 2),
        withdrawal(1, 1),
        deposit(2, 4, 1),
        withdrawal(2, 2),
    ]);
    assert_eq!(clients, vec![rec(1, 2, 0, false), rec(2, 3, 0, false)]);
}
