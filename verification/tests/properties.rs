use toy_engine::amount::Amount;
use toy_engine::config::Config;
use toy_engine::engine::{ClientId, ClientRecord, Engine};
use toy_engine::transaction::{
    Chargeback, Deposit, Dispute, Resolve, Transaction, TransactionId, Withdrawal,
};

fn deposit(client: u16, tx: u32, whole: i64) -> Transaction {
    Transaction::Deposit(
        TransactionId(tx),
        Deposit::new(ClientId(client), Amount::from_int(whole)),
    )
}

fn withdrawal(client: u16, whole: i64) -> Transaction {
    Transaction::Withdrawal(Withdrawal::new(ClientId(client), Amount::from_int(whole)))
}

fn dispute(client: u16, tx: u32) -> Transaction {
    Transaction::Dispute(Dispute::new(ClientId(client), TransactionId(tx)))
}

fn resolve(client: u16, tx: u32) -> Transaction {
    Transaction::Resolve(Resolve::new(ClientId(client), TransactionId(tx)))
}

fn chargeback(client: u16, tx: u32) -> Transaction {
    Transaction::Chargeback(Chargeback::new(ClientId(client), TransactionId(tx)))
}

fn run(records: Vec<Transaction>) -> Vec<ClientRecord> {
    let mut engine = Engine::default();
    engine.load_records(&records);
    engine.clients_ordered()
}

fn rec(client: u16, available: i64, held: i64, locked: bool) -> ClientRecord {
    ClientRecord::new(
        client,
        Amount::from_int(available),
        Amount::from_int(held),
        locked,
    )
}

#[test]
fn single_deposit() {
    let clients = run(vec![deposit(1, 1, 1)]);
    assert_eq!(clients, vec![rec(1, 1, 0, false)]);
}

#[test]
fn total_is_available_plus_held() {
    let clients = run(vec![deposit(1, 1, 3), deposit(1, 2, 4), dispute(1, 1)]);
    assert_eq!(clients.len(), 1);
    assert_eq!(
        clients[0].total.units(),
        clients[0].available.units() + clients[0].held.units()
    );
    assert_eq!(clients[0].total, Amount::from_int(7));
}

#[test]
fn fractional_amounts_are_exact() {
    let half = Transaction::Deposit(
        TransactionId(1),
        Deposit::new(ClientId(1), Amount::from_units(15_000)),
    );
    let half2 = Transaction::Deposit(
        TransactionId(2),
        Deposit::new(ClientId(1), Amount::from_units(15_000)),
    );
    let clients = run(vec![half, half2]);
    assert_eq!(clients, vec![rec(1, 3, 0, false)]);
}

#[test]
fn dispute_resolve_cycles_do_not_drift() {
    let mut records = vec![deposit(1, 1, 3)];
    for _ in 0..5 {
        records.push(dispute(1, 1));
        records.push(resolve(1, 1));
    }
    let clients = run(records);
    assert_eq!(clients, vec![rec(1, 3, 0, false)]);
}

#[test]
fn duplicate_tx_overwrites_dispute_entry() {
    // The second deposit reuses tx 1, so a later dispute holds its amount,
    // not the first one's.
    let clients = run(vec![deposit(1, 1, 3), deposit(1, 1, 2), dispute(1, 1)]);
    assert_eq!(clients, vec![rec(1, 3, 2, false)]);
}

#[test]
fn chargeback_is_terminal() {
    let clients = run(vec![
        deposit(1, 1, 3),
        dispute(1, 1),
        chargeback(1, 1),
        chargeback(1, 1),
        resolve(1, 1),
        dispute(1, 1),
    ]);
    assert_eq!(clients, vec![rec(1, 0, 0, true)]);
}

#[test]
fn locked_account_still_resolves_pre_existing_dispute() {
    // The lock gates deposits and withdrawals only: a dispute raised after
    // the chargeback still holds funds, and its resolve still releases them.
    let clients = run(vec![
        deposit(1, 1, 1),
        deposit(1, 2, 3),
        dispute(1, 1),
        chargeback(1, 1),
        dispute(1, 2),
        resolve(1, 2),
    ]);
    assert_eq!(clients, vec![rec(1, 3, 0, true)]);
}

#[test]
fn withdrawal_never_creates_account() {
    let clients = run(vec![withdrawal(1, 1)]);
    assert_eq!(clients, vec![]);
}

#[test]
fn withdrawal_from_locked_account_rejected() {
    let clients = run(vec![
        deposit(1, 1, 1),
        deposit(1, 2, 3),
        dispute(1, 1),
        chargeback(1, 1),
        withdrawal(1, 2),
    ]);
    assert_eq!(clients, vec![rec(1, 3, 0, true)]);
}

#[test]
fn clients_map_holds_final_state() {
    let mut engine = Engine::new();
    engine.load_record(&deposit(7, 1, 2));
    let clients = engine.clients();
    let data = clients.get(&7).copied().expect("account must exist");
    assert_eq!(data.available, Amount::from_int(2));
    assert_eq!(data.held, Amount::zero());
    assert!(!data.locked);
    assert!(clients.get(&8).is_none());
}

#[test]
fn clients_ordered_sorts_by_client_id() {
    let clients = run(vec![deposit(9, 1, 1), deposit(3, 2, 1), deposit(5, 3, 1)]);
    assert_eq!(
        clients,
        vec![rec(3, 1, 0, false), rec(5, 1, 0, false), rec(9, 1, 0, false)]
    );
}

#[test]
fn amount_conversions() {
    assert_eq!(Amount::from_int(2).units(), 20_000);
    assert_eq!(Amount::from_units(-10_000), Amount::from_int(-1));
    assert_eq!(Amount::zero().units(), 0);
}

#[test]
fn config_keeps_path() {
    let config = Config::new(String::from("records.csv"));
    assert_eq!(config.input_file, "records.csv");
}

#[test]
fn empty_stream_yields_no_accounts() {
    let clients = run(vec![]);
    assert_eq!(clients, vec![]);
}

#[test]
fn dispute_of_already_disputed_tx_is_noop() {
    let clients = run(vec![deposit(1, 1, 3), dispute(1, 1), dispute(1, 1)]);
    assert_eq!(clients, vec![rec(1, 0, 3, false)]);
}
