//! A verified transaction-processing engine.
//!
//! The engine ingests an ordered stream of transaction records (deposits,
//! withdrawals, disputes, resolves and chargebacks) and maintains one account
//! per client together with a dispute index over past deposits.  Every state
//! transition is specified against a mathematical model of the ledger and
//! proved: balances move exactly as the rules say, invalid references are
//! no-ops, and a chargeback locks the account for good.

pub mod amount;
pub mod config;
pub mod engine;
mod fxmap;
pub mod laws;
pub mod transaction;

pub use amount::Amount;
pub use config::Config;
pub use engine::Engine;
