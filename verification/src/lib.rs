//! Account and transaction rules of the Concelare economy plugin.
//!
//! The library holds the economy's logic as plain values: player records,
//! the rules that every account operation follows against the player store,
//! the transaction log's line framing and searches, and the text that the
//! commands show. Reading and writing the store, the clock and floating point
//! arithmetic are done by the caller, which hands the results back.

pub mod model;
pub mod ledger;
pub mod ledger_laws;
pub mod keys;
pub mod money;
pub mod text;
pub mod transactions;
pub mod commands;
pub mod events;

pub use model::{ConcelarePlayer, Timestamp, Transaction};
pub use transactions::TransactionService;
pub use commands::account::AccountCommandExecutor;
pub use commands::revert::RevertCommandExecutor;
