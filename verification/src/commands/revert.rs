//! The `revert` command: undoes a logged transaction.

use vstd::prelude::*;

use crate::commands::{CommandOutcome, NamedColor, line, one, say_str};
use crate::keys::{parse_player_id, uuid_parse};
use crate::model::Transaction;

verus! {

/// Runs the `revert` command.
pub struct RevertCommandExecutor;

impl RevertCommandExecutor {
    /// Reads the id of the transaction to revert from the command's argument.
    pub fn transaction_id(arg: &str) -> (r: Option<u128>)
        ensures
            r == uuid_parse(arg@),
    {
        parse_player_id(arg)
    }

    /// What searching the log for the transaction gave: the transaction to
    /// revert, or the command's answer when there is none.
    pub fn found(search: &Result<Option<Transaction>, String>) -> (r: Result<Transaction, CommandOutcome>)
        ensures
            match *search {
                Ok(Some(t)) => r == Ok::<Transaction, CommandOutcome>(t),
                Ok(None) => r is Err && r->Err_0@ == (
                    seq![line("Transaction not found!"@, NamedColor::DarkRed, Some(true))],
                    0i32,
                ),
                Err(_) => r is Err && r->Err_0@ == (
                    seq![line("Error searching transaction"@, NamedColor::DarkRed, Some(true))],
                    0i32,
                ),
            },
    {
        match search {
            Ok(Some(t)) => Ok(*t),
            Ok(None) => Err(one(say_str("Transaction not found!", NamedColor::DarkRed, Some(true)), 0)),
            Err(_) => Err(one(say_str("Error searching transaction", NamedColor::DarkRed, Some(true)), 0)),
        }
    }

    /// The answer once reverting gave `result`.
    pub fn reverted(result: &Result<(), String>) -> (o: CommandOutcome)
        ensures
            o@ == match result {
                Ok(()) => (seq![line("Transaction reverted successfully!"@, NamedColor::Green, Some(true))], 0i32),
                Err(_) => (seq![line("Error reverting transaction"@, NamedColor::DarkRed, Some(true))], 0i32),
            },
    {
        match result {
            Ok(()) => one(say_str("Transaction reverted successfully!", NamedColor::Green, Some(true)), 0),
            Err(_) => one(say_str("Error reverting transaction", NamedColor::DarkRed, Some(true)), 0),
        }
    }

    /// The answer when no transaction is named.
    pub fn missing_argument() -> (o: CommandOutcome)
        ensures
            o@ == (seq![line("Missing argument: 'transaction'"@, NamedColor::DarkRed, Some(true))], 0i32),
    {
        one(say_str("Missing argument: 'transaction'", NamedColor::DarkRed, Some(true)), 0)
    }
}

} // verus!
