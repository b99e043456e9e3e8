//! The administrators' account commands: `freeze`, `unfreeze` and `remove`.

use vstd::prelude::*;
use vstd::string::StringExecFns;

use crate::commands::{CommandOutcome, Message, NamedColor, join, join3, line, missing_player, one, say, say_str};
use crate::ledger::{AccountError, spec_error_message};
use crate::text::{contains_text, occurs_in};

verus! {

/// Runs the `freeze` command.
pub struct FreezeCommandExecutor;

/// Runs the `unfreeze` command.
pub struct UnfreezeCommandExecutor;

/// Runs the `remove` command.
pub struct RemoveMoneyCommandExecutor;

impl FreezeCommandExecutor {
    /// The answer when the account is frozen already.
    pub fn already_frozen() -> (o: CommandOutcome)
        ensures
            o@ == (seq![line("This player's account is already frozen!"@, NamedColor::DarkRed, Some(true))], 1i32),
    {
        one(say_str("This player's account is already frozen!", NamedColor::DarkRed, Some(true)), 1)
    }

    /// The answer once freezing player `name`'s account gave `result`.
    pub fn result(name: &str, result: &Result<(), AccountError>) -> (o: CommandOutcome)
        ensures
            o@ == match result {
                Ok(()) => (seq![line(name@ + "'s Account Has Been Frozen"@, NamedColor::Green, Some(true))], 1i32),
                Err(_) => (seq![line("Error saving player!"@, NamedColor::DarkRed, Some(true))], 0i32),
            },
    {
        match result {
            Ok(()) => one(say(join(name, "'s Account Has Been Frozen"), NamedColor::Green, Some(true)), 1),
            Err(_) => one(say_str("Error saving player!", NamedColor::DarkRed, Some(true)), 0),
        }
    }

    /// The answer when no player is named.
    pub fn missing_argument() -> (o: CommandOutcome)
        ensures
            o@ == (seq![line("Missing Argument: 'Player'"@, NamedColor::DarkRed, Some(true))], 1i32),
    {
        missing_player(1)
    }
}

impl UnfreezeCommandExecutor {
    /// The answer when the account is not frozen.
    pub fn not_frozen() -> (o: CommandOutcome)
        ensures
            o@ == (seq![line("This player's account is not frozen!"@, NamedColor::DarkRed, Some(true))], 1i32),
    {
        one(say_str("This player's account is not frozen!", NamedColor::DarkRed, Some(true)), 1)
    }

    /// The answer once unfreezing player `name`'s account gave `result`.
    pub fn result(name: &str, result: &Result<(), AccountError>) -> (o: CommandOutcome)
        ensures
            o@ == match result {
                Ok(()) => (seq![line(name@ + "'s Account Has Been Unfrozen"@, NamedColor::Green, Some(true))], 1i32),
                Err(_) => (seq![line("Error unfreezing player!"@, NamedColor::DarkRed, Some(true))], 1i32),
            },
    {
        match result {
            Ok(()) => one(say(join(name, "'s Account Has Been Unfrozen"), NamedColor::Green, Some(true)), 1),
            Err(_) => one(say_str("Error unfreezing player!", NamedColor::DarkRed, Some(true)), 1),
        }
    }

    /// The answer when no player is named.
    pub fn missing_argument() -> (o: CommandOutcome)
        ensures
            o@ == (seq![line("Missing Argument: 'Player'"@, NamedColor::DarkRed, Some(true))], 1i32),
    {
        missing_player(1)
    }
}

impl RemoveMoneyCommandExecutor {
    /// The answer when the player's account is frozen.
    pub fn frozen() -> (o: CommandOutcome)
        ensures
            o@ == (seq![line("This player is frozen!"@, NamedColor::DarkRed, Some(true))], 1i32),
    {
        one(say_str("This player is frozen!", NamedColor::DarkRed, Some(true)), 1)
    }

    /// The answer when removing the money failed with `error`: whether the
    /// error's text speaks of insufficient funds decides the message.
    pub fn failure(error: &AccountError) -> (o: CommandOutcome)
        ensures
            o@ == (
                seq![line(
                    if occurs_in("Insufficient funds"@, spec_error_message(*error)) {
                        "The player had insufficient funds to remove!"@
                    } else {
                        "Error updating balance!"@
                    },
                    NamedColor::DarkRed,
                    Some(true),
                )],
                0i32,
            ),
    {
        let text = error.message();
        let m = if contains_text(text.as_str(), "Insufficient funds") {
            say_str("The player had insufficient funds to remove!", NamedColor::DarkRed, Some(true))
        } else {
            say_str("Error updating balance!", NamedColor::DarkRed, Some(true))
        };
        one(m, 0)
    }

    /// The message once `amount_text` was removed from player `name`.
    pub fn removed(amount_text: &str, name: &str) -> (m: Message)
        ensures
            m@ == line("You have removed $"@ + amount_text@ + " from "@ + name@, NamedColor::Green, Some(true)),
    {
        let mut text = join3("You have removed $", amount_text, " from ");
        text.append(name);
        say(text, NamedColor::Green, Some(true))
    }

    /// The answer when the player or the amount is missing.
    pub fn missing_arguments() -> (o: CommandOutcome)
        ensures
            o@ == (seq![line("Missing arguments: 'Player' and 'Amount'"@, NamedColor::DarkRed, Some(true))], 1i32),
    {
        one(say_str("Missing arguments: 'Player' and 'Amount'", NamedColor::DarkRed, Some(true)), 1)
    }
}

} // verus!
