//! What the plugin does when a player joins or leaves the server.

use vstd::prelude::*;
use vstd::string::StringExecFns;

use crate::ledger::AccountError;
use crate::model::{ConcelarePlayer, Timestamp};

verus! {

/// Handles players joining: creates the accounts of new players.
pub struct OnJoinEvent;

/// Handles players leaving: records when they were last seen.
pub struct OnLeaveEvent;

/// What to do for a joining player once their account has been looked up.
#[derive(Clone, Copy, Debug, PartialEq, Eq, Structural)]
pub struct JoinPlan {
    /// Create the player's account.
    pub create_account: bool,
    /// Greet the player.
    pub welcome: bool,
}

impl OnJoinEvent {
    /// A new player gets an account; a player whose account could not be
    /// read is left alone, without a greeting.
    pub fn plan(lookup: &Result<Option<ConcelarePlayer>, AccountError>) -> (p: JoinPlan)
        ensures
            p == match *lookup {
                Ok(None) => JoinPlan { create_account: true, welcome: true },
                Ok(Some(_)) => JoinPlan { create_account: false, welcome: true },
                Err(_) => JoinPlan { create_account: false, welcome: false },
            },
    {
        match lookup {
            Ok(None) => JoinPlan { create_account: true, welcome: true },
            Ok(Some(_)) => JoinPlan { create_account: false, welcome: true },
            Err(_) => JoinPlan { create_account: false, welcome: false },
        }
    }

    /// The greeting.
    pub fn welcome() -> (s: String)
        ensures
            s@ == "Welcome to the server!"@,
    {
        String::from_str("Welcome to the server!")
    }
}

impl OnLeaveEvent {
    /// The record of a player who was last seen at `now`.
    pub fn seen(player: &ConcelarePlayer, now: Timestamp) -> (p: ConcelarePlayer)
        ensures
            p == (ConcelarePlayer { last_seen: now, ..*player }),
    {
        ConcelarePlayer { last_seen: now, ..*player }
    }
}

} // verus!
