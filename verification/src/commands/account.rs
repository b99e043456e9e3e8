//! The `account` command: shows a player's account.

use vstd::prelude::*;

use crate::commands::{
    CommandOutcome, Message, MessageView, NamedColor, join, line, message_views, missing_player, say,
    say_str,
};
use crate::keys::{parse_player_id, player_key, spec_hyphenated, uuid_parse};
use crate::model::ConcelarePlayer;

verus! {

/// Runs the `account` command.
pub struct AccountCommandExecutor;

/// What the `account` command answers about player `name` with id `id`,
/// given what reading the account gave; `balance_text` and `last_seen_text`
/// are the account's balance and last-seen time as text, and `online` tells
/// whether the player is on the server.
pub open spec fn spec_account_report(
    name: Seq<char>,
    id: u128,
    lookup: Result<Option<ConcelarePlayer>, String>,
    balance_text: Seq<char>,
    last_seen_text: Seq<char>,
    online: bool,
) -> (Seq<MessageView>, i32) {
    match lookup {
        Ok(None) => (seq![line("Player not found"@, NamedColor::DarkRed, Some(true))], 1),
        Err(_) => (seq![line("Failed to retrieve player information"@, NamedColor::DarkRed, Some(true))], 0),
        Ok(Some(info)) => (
            seq![
                line(name + "'s Information"@, NamedColor::Aqua, Some(true)),
                line("Username: "@ + name, NamedColor::White, None),
                line("UUID: "@ + spec_hyphenated(id), NamedColor::White, None),
                line("Balance: $"@ + balance_text, NamedColor::White, None),
                line("Frozen: "@ + (if info.frozen { "Yes"@ } else { "No"@ }), NamedColor::White, None),
                line(
                    if online { "Last Seen: Online"@ } else { "Last Seen: "@ + last_seen_text },
                    NamedColor::White,
                    None,
                ),
            ],
            1,
        ),
    }
}

impl AccountCommandExecutor {
    /// The player whose account is shown: the first of the players named by
    /// `ids` whose id reads as a player id, with that id.
    pub fn target(ids: &Vec<String>) -> (r: Option<(usize, u128)>)
        ensures
            match r {
                Some((i, id)) => {
                    &&& i < ids@.len()
                    &&& uuid_parse(ids@[i as int]@) == Some(id)
                    &&& forall|j: int| 0 <= j < i ==> uuid_parse(#[trigger] ids@[j]@) is None
                },
                None => forall|j: int| 0 <= j < ids@.len() ==> uuid_parse(#[trigger] ids@[j]@) is None,
            },
    {
        let mut i: usize = 0;
        while i < ids.len()
            invariant
                i <= ids@.len(),
                forall|j: int| 0 <= j < i ==> uuid_parse(#[trigger] ids@[j]@) is None,
            decreases ids@.len() - i,
        {
            match parse_player_id(ids[i].as_str()) {
                Some(id) => return Some((i, id)),
                None => {},
            }
            i = i + 1;
        }
        None
    }

    /// What the command answers about player `name` with id `id`.
    pub fn report(
        name: &str,
        id: u128,
        lookup: &Result<Option<ConcelarePlayer>, String>,
        balance_text: &str,
        last_seen_text: &str,
        online: bool,
    ) -> (o: CommandOutcome)
        ensures
            o@ == spec_account_report(name@, id, *lookup, balance_text@, last_seen_text@, online),
            lookup matches Ok(Some(info)) ==> o.messages@.len() == 6 && (o.messages@[4].head.text@ == "Frozen: "@
                + "Yes"@) == info.frozen,
    {
        match lookup {
            Ok(None) => crate::commands::one(say_str("Player not found", NamedColor::DarkRed, Some(true)), 1),
            Err(_) => crate::commands::one(
                say_str("Failed to retrieve player information", NamedColor::DarkRed, Some(true)),
                0,
            ),
            Ok(Some(info)) => {
                let mut messages: Vec<Message> = Vec::new();
                messages.push(say(join(name, "'s Information"), NamedColor::Aqua, Some(true)));
                messages.push(say(join("Username: ", name), NamedColor::White, None));
                let key = player_key(id);
                messages.push(say(join("UUID: ", key.as_str()), NamedColor::White, None));
                messages.push(say(join("Balance: $", balance_text), NamedColor::White, None));
                let frozen = if info.frozen { "Yes" } else { "No" };
                messages.push(say(join("Frozen: ", frozen), NamedColor::White, None));
                let seen = if online {
                    say_str("Last Seen: Online", NamedColor::White, None)
                } else {
                    say(join("Last Seen: ", last_seen_text), NamedColor::White, None)
                };
                messages.push(seen);
                let o = CommandOutcome { messages, code: 1 };
                proof {
                    crate::commands::report_laws::law_account_report_found(
                        name@,
                        id,
                        *info,
                        balance_text@,
                        last_seen_text@,
                        online,
                    );
                }
                assert(message_views(o.messages@) =~= spec_account_report(
                    name@,
                    id,
                    *lookup,
                    balance_text@,
                    last_seen_text@,
                    online,
                ).0);
                o
            },
        }
    }

    /// What the command answers when no player is named.
    pub fn missing_argument() -> (o: CommandOutcome)
        ensures
            o@ == (seq![line("Missing Argument: 'Player'"@, NamedColor::DarkRed, Some(true))], 1i32),
    {
        missing_player(1)
    }
}

} // verus!
