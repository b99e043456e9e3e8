//! The `log` command: lists transactions, a player's or all of them.

use vstd::prelude::*;
use vstd::string::StringExecFns;

use crate::commands::{CommandOutcome, Message, NamedColor, join, join3, line, one, say, say_str};
use crate::model::Transaction;

verus! {

/// Runs the `log` command.
pub struct LogCommandExecutor;

/// At most this many transactions are listed.
pub const LOG_PAGE_SIZE: usize = 20;

impl LogCommandExecutor {
    /// The answer when the log cannot be read.
    pub fn fetch_failed() -> (o: CommandOutcome)
        ensures
            o@ == (seq![line("Unable to fetch logs"@, NamedColor::DarkRed, None)], 0i32),
    {
        one(say_str("Unable to fetch logs", NamedColor::DarkRed, None), 0)
    }

    /// The heading of the list: of player `name`'s transactions, or of all.
    pub fn heading(subject: Option<&str>) -> (m: Message)
        ensures
            m@ == line(
                match subject {
                    Some(name) => name@ + "'s transactions:"@,
                    None => "All transactions:"@,
                },
                NamedColor::Green,
                Some(true),
            ),
    {
        match subject {
            Some(name) => say(join(name, "'s transactions:"), NamedColor::Green, Some(true)),
            None => say_str("All transactions:", NamedColor::Green, Some(true)),
        }
    }

    /// The line of one transaction: its time, amount, sender and receiver as text.
    pub fn entry(time_text: &str, amount_text: &str, from: &str, to: &str) -> (m: Message)
        ensures
            m@ == line(
                time_text@ + ": $"@ + amount_text@ + " - From "@ + from@ + " to "@ + to@,
                NamedColor::White,
                None,
            ),
    {
        let mut text = join3(time_text, ": $", amount_text);
        text.append(" - From ");
        text.append(from);
        text.append(" to ");
        text.append(to);
        say(text, NamedColor::White, None)
    }

    /// The transactions that are listed: the first `LOG_PAGE_SIZE` of them.
    pub fn page(logs: &Vec<Transaction>) -> (r: Vec<Transaction>)
        ensures
            r@ == logs@.take(if logs@.len() < LOG_PAGE_SIZE { logs@.len() as int } else { LOG_PAGE_SIZE as int }),
    {
        let n = if logs.len() < LOG_PAGE_SIZE { logs.len() } else { LOG_PAGE_SIZE };
        let mut r: Vec<Transaction> = Vec::new();
        let mut i: usize = 0;
        while i < n
            invariant
                n <= logs@.len(),
                i <= n,
                r@ == logs@.take(i as int),
            decreases n - i,
        {
            r.push(logs[i]);
            proof {
                assert(r@ =~= logs@.take(i + 1));
            }
            i = i + 1;
        }
        r
    }
}

} // verus!
