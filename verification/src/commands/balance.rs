//! The `balance` command: shows a player's balance, or the caller's own.

use vstd::prelude::*;
use vstd::string::StringExecFns;

use crate::commands::{
    CommandOutcome, Message, MessageView, NamedColor, Styled, StyledView, join, line, message_views,
    say_str,
};

verus! {

/// Runs the `balance` command.
pub struct BalanceCommandExecutor;

/// The balance message: a bold green heading followed by the balance in
/// plain white.
pub open spec fn balance_line(heading: Seq<char>, balance_text: Seq<char>) -> MessageView {
    MessageView {
        head: StyledView { text: heading, color: NamedColor::Green, bold: Some(true) },
        child: Some(StyledView { text: balance_text, color: NamedColor::White, bold: Some(false) }),
    }
}

/// What the command answers once it has the balance (as text) and the
/// frozen status: about player `subject`, or about the caller when there is
/// none.
pub open spec fn spec_balance_report(subject: Option<Seq<char>>, balance_text: Seq<char>, frozen: bool) -> (
    Seq<MessageView>,
    i32,
) {
    let heading = match subject {
        Some(name) => name + "'s Balance: $"@,
        None => "Your Balance: $"@,
    };
    let notice = match subject {
        Some(_) => "Notice: This player's account is frozen!"@,
        None => "Notice: Your balance is frozen!"@,
    };
    (
        if frozen {
            seq![balance_line(heading, balance_text), line(notice, NamedColor::DarkRed, Some(true))]
        } else {
            seq![balance_line(heading, balance_text)]
        },
        1,
    )
}

impl BalanceCommandExecutor {
    /// What the command answers about `subject` (or the caller, for `None`)
    /// whose balance reads `balance_text` and who is `frozen` or not.
    pub fn report(subject: Option<&str>, balance_text: &str, frozen: bool) -> (o: CommandOutcome)
        ensures
            o@ == spec_balance_report(
                match subject {
                    Some(s) => Some(s@),
                    None => None,
                },
                balance_text@,
                frozen,
            ),
            o.code == 1,
            o.messages@.len() == (if frozen { 2int } else { 1int }),
    {
        let heading = match subject {
            Some(name) => join(name, "'s Balance: $"),
            None => String::from_str("Your Balance: $"),
        };
        let head = Styled { text: heading, color: NamedColor::Green, bold: Some(true) };
        let child = Styled { text: String::from_str(balance_text), color: NamedColor::White, bold: Some(false) };
        let mut messages: Vec<Message> = Vec::new();
        messages.push(Message { head, child: Some(child) });
        if frozen {
            let notice = match subject {
                Some(_) => "Notice: This player's account is frozen!",
                None => "Notice: Your balance is frozen!",
            };
            messages.push(say_str(notice, NamedColor::DarkRed, Some(true)));
        }
        let o = CommandOutcome { messages, code: 1 };
        assert(message_views(o.messages@) =~= spec_balance_report(
            match subject {
                Some(s) => Some(s@),
                None => None,
            },
            balance_text@,
            frozen,
        ).0);
        o
    }
}

} // verus!
