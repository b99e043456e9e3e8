//! What the `balance` and `account` commands answer, stated over all inputs.

use vstd::prelude::*;

use crate::commands::{MessageView, NamedColor, line};
use crate::commands::account::spec_account_report;
use crate::commands::balance::{balance_line, spec_balance_report};
use crate::keys::spec_hyphenated;
use crate::model::ConcelarePlayer;

verus! {

/// The balance command answers the balance line, and a second message, the
/// frozen notice, exactly when the account is frozen; the code is always 1.
/// Asked about a frozen account, it answers what it answers about the same
/// account not frozen, followed by the notice.
pub proof fn law_balance_notice_iff_frozen(subject: Option<Seq<char>>, balance_text: Seq<char>, frozen: bool)
    ensures
        ({
            let (messages, code) = spec_balance_report(subject, balance_text, frozen);
            let heading = match subject {
                Some(name) => name + "'s Balance: $"@,
                None => "Your Balance: $"@,
            };
            let notice = match subject {
                Some(_) => "Notice: This player's account is frozen!"@,
                None => "Notice: Your balance is frozen!"@,
            };
            &&& code == 1
            &&& messages.len() == (if frozen { 2int } else { 1int })
            &&& messages[0] == balance_line(heading, balance_text)
            &&& messages[0].head.color == NamedColor::Green
            &&& messages[0].child == Some(crate::commands::StyledView {
                text: balance_text,
                color: NamedColor::White,
                bold: Some(false),
            })
            &&& frozen ==> messages[1] == line(notice, NamedColor::DarkRed, Some(true))
            &&& frozen ==> messages == spec_balance_report(subject, balance_text, false).0.push(
                line(notice, NamedColor::DarkRed, Some(true)),
            )
        }),
{
    let r = spec_balance_report(subject, balance_text, frozen);
    assert(r.0.len() == (if frozen { 2int } else { 1int }));
    if frozen {
        assert(r.0 =~= spec_balance_report(subject, balance_text, false).0.push(
            line(
                match subject {
                    Some(_) => "Notice: This player's account is frozen!"@,
                    None => "Notice: Your balance is frozen!"@,
                },
                NamedColor::DarkRed,
                Some(true),
            ),
        ));
    }
}

/// For an account that was found, the account command answers six white
/// lines after an aqua heading, code 1: the heading with the player's name,
/// the name, the id in its hyphenated form, the balance text, whether the
/// account is frozen (`Yes` exactly when it is, whatever the player's
/// presence and last-seen time), and the last-seen time, or `Online` when
/// the player is on the server (whatever the account's frozen flag).
pub proof fn law_account_report_found(
    name: Seq<char>,
    id: u128,
    info: ConcelarePlayer,
    balance_text: Seq<char>,
    last_seen_text: Seq<char>,
    online: bool,
)
    ensures
        ({
            let (messages, code) = spec_account_report(
                name,
                id,
                Ok(Some(info)),
                balance_text,
                last_seen_text,
                online,
            );
            &&& code == 1
            &&& messages.len() == 6
            &&& messages[0] == line(name + "'s Information"@, NamedColor::Aqua, Some(true))
            &&& messages[1] == line("Username: "@ + name, NamedColor::White, None)
            &&& messages[2] == line("UUID: "@ + spec_hyphenated(id), NamedColor::White, None)
            &&& messages[3] == line("Balance: $"@ + balance_text, NamedColor::White, None)
            &&& (messages[4].head.text == "Frozen: "@ + "Yes"@) == info.frozen
            &&& (messages[4].head.text == "Frozen: "@ + "No"@) == !info.frozen
            &&& messages[4].head.color == NamedColor::White
            &&& messages[4].child is None
            &&& (online ==> messages[5] == line("Last Seen: Online"@, NamedColor::White, None))
            &&& (!online ==> messages[5] == line("Last Seen: "@ + last_seen_text, NamedColor::White, None))
        }),
        // The frozen line does not depend on presence or last-seen time, and
        // the last-seen line does not depend on the frozen flag.
        forall|other_online: bool, other_seen: Seq<char>|
            #[trigger] spec_account_report(name, id, Ok(Some(info)), balance_text, other_seen, other_online).0[4]
                == spec_account_report(name, id, Ok(Some(info)), balance_text, last_seen_text, online).0[4],
        forall|flag: bool|
            #[trigger] spec_account_report(
                name,
                id,
                Ok(Some(ConcelarePlayer { frozen: flag, ..info })),
                balance_text,
                last_seen_text,
                online,
            ).0[5] == spec_account_report(name, id, Ok(Some(info)), balance_text, last_seen_text, online).0[5],
{
    reveal_strlit("Yes");
    reveal_strlit("No");
    assert(("Frozen: "@ + "Yes"@).len() != ("Frozen: "@ + "No"@).len());
}

/// When no account was found the command answers `Player not found` with
/// code 1, and when the account could not be read it answers that it failed
/// with code 0; neither depends on the other inputs.
pub proof fn law_account_report_missing(
    name: Seq<char>,
    id: u128,
    error: String,
    balance_text: Seq<char>,
    last_seen_text: Seq<char>,
    online: bool,
)
    ensures
        spec_account_report(name, id, Ok(None), balance_text, last_seen_text, online) == (
            seq![line("Player not found"@, NamedColor::DarkRed, Some(true))],
            1i32,
        ),
        spec_account_report(name, id, Err(error), balance_text, last_seen_text, online) == (
            seq![line("Failed to retrieve player information"@, NamedColor::DarkRed, Some(true))],
            0i32,
        ),
{
}

} // verus!
