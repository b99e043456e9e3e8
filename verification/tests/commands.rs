use concelare_economy::commands::accounts_admin::{FreezeCommandExecutor, RemoveMoneyCommandExecutor, UnfreezeCommandExecutor};
use concelare_economy::commands::balance::BalanceCommandExecutor;
use concelare_economy::commands::log::{LogCommandExecutor, LOG_PAGE_SIZE};
use concelare_economy::commands::{permission_node, CommandOutcome, Message, NamedColor, Styled};
use concelare_economy::events::{JoinPlan, OnJoinEvent, OnLeaveEvent};
use concelare_economy::ledger::AccountError;
use concelare_economy::{AccountCommandExecutor, ConcelarePlayer, RevertCommandExecutor, Timestamp, Transaction};

fn msg(text: &str, color: NamedColor, bold: Option<bool>) -> Message {
    Message { head: Styled { text: text.to_string(), color, bold }, child: None }
}

fn outcome(messages: Vec<Message>, code: i32) -> CommandOutcome {
    CommandOutcome { messages, code }
}

const T0: Timestamp = Timestamp { secs: 1_700_000_000, nanos: 0 };

fn player(frozen: bool) -> ConcelarePlayer {
    ConcelarePlayer { uuid: 1, balance_bits: 12.5f32.to_bits(), created_at: T0, last_updated: T0, last_seen: T0, frozen }
}

#[test]
fn account_target_skips_unreadable_ids() {
    let ids = vec!["nope".to_string(), "550e8400-e29b-41d4-a716-446655440000".to_string(), "00000000-0000-0000-0000-000000000001".to_string()];
    assert_eq!(AccountCommandExecutor::target(&ids), Some((1, 0x550e8400e29b41d4a716446655440000)));
    assert_eq!(AccountCommandExecutor::target(&vec!["x".to_string()]), None);
    assert_eq!(AccountCommandExecutor::target(&Vec::new()), None);
}

#[test]
fn account_report_shows_the_account() {
    let o = AccountCommandExecutor::report("Steve", 0x550e8400e29b41d4a716446655440000, &Ok(Some(player(true))), "12.50", "2023-11-14 22:13:20 UTC", false);
    assert_eq!(o, outcome(vec![
        msg("Steve's Information", NamedColor::Aqua, Some(true)),
        msg("Username: Steve", NamedColor::White, None),
        msg("UUID: 550e8400-e29b-41d4-a716-446655440000", NamedColor::White, None),
        msg("Balance: $12.50", NamedColor::White, None),
        msg("Frozen: Yes", NamedColor::White, None),
        msg("Last Seen: 2023-11-14 22:13:20 UTC", NamedColor::White, None),
    ], 1));
    let o = AccountCommandExecutor::report("Alex", 1, &Ok(Some(player(false))), "0.00", "whenever", true);
    assert_eq!(o.messages[4], msg("Frozen: No", NamedColor::White, None));
    assert_eq!(o.messages[5], msg("Last Seen: Online", NamedColor::White, None));
}

#[test]
fn account_report_failures() {
    assert_eq!(AccountCommandExecutor::report("S", 1, &Ok(None), "", "", false),
        outcome(vec![msg("Player not found", NamedColor::DarkRed, Some(true))], 1));
    assert_eq!(AccountCommandExecutor::report("S", 1, &Err("boom".to_string()), "", "", false),
        outcome(vec![msg("Failed to retrieve player information", NamedColor::DarkRed, Some(true))], 0));
    assert_eq!(AccountCommandExecutor::missing_argument(),
        outcome(vec![msg("Missing Argument: 'Player'", NamedColor::DarkRed, Some(true))], 1));
}

#[test]
fn balance_report_for_a_player_and_oneself() {
    let o = BalanceCommandExecutor::report(Some("Steve"), "1,000.00", false);
    assert_eq!(o.code, 1);
    assert_eq!(o.messages, vec![Message {
        head: Styled { text: "Steve's Balance: $".to_string(), color: NamedColor::Green, bold: Some(true) },
        child: Some(Styled { text: "1,000.00".to_string(), color: NamedColor::White, bold: Some(false) }),
    }]);
    let o = BalanceCommandExecutor::report(None, "3.00", true);
    assert_eq!(o.messages.len(), 2);
    assert_eq!(o.messages[0].head.text, "Your Balance: $");
    assert_eq!(o.messages[1], msg("Notice: Your balance is frozen!", NamedColor::DarkRed, Some(true)));
    let o = BalanceCommandExecutor::report(Some("Steve"), "3.00", true);
    assert_eq!(o.messages[1], msg("Notice: This player's account is frozen!", NamedColor::DarkRed, Some(true)));
}

#[test]
fn freeze_and_unfreeze_answers() {
    assert_eq!(FreezeCommandExecutor::already_frozen(),
        outcome(vec![msg("This player's account is already frozen!", NamedColor::DarkRed, Some(true))], 1));
    assert_eq!(FreezeCommandExecutor::result("Steve", &Ok(())),
        outcome(vec![msg("Steve's Account Has Been Frozen", NamedColor::Green, Some(true))], 1));
    assert_eq!(FreezeCommandExecutor::result("Steve", &Err(AccountError::SaveFailed)),
        outcome(vec![msg("Error saving player!", NamedColor::DarkRed, Some(true))], 0));
    assert_eq!(UnfreezeCommandExecutor::not_frozen(),
        outcome(vec![msg("This player's account is not frozen!", NamedColor::DarkRed, Some(true))], 1));
    assert_eq!(UnfreezeCommandExecutor::result("Alex", &Ok(())),
        outcome(vec![msg("Alex's Account Has Been Unfrozen", NamedColor::Green, Some(true))], 1));
    assert_eq!(UnfreezeCommandExecutor::result("Alex", &Err(AccountError::NotFrozen)),
        outcome(vec![msg("Error unfreezing player!", NamedColor::DarkRed, Some(true))], 1));
    assert_eq!(UnfreezeCommandExecutor::missing_argument().code, 1);
    assert_eq!(FreezeCommandExecutor::missing_argument().code, 1);
}

#[test]
fn remove_money_answers() {
    assert_eq!(RemoveMoneyCommandExecutor::failure(&AccountError::InsufficientFunds),
        outcome(vec![msg("The player had insufficient funds to remove!", NamedColor::DarkRed, Some(true))], 0));
    assert_eq!(RemoveMoneyCommandExecutor::failure(&AccountError::Store("db: Insufficient funds left".to_string())).messages[0].head.text,
        "The player had insufficient funds to remove!");
    assert_eq!(RemoveMoneyCommandExecutor::failure(&AccountError::SaveFailedWith("io".to_string())),
        outcome(vec![msg("Error updating balance!", NamedColor::DarkRed, Some(true))], 0));
    assert_eq!(RemoveMoneyCommandExecutor::removed("5.00", "Steve"),
        msg("You have removed $5.00 from Steve", NamedColor::Green, Some(true)));
    assert_eq!(RemoveMoneyCommandExecutor::frozen(),
        outcome(vec![msg("This player is frozen!", NamedColor::DarkRed, Some(true))], 1));
    assert_eq!(RemoveMoneyCommandExecutor::missing_arguments(),
        outcome(vec![msg("Missing arguments: 'Player' and 'Amount'", NamedColor::DarkRed, Some(true))], 1));
}

#[test]
fn log_answers() {
    assert_eq!(LogCommandExecutor::fetch_failed(), outcome(vec![msg("Unable to fetch logs", NamedColor::DarkRed, None)], 0));
    assert_eq!(LogCommandExecutor::heading(Some("Steve")), msg("Steve's transactions:", NamedColor::Green, Some(true)));
    assert_eq!(LogCommandExecutor::heading(None), msg("All transactions:", NamedColor::Green, Some(true)));
    assert_eq!(LogCommandExecutor::entry("2024-01-02 03:04:05", "2.5", "Steve", "Alex"),
        msg("2024-01-02 03:04:05: $2.5 - From Steve to Alex", NamedColor::White, None));
}

#[test]
fn log_page_holds_at_most_twenty() {
    let tx = |id: u128| Transaction { id, sender: 1, receiver: 2, amount_bits: 0, timestamp: T0 };
    let many: Vec<Transaction> = (0..25).map(tx).collect();
    let page = LogCommandExecutor::page(&many);
    assert_eq!(page.len(), LOG_PAGE_SIZE);
    assert_eq!(page, many[..20].to_vec());
    let few: Vec<Transaction> = (0..3).map(tx).collect();
    assert_eq!(LogCommandExecutor::page(&few), few);
}

#[test]
fn revert_answers() {
    let t = Transaction { id: 4, sender: 1, receiver: 2, amount_bits: 0, timestamp: T0 };
    assert_eq!(RevertCommandExecutor::found(&Ok(Some(t))), Ok(t));
    assert_eq!(RevertCommandExecutor::found(&Ok(None)),
        Err(outcome(vec![msg("Transaction not found!", NamedColor::DarkRed, Some(true))], 0)));
    assert_eq!(RevertCommandExecutor::found(&Err("io".to_string())),
        Err(outcome(vec![msg("Error searching transaction", NamedColor::DarkRed, Some(true))], 0)));
    assert_eq!(RevertCommandExecutor::reverted(&Ok(())),
        outcome(vec![msg("Transaction reverted successfully!", NamedColor::Green, Some(true))], 0));
    assert_eq!(RevertCommandExecutor::reverted(&Err("x".to_string())),
        outcome(vec![msg("Error reverting transaction", NamedColor::DarkRed, Some(true))], 0));
    assert_eq!(RevertCommandExecutor::missing_argument(),
        outcome(vec![msg("Missing argument: 'transaction'", NamedColor::DarkRed, Some(true))], 0));
    assert_eq!(RevertCommandExecutor::transaction_id("00000000-0000-0000-0000-000000000004"), Some(4));
    assert_eq!(RevertCommandExecutor::transaction_id("four"), None);
}

#[test]
fn permission_nodes() {
    assert_eq!(permission_node("balance"), "ConcelareEconomy:command.balance");
    assert_eq!(permission_node("Admin"), "ConcelareEconomy:command.Admin");
}

#[test]
fn join_and_leave() {
    assert_eq!(OnJoinEvent::plan(&Ok(None)), JoinPlan { create_account: true, welcome: true });
    assert_eq!(OnJoinEvent::plan(&Ok(Some(player(false)))), JoinPlan { create_account: false, welcome: true });
    assert_eq!(OnJoinEvent::plan(&Err(AccountError::Store("x".to_string()))), JoinPlan { create_account: false, welcome: false });
    assert_eq!(OnJoinEvent::welcome(), "Welcome to the server!");
    let later = Timestamp { secs: 1_800_000_000, nanos: 3 };
    assert_eq!(OnLeaveEvent::seen(&player(false), later), ConcelarePlayer { last_seen: later, ..player(false) });
}
