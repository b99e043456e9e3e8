use std::collections::HashMap;

use concelare_economy::ledger::{AccountError, AccountOp, AccountTask, Reply, StoreAction, StoreEvent};
use concelare_economy::{ConcelarePlayer, Timestamp};

const NOW: Timestamp = Timestamp { secs: 1_700_000_000, nanos: 0 };
const LATER: Timestamp = Timestamp { secs: 1_700_000_100, nanos: 7 };

fn bits(x: f32) -> u32 {
    x.to_bits()
}

/// Runs an operation against an in-memory store that keeps what is written.
fn run(store: &mut HashMap<u128, ConcelarePlayer>, uuid: u128, op: AccountOp, now: Timestamp) -> Result<Reply, AccountError> {
    let (mut task, mut action) = AccountTask::begin(uuid, op, now);
    loop {
        let event = match action {
            StoreAction::Read(k) => StoreEvent::Loaded(Ok(store.get(&k).copied())),
            StoreAction::Write { key, record } => {
                store.insert(key, record);
                StoreEvent::Written(Ok(()))
            }
            StoreAction::Debit { balance_bits, amount_bits } => {
                let b = f32::from_bits(balance_bits);
                let a = f32::from_bits(amount_bits);
                StoreEvent::Debited(if b < a { None } else { Some((b - a).to_bits()) })
            }
            StoreAction::Credit { balance_bits, amount_bits } => {
                StoreEvent::Credited((f32::from_bits(balance_bits) + f32::from_bits(amount_bits)).to_bits())
            }
            StoreAction::Finish(r) => return r,
        };
        assert!(task.accepts(&event));
        let (t, a) = task.step(event, now);
        task = t;
        action = a;
    }
}

fn account(uuid: u128, balance: f32, frozen: bool) -> ConcelarePlayer {
    ConcelarePlayer {
        uuid,
        balance_bits: bits(balance),
        created_at: NOW,
        last_updated: NOW,
        last_seen: NOW,
        frozen,
    }
}

#[test]
fn create_stores_a_fresh_account() {
    let mut store = HashMap::new();
    let r = run(&mut store, 5, AccountOp::Create, NOW);
    let fresh = ConcelarePlayer::fresh(5, NOW);
    assert!(matches!(r, Ok(Reply::Player(p)) if p == fresh));
    assert_eq!(fresh.balance_bits, 0);
    assert!(!fresh.frozen);
    assert_eq!(store.get(&5), Some(&fresh));
}

#[test]
fn get_reads_what_is_stored() {
    let mut store = HashMap::new();
    assert!(matches!(run(&mut store, 5, AccountOp::Get, NOW), Ok(Reply::MaybePlayer(None))));
    assert!(store.is_empty());
    store.insert(5, account(5, 3.0, false));
    assert!(matches!(run(&mut store, 5, AccountOp::Get, NOW), Ok(Reply::MaybePlayer(Some(p))) if p == account(5, 3.0, false)));
}

#[test]
fn law_get_after_save_gives_stamped_record() {
    let mut store = HashMap::new();
    let p = account(9, 12.5, true);
    assert!(matches!(run(&mut store, 9, AccountOp::Save(p), LATER), Ok(Reply::Done)));
    let expected = ConcelarePlayer { last_updated: LATER, ..p };
    assert!(matches!(run(&mut store, 9, AccountOp::Get, NOW), Ok(Reply::MaybePlayer(Some(q))) if q == expected));
}

#[test]
fn set_balance_needs_an_account() {
    let mut store = HashMap::new();
    let r = run(&mut store, 1, AccountOp::SetBalance(bits(4.0)), NOW);
    assert!(matches!(r, Err(AccountError::PlayerNotFound)));
    assert_eq!(r.unwrap_err().message(), "Player not found");
    assert!(store.is_empty());
    store.insert(1, account(1, 2.0, false));
    assert!(matches!(run(&mut store, 1, AccountOp::SetBalance(bits(4.0)), LATER), Ok(Reply::Done)));
    assert_eq!(store[&1].balance_bits, bits(4.0));
    assert_eq!(store[&1].last_updated, LATER);
}

#[test]
fn law_unknown_player_is_created() {
    let mut store = HashMap::new();
    assert!(matches!(run(&mut store, 3, AccountOp::GetBalance, NOW), Ok(Reply::Balance(0))));
    assert_eq!(store.get(&3), Some(&ConcelarePlayer::fresh(3, NOW)));
    let mut store = HashMap::new();
    assert!(matches!(run(&mut store, 4, AccountOp::IsFrozen, NOW), Ok(Reply::FrozenStatus(false))));
    assert_eq!(store.get(&4), Some(&ConcelarePlayer::fresh(4, NOW)));
}

#[test]
fn law_freeze_then_frozen() {
    let mut store = HashMap::new();
    store.insert(1, account(1, 10.0, false));
    assert!(matches!(run(&mut store, 1, AccountOp::Freeze, LATER), Ok(Reply::Done)));
    assert!(store[&1].frozen);
    assert!(matches!(run(&mut store, 1, AccountOp::IsFrozen, LATER), Ok(Reply::FrozenStatus(true))));
    let again = run(&mut store, 1, AccountOp::Freeze, LATER);
    assert!(matches!(again, Err(AccountError::AlreadyFrozen)));
    assert_eq!(again.unwrap_err().message(), "Player is already frozen");
}

#[test]
fn law_unfreeze_undoes_freeze() {
    let mut store = HashMap::new();
    let before = account(1, 10.0, false);
    store.insert(1, before);
    run(&mut store, 1, AccountOp::Freeze, NOW).unwrap();
    assert!(matches!(run(&mut store, 1, AccountOp::Unfreeze, LATER), Ok(Reply::Done)));
    assert_eq!(store[&1], ConcelarePlayer { last_updated: LATER, ..before });
    let again = run(&mut store, 1, AccountOp::Unfreeze, LATER);
    assert!(matches!(again, Err(AccountError::NotFrozen)));
    assert_eq!(again.unwrap_err().message(), "Player is not frozen");
}

#[test]
fn law_frozen_account_is_untouched() {
    let mut store = HashMap::new();
    store.insert(1, account(1, 10.0, true));
    let before = store.clone();
    let r = run(&mut store, 1, AccountOp::RemoveMoney(bits(1.0)), LATER);
    assert!(matches!(r, Err(AccountError::Frozen)));
    assert_eq!(r.unwrap_err().message(), "Player is frozen");
    assert!(matches!(run(&mut store, 1, AccountOp::AddMoney(bits(1.0)), LATER), Err(AccountError::Frozen)));
    assert_eq!(store, before);
}

#[test]
fn law_insufficient_funds_change_nothing() {
    let mut store = HashMap::new();
    store.insert(1, account(1, 10.0, false));
    let before = store.clone();
    let r = run(&mut store, 1, AccountOp::RemoveMoney(bits(10.5)), LATER);
    assert!(matches!(r, Err(AccountError::InsufficientFunds)));
    assert_eq!(r.unwrap_err().message(), "Insufficient funds");
    assert_eq!(store, before);
    // A new account has nothing to remove, but is created.
    let mut store = HashMap::new();
    assert!(matches!(run(&mut store, 2, AccountOp::RemoveMoney(bits(0.5)), NOW), Err(AccountError::InsufficientFunds)));
    assert_eq!(store.get(&2), Some(&ConcelarePlayer::fresh(2, NOW)));
}

#[test]
fn law_remove_money_sets_debited_balance() {
    let mut store = HashMap::new();
    store.insert(1, account(1, 10.0, false));
    assert!(matches!(run(&mut store, 1, AccountOp::RemoveMoney(bits(2.5)), LATER), Ok(Reply::Done)));
    assert_eq!(store[&1].balance_bits, bits(7.5));
    assert_eq!(store[&1].last_updated, LATER);
    assert!(matches!(run(&mut store, 1, AccountOp::RemoveMoney(bits(7.5)), LATER), Ok(Reply::Done)));
    assert_eq!(store[&1].balance_bits, bits(0.0));
}

#[test]
fn add_money_credits_and_creates() {
    let mut store = HashMap::new();
    assert!(matches!(run(&mut store, 8, AccountOp::AddMoney(bits(3.25)), NOW), Ok(Reply::Done)));
    assert_eq!(store[&8].balance_bits, bits(3.25));
    assert!(matches!(run(&mut store, 8, AccountOp::GetBalance, NOW), Ok(Reply::Balance(b)) if b == bits(3.25)));
}

#[test]
fn law_records_stay_under_own_id() {
    let mut store = HashMap::new();
    for (i, op) in [AccountOp::Create, AccountOp::Freeze, AccountOp::Unfreeze, AccountOp::AddMoney(bits(1.0)),
        AccountOp::RemoveMoney(bits(0.5)), AccountOp::SetBalance(bits(9.0)), AccountOp::GetBalance].into_iter().enumerate() {
        run(&mut store, (i % 3) as u128, op, NOW).ok();
    }
    for (k, p) in &store {
        assert_eq!(*k, p.uuid);
    }
}

/// Feeds fixed answers to a task and collects what it does.
fn script(uuid: u128, op: AccountOp, events: Vec<StoreEvent>) -> (Vec<String>, Option<Result<Reply, AccountError>>) {
    let (mut task, mut action) = AccountTask::begin(uuid, op, NOW);
    let mut steps = Vec::new();
    let mut events = events.into_iter();
    loop {
        match action {
            StoreAction::Finish(r) => return (steps, Some(r)),
            other => steps.push(format!("{:?}", other)),
        }
        let Some(event) = events.next() else { return (steps, None) };
        if !task.accepts(&event) {
            return (steps, None);
        }
        let (t, a) = task.step(event, NOW);
        task = t;
        action = a;
    }
}

#[test]
fn store_failures_are_reported_per_operation() {
    let err = || StoreEvent::Loaded(Err("disk gone".to_string()));
    let (_, r) = script(1, AccountOp::IsFrozen, vec![err()]);
    assert_eq!(r.unwrap().unwrap_err().message(), "Error occurred getting player frozen status");
    let (_, r) = script(1, AccountOp::GetBalance, vec![err()]);
    assert_eq!(r.unwrap().unwrap_err().message(), "Error occurred getting player balance");
    let (_, r) = script(1, AccountOp::Freeze, vec![err()]);
    assert_eq!(r.unwrap().unwrap_err().message(), "disk gone");
    let (_, r) = script(1, AccountOp::Get, vec![err()]);
    assert_eq!(r.unwrap().unwrap_err().message(), "disk gone");
}

#[test]
fn save_failures_are_reported_per_operation() {
    let some = |frozen| StoreEvent::Loaded(Ok(Some(account(1, 5.0, frozen))));
    let fail = || StoreEvent::Written(Err("locked".to_string()));
    let (_, r) = script(1, AccountOp::Freeze, vec![some(false), fail()]);
    assert_eq!(r.unwrap().unwrap_err().message(), "Error occurred saving player");
    let (_, r) = script(1, AccountOp::Unfreeze, vec![some(true), fail()]);
    assert_eq!(r.unwrap().unwrap_err().message(), "Error saving player: locked");
    let (_, r) = script(1, AccountOp::RemoveMoney(bits(1.0)), vec![some(false), StoreEvent::Debited(Some(bits(4.0))), fail()]);
    assert_eq!(r.unwrap().unwrap_err().message(), "Error saving player: locked");
    let (_, r) = script(1, AccountOp::AddMoney(bits(1.0)), vec![some(false), StoreEvent::Credited(bits(6.0)), fail()]);
    assert_eq!(r.unwrap().unwrap_err().message(), "Error occurred saving player");
    let (_, r) = script(1, AccountOp::Create, vec![fail()]);
    assert_eq!(r.unwrap().unwrap_err().message(), "locked");
}

#[test]
fn created_account_missing_on_reread() {
    // The balance and frozen queries fall back to their defaults ...
    let (_, r) = script(1, AccountOp::GetBalance, vec![
        StoreEvent::Loaded(Ok(None)),
        StoreEvent::Written(Err("full".to_string())),
        StoreEvent::Loaded(Ok(None)),
    ]);
    assert!(matches!(r, Some(Ok(Reply::Balance(0)))));
    let (_, r) = script(1, AccountOp::IsFrozen, vec![
        StoreEvent::Loaded(Ok(None)),
        StoreEvent::Written(Err("full".to_string())),
        StoreEvent::Loaded(Ok(None)),
    ]);
    assert!(matches!(r, Some(Ok(Reply::FrozenStatus(false)))));
    // ... while freezing cannot go on without the record.
    let (steps, r) = script(1, AccountOp::Freeze, vec![
        StoreEvent::Loaded(Ok(None)),
        StoreEvent::Written(Err("full".to_string())),
        StoreEvent::Loaded(Ok(None)),
    ]);
    assert!(r.is_none());
    assert_eq!(steps.len(), 3);
}

#[test]
fn answers_out_of_turn_are_refused() {
    let (task, _) = AccountTask::begin(1, AccountOp::Get, NOW);
    assert!(!task.accepts(&StoreEvent::Written(Ok(()))));
    assert!(!task.accepts(&StoreEvent::Debited(None)));
    assert!(task.accepts(&StoreEvent::Loaded(Ok(None))));
}
