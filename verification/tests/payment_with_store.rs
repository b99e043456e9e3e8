use std::collections::HashMap;

use concelare_economy::commands::pay::{PayAction, PayAmount, PayEvent, PayTask};
use concelare_economy::ledger::{AccountError, AccountOp, AccountTask, Reply, StoreAction, StoreEvent};
use concelare_economy::{ConcelarePlayer, Timestamp};

const NOW: Timestamp = Timestamp { secs: 1_700_000_000, nanos: 0 };

fn account_op(store: &mut HashMap<u128, ConcelarePlayer>, uuid: u128, op: AccountOp) -> Result<Reply, AccountError> {
    let (mut task, mut action) = AccountTask::begin(uuid, op, NOW);
    loop {
        let event = match action {
            StoreAction::Read(k) => StoreEvent::Loaded(Ok(store.get(&k).copied())),
            StoreAction::Write { key, record } => {
                store.insert(key, record);
                StoreEvent::Written(Ok(()))
            }
            StoreAction::Debit { balance_bits, amount_bits } => {
                let (b, a) = (f32::from_bits(balance_bits), f32::from_bits(amount_bits));
                StoreEvent::Debited(if b < a { None } else { Some((b - a).to_bits()) })
            }
            StoreAction::Credit { balance_bits, amount_bits } => {
                StoreEvent::Credited((f32::from_bits(balance_bits) + f32::from_bits(amount_bits)).to_bits())
            }
            StoreAction::Finish(r) => return r,
        };
        let (t, a) = task.step(event, NOW);
        task = t;
        action = a;
    }
}

fn pay(store: &mut HashMap<u128, ConcelarePlayer>, from: u128, to: u128, amount: f32) -> i32 {
    let (mut task, mut action) = PayTask::begin(from, to, PayAmount::Value(amount.to_bits()), "A".into(), "B".into(), "x".into());
    loop {
        let event = match action {
            PayAction::GetBalance(p) => PayEvent::Balance(account_op(store, p, AccountOp::GetBalance).map(|r| match r {
                Reply::Balance(b) => b,
                _ => unreachable!(),
            })),
            PayAction::CompareAmount { amount_bits, balance_bits } => {
                PayEvent::AmountAbove(f32::from_bits(amount_bits) > f32::from_bits(balance_bits))
            }
            PayAction::CheckFrozen(p) => PayEvent::FrozenStatus(account_op(store, p, AccountOp::IsFrozen).map(|r| match r {
                Reply::FrozenStatus(f) => f,
                _ => unreachable!(),
            })),
            PayAction::RemoveMoney { player, amount_bits } => {
                PayEvent::Updated(account_op(store, player, AccountOp::RemoveMoney(amount_bits)).map(|_| ()))
            }
            PayAction::AddMoney { player, amount_bits } => {
                PayEvent::Updated(account_op(store, player, AccountOp::AddMoney(amount_bits)).map(|_| ()))
            }
            PayAction::LogPayment { .. } => PayEvent::Logged(Ok(())),
            PayAction::Finish(o) => return o.to_sender.code,
        };
        assert!(task.accepts(&event));
        let (t, a) = task.step(event);
        task = t;
        action = a;
    }
}

fn holder(uuid: u128, balance: f32, frozen: bool) -> ConcelarePlayer {
    ConcelarePlayer { uuid, balance_bits: balance.to_bits(), created_at: NOW, last_updated: NOW, last_seen: NOW, frozen }
}

#[test]
fn law_payment_moves_the_amount() {
    let mut store = HashMap::new();
    store.insert(1, holder(1, 10.0, false));
    store.insert(2, holder(2, 1.0, false));
    store.insert(3, holder(3, 7.0, false));
    assert_eq!(pay(&mut store, 1, 2, 4.0), 1);
    assert_eq!(f32::from_bits(store[&1].balance_bits), 6.0);
    assert_eq!(f32::from_bits(store[&2].balance_bits), 5.0);
    assert_eq!(store[&3], holder(3, 7.0, false));
}

#[test]
fn payment_beyond_balance_moves_nothing() {
    let mut store = HashMap::new();
    store.insert(1, holder(1, 3.0, false));
    store.insert(2, holder(2, 1.0, false));
    let before = store.clone();
    assert_eq!(pay(&mut store, 1, 2, 4.0), 0);
    assert_eq!(store, before);
}

#[test]
fn payment_to_frozen_account_moves_nothing() {
    let mut store = HashMap::new();
    store.insert(1, holder(1, 30.0, false));
    store.insert(2, holder(2, 1.0, true));
    let before = store.clone();
    assert_eq!(pay(&mut store, 1, 2, 4.0), 0);
    assert_eq!(store, before);
}
