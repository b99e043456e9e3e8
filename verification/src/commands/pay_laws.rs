//! What a payment guarantees over the whole exchange with the caller.

use vstd::prelude::*;

use crate::commands::pay::{
    PayActionView, PayAmount, PayEvent, PayOutcomeView, PayPhase, PayTask, quiet_end, refusal, says_frozen,
    spec_pay_accepts, spec_pay_begin, spec_pay_step,
};
use crate::commands::{NamedColor, line};
use crate::ledger::{AccountError, AccountOp, Reply};
use crate::ledger_laws::{Store, account_semantics, records_under_own_id};
use crate::model::{ConcelarePlayer, Timestamp, spec_stamped};

verus! {

/// The task after it has been answered `events` in turn, if it accepted
/// each of them.
pub open spec fn pay_after(start: PayTask, events: Seq<PayEvent>) -> Option<PayTask>
    decreases events.len(),
{
    if events.len() == 0 {
        Some(start)
    } else {
        match pay_after(start, events.drop_last()) {
            Some(t) => if spec_pay_accepts(t, events.last()) {
                Some(spec_pay_step(t, events.last()).0)
            } else {
                None
            },
            None => None,
        }
    }
}

/// The action that the task asks for after it has been answered `events`
/// (the first action when there are none), if it accepted each of them.
pub open spec fn pay_action_after(start: PayTask, events: Seq<PayEvent>) -> Option<PayActionView> {
    if events.len() == 0 {
        Some(PayActionView::GetBalance(start.sender))
    } else {
        match pay_after(start, events.drop_last()) {
            Some(t) => if spec_pay_accepts(t, events.last()) {
                Some(spec_pay_step(t, events.last()).1)
            } else {
                None
            },
            None => None,
        }
    }
}

pub open spec fn balance_read(e: PayEvent) -> bool {
    e matches PayEvent::Balance(Ok(_))
}

pub open spec fn amount_not_above(e: PayEvent) -> bool {
    e matches PayEvent::AmountAbove(false)
}

pub open spec fn not_reported_frozen(e: PayEvent) -> bool {
    e matches PayEvent::FrozenStatus(r) && !says_frozen(r)
}

pub open spec fn update_succeeded(e: PayEvent) -> bool {
    e matches PayEvent::Updated(Ok(_))
}

pub open spec fn update_failed(e: PayEvent) -> bool {
    e matches PayEvent::Updated(Err(_))
}

/// The answers before money moves: the payer's balance was read, the amount
/// is not above it, and neither the payer's nor the payee's account was
/// reported frozen.
pub open spec fn checks_passed(events: Seq<PayEvent>) -> bool {
    &&& events.len() >= 4
    &&& balance_read(events[0])
    &&& amount_not_above(events[1])
    &&& not_reported_frozen(events[2])
    &&& not_reported_frozen(events[3])
}

/// A task at the start of a payment.
pub open spec fn at_start(start: PayTask) -> bool {
    start.phase == PayPhase::AwaitBalance
}

/// The history of answers that each phase of a payment has behind it.
pub open spec fn history_of(start: PayTask, t: PayTask, events: Seq<PayEvent>) -> bool {
    &&& t.sender == start.sender
    &&& t.target == start.target
    &&& t.amount == start.amount
    &&& t.sender_name == start.sender_name
    &&& t.target_name == start.target_name
    &&& t.amount_text == start.amount_text
    &&& match t.phase {
        PayPhase::AwaitBalance => events.len() == 0,
        PayPhase::AwaitComparison(a) => events.len() == 1 && balance_read(events[0]) && start.amount == PayAmount::Value(a),
        PayPhase::AwaitSenderFrozen(a) => events.len() == 2 && balance_read(events[0]) && amount_not_above(events[1])
            && start.amount == PayAmount::Value(a),
        PayPhase::AwaitTargetFrozen(a) => events.len() == 3 && balance_read(events[0]) && amount_not_above(events[1])
            && not_reported_frozen(events[2]) && start.amount == PayAmount::Value(a),
        PayPhase::AwaitDebit(a) => events.len() == 4 && checks_passed(events) && start.amount == PayAmount::Value(a),
        PayPhase::AwaitCredit(a) => events.len() == 5 && checks_passed(events) && update_succeeded(events[4])
            && start.amount == PayAmount::Value(a),
        PayPhase::AwaitRefund(a) => events.len() == 6 && checks_passed(events) && update_succeeded(events[4])
            && update_failed(events[5]) && start.amount == PayAmount::Value(a),
        PayPhase::AwaitLog(a) => events.len() == 6 && checks_passed(events) && update_succeeded(events[4])
            && update_succeeded(events[5]) && start.amount == PayAmount::Value(a),
        PayPhase::Finished => true,
    }
}

/// Every phase that a payment reaches has its history behind it.
pub proof fn lemma_history(start: PayTask, events: Seq<PayEvent>)
    requires
        at_start(start),
        pay_after(start, events) is Some,
    ensures
        history_of(start, pay_after(start, events).unwrap(), events),
    decreases events.len(),
{
    if events.len() > 0 {
        let prefix = events.drop_last();
        lemma_history(start, prefix);
        let t = pay_after(start, prefix).unwrap();
        assert(forall|i: int| 0 <= i < prefix.len() ==> #[trigger] events[i] == prefix[i]);
        if t.phase is AwaitBalance {
            assert(events.len() == 1);
        }
    }
}

/// Money leaves the payer only after the payer's balance was read, the
/// amount was found not to be above it, and neither account was reported
/// frozen; it is the payer's account that is debited, by the amount given.
pub proof fn law_debit_only_after_checks(start: PayTask, events: Seq<PayEvent>, player: u128, amount_bits: u32)
    requires
        at_start(start),
        pay_action_after(start, events) == Some(PayActionView::RemoveMoney { player, amount_bits }),
    ensures
        events.len() == 4,
        checks_passed(events),
        player == start.sender,
        start.amount == PayAmount::Value(amount_bits),
{
    let prefix = events.drop_last();
    if events.len() > 0 {
        lemma_history(start, prefix);
        assert(forall|i: int| 0 <= i < prefix.len() ==> #[trigger] events[i] == prefix[i]);
    }
}

/// Money is given to a player only after it was taken from the payer: to
/// the payee once taking it succeeded, or back to the payer once giving it
/// to the payee failed; it is always the amount that was taken.
pub proof fn law_credit_only_after_debit(start: PayTask, events: Seq<PayEvent>, player: u128, amount_bits: u32)
    requires
        at_start(start),
        pay_action_after(start, events) == Some(PayActionView::AddMoney { player, amount_bits }),
    ensures
        checks_passed(events),
        update_succeeded(events[4]),
        start.amount == PayAmount::Value(amount_bits),
        events.len() == 5 ==> player == start.target,
        events.len() == 6 ==> player == start.sender && update_failed(events[5]),
        events.len() == 5 || events.len() == 6,
{
    let prefix = events.drop_last();
    if events.len() > 0 {
        lemma_history(start, prefix);
        assert(forall|i: int| 0 <= i < prefix.len() ==> #[trigger] events[i] == prefix[i]);
    }
}

/// A payment is logged, and the command reports success (code 1), only
/// once the money was taken from the payer and given to the payee.
pub proof fn law_success_only_when_complete(start: PayTask, events: Seq<PayEvent>, outcome: crate::commands::pay::PayOutcomeView)
    requires
        at_start(start),
        pay_action_after(start, events) == Some(PayActionView::Finish(outcome)),
        outcome.to_sender.1 == 1,
    ensures
        events.len() == 7,
        checks_passed(events),
        update_succeeded(events[4]),
        update_succeeded(events[5]),
        events[6] matches PayEvent::Logged(Ok(_)),
{
    let prefix = events.drop_last();
    if events.len() > 0 {
        lemma_history(start, prefix);
        assert(forall|i: int| 0 <= i < prefix.len() ==> #[trigger] events[i] == prefix[i]);
    }
}


/// A payment asks to log only a payment from its payer to its payee of the
/// amount it was given, and only once the payer's balance was read, the
/// amount was found not to be above it, neither account was reported frozen,
/// and the money was taken from the payer and given to the payee.
pub proof fn law_log_records_the_payment(
    start: PayTask,
    events: Seq<PayEvent>,
    sender: u128,
    receiver: u128,
    amount_bits: u32,
)
    requires
        at_start(start),
        pay_action_after(start, events) == Some(PayActionView::LogPayment { sender, receiver, amount_bits }),
    ensures
        sender == start.sender,
        receiver == start.target,
        start.amount == PayAmount::Value(amount_bits),
        events.len() == 6,
        checks_passed(events),
        update_succeeded(events[4]),
        update_succeeded(events[5]),
{
    let prefix = events.drop_last();
    if events.len() > 0 {
        lemma_history(start, prefix);
        assert(forall|i: int| 0 <= i < prefix.len() ==> #[trigger] events[i] == prefix[i]);
    }
}

/// How an ideal world answers a payment's `action`: the account operations
/// do what `account_semantics` states against `store`, amounts are compared
/// by `above`, and logging gives `logged`.
pub open spec fn world_answer(
    action: PayActionView,
    store: Store,
    now: Timestamp,
    debit: spec_fn(u32, u32) -> Option<u32>,
    credit: spec_fn(u32, u32) -> u32,
    above: spec_fn(u32, u32) -> bool,
    logged: Result<(), String>,
) -> (Store, PayEvent) {
    match action {
        PayActionView::GetBalance(p) => {
            let (s2, r) = account_semantics(p, AccountOp::GetBalance, store, now, debit, credit);
            (s2, PayEvent::Balance(match r {
                Ok(Reply::Balance(b)) => Ok(b),
                Err(e) => Err(e),
                _ => Err(AccountError::BalanceUnavailable),
            }))
        },
        PayActionView::CompareAmount { amount_bits, balance_bits } =>
            (store, PayEvent::AmountAbove(above(amount_bits, balance_bits))),
        PayActionView::CheckFrozen(p) => {
            let (s2, r) = account_semantics(p, AccountOp::IsFrozen, store, now, debit, credit);
            (s2, PayEvent::FrozenStatus(match r {
                Ok(Reply::FrozenStatus(f)) => Ok(f),
                Err(e) => Err(e),
                _ => Err(AccountError::FrozenStatusUnavailable),
            }))
        },
        PayActionView::RemoveMoney { player, amount_bits } => {
            let (s2, r) = account_semantics(player, AccountOp::RemoveMoney(amount_bits), store, now, debit, credit);
            (s2, PayEvent::Updated(match r {
                Ok(_) => Ok(()),
                Err(e) => Err(e),
            }))
        },
        PayActionView::AddMoney { player, amount_bits } => {
            let (s2, r) = account_semantics(player, AccountOp::AddMoney(amount_bits), store, now, debit, credit);
            (s2, PayEvent::Updated(match r {
                Ok(_) => Ok(()),
                Err(e) => Err(e),
            }))
        },
        PayActionView::LogPayment { .. } => (store, PayEvent::Logged(logged)),
        PayActionView::Finish(_) => (store, PayEvent::Logged(logged)),
    }
}

/// Runs a payment against the ideal world for at most `fuel` actions,
/// starting with the transaction log `log` (each entry: payer, payee and
/// amount bits): the store and the log at the end and how the payment ended,
/// or `None` if it did not end. A logging action that succeeds appends what
/// it logs.
pub open spec fn pay_drive(
    task: PayTask,
    action: PayActionView,
    store: Store,
    log: Seq<(u128, u128, u32)>,
    now: Timestamp,
    debit: spec_fn(u32, u32) -> Option<u32>,
    credit: spec_fn(u32, u32) -> u32,
    above: spec_fn(u32, u32) -> bool,
    logged: Result<(), String>,
    fuel: nat,
) -> Option<(Store, Seq<(u128, u128, u32)>, PayOutcomeView)>
    decreases fuel,
{
    match action {
        PayActionView::Finish(o) => Some((store, log, o)),
        _ => if fuel == 0 {
            None
        } else {
            let (s2, event) = world_answer(action, store, now, debit, credit, above, logged);
            let log2 = match action {
                PayActionView::LogPayment { sender, receiver, amount_bits } => if logged is Ok {
                    log.push((sender, receiver, amount_bits))
                } else {
                    log
                },
                _ => log,
            };
            if !spec_pay_accepts(task, event) {
                None
            } else {
                let (t2, a2) = spec_pay_step(task, event);
                pay_drive(t2, a2, s2, log2, now, debit, credit, above, logged, (fuel - 1) as nat)
            }
        },
    }
}

/// A payment of the `f32` with bits `a` from `sender` to `target`, whose
/// accounts are both in `store` and not frozen, where the amount is not
/// above the payer's balance and can be taken from it, ends with the payer's
/// balance reduced (as `debit` computes), the payee's balance increased (as
/// `credit` computes), no other account changed, and, once the payment is
/// logged, the command reporting success; if logging fails, the money has
/// moved all the same and the command ends without a message. What is
/// logged is one payment from `sender` to `target` of the amount `a`, and the
/// payer and the payee are told of it.
pub proof fn law_payment_moves_the_amount(
    sender: u128,
    target: u128,
    a: u32,
    sender_name: String,
    target_name: String,
    amount_text: String,
    store: Store,
    now: Timestamp,
    debit: spec_fn(u32, u32) -> Option<u32>,
    credit: spec_fn(u32, u32) -> u32,
    above: spec_fn(u32, u32) -> bool,
    logged: Result<(), String>,
)
    requires
        records_under_own_id(store),
        sender != target,
        store.contains_key(sender),
        store.contains_key(target),
        !store[sender].frozen,
        !store[target].frozen,
        !above(a, store[sender].balance_bits),
        debit(store[sender].balance_bits, a) is Some,
    ensures
        ({
            let (task, action) = spec_pay_begin(sender, target, PayAmount::Value(a), sender_name, target_name, amount_text);
            let p = store[sender];
            let q = store[target];
            let paid = spec_stamped(ConcelarePlayer { balance_bits: debit(p.balance_bits, a).unwrap(), ..p }, now);
            let received = spec_stamped(ConcelarePlayer { balance_bits: credit(q.balance_bits, a), ..q }, now);
            let run = pay_drive(task, action, store, Seq::empty(), now, debit, credit, above, logged, 8);
            &&& run is Some
            &&& run.unwrap().0 == store.insert(sender, paid).insert(target, received)
            &&& run.unwrap().1 == (if logged is Ok { seq![(sender, target, a)] } else { Seq::empty() })
            &&& (run.unwrap().2.to_sender.1 == 1) == (logged is Ok)
            &&& logged is Ok ==> run.unwrap().2.to_sender.0 == seq![
                line("You have paid $"@ + amount_text@ + " to "@ + target_name@, NamedColor::Green, None),
            ]
            &&& logged is Ok ==> run.unwrap().2.to_target == Some(
                line("You have received $"@ + amount_text@ + " from "@ + sender_name@, NamedColor::Green, None),
            )
            &&& logged is Err ==> run.unwrap().2.to_sender.0.len() == 0 && run.unwrap().2.to_target is None
        }),
{
    reveal_with_fuel(pay_drive, 9);
    assert(store[sender].uuid == sender);
    assert(store[target].uuid == target);
}


/// How a payment that does not go through ends, whatever the payer, payee,
/// balance and errors: without a message when the balance cannot be read,
/// when no amount was given or when logging fails; otherwise by telling the
/// payer why: an amount that is no number, an amount above the balance, a
/// frozen payer, a frozen payee, or a balance that could not be updated
/// (also after the payer was paid back).
pub proof fn law_payment_refusals(
    start: PayTask,
    b: u32,
    e: AccountError,
    r: Result<(), AccountError>,
    s: String,
)
    requires
        at_start(start),
    ensures
        pay_action_after(start, seq![PayEvent::Balance(Err(e))]) == Some(quiet_end()),
        start.amount == PayAmount::Missing ==> pay_action_after(start, seq![PayEvent::Balance(Ok(b))])
            == Some(quiet_end()),
        start.amount == PayAmount::Invalid ==> pay_action_after(start, seq![PayEvent::Balance(Ok(b))])
            == Some(refusal("Invalid amount!"@)),
        start.amount is Value ==> pay_action_after(
            start,
            seq![PayEvent::Balance(Ok(b)), PayEvent::AmountAbove(true)],
        ) == Some(refusal("You cannot pay more than your balance!"@)),
        start.amount is Value ==> pay_action_after(
            start,
            seq![PayEvent::Balance(Ok(b)), PayEvent::AmountAbove(false), PayEvent::FrozenStatus(Ok(true))],
        ) == Some(refusal("You cannot pay while frozen!"@)),
        start.amount is Value ==> pay_action_after(
            start,
            seq![
                PayEvent::Balance(Ok(b)),
                PayEvent::AmountAbove(false),
                PayEvent::FrozenStatus(Ok(false)),
                PayEvent::FrozenStatus(Ok(true)),
            ],
        ) == Some(refusal("That player is frozen!"@)),
        start.amount is Value ==> pay_action_after(
            start,
            seq![
                PayEvent::Balance(Ok(b)),
                PayEvent::AmountAbove(false),
                PayEvent::FrozenStatus(Ok(false)),
                PayEvent::FrozenStatus(Ok(false)),
                PayEvent::Updated(Err(e)),
            ],
        ) == Some(refusal("Error updating balance!"@)),
        start.amount is Value ==> pay_action_after(
            start,
            seq![
                PayEvent::Balance(Ok(b)),
                PayEvent::AmountAbove(false),
                PayEvent::FrozenStatus(Ok(false)),
                PayEvent::FrozenStatus(Ok(false)),
                PayEvent::Updated(Ok(())),
                PayEvent::Updated(Err(e)),
                PayEvent::Updated(r),
            ],
        ) == Some(refusal("Error updating balance!"@)),
        start.amount is Value ==> pay_action_after(
            start,
            seq![
                PayEvent::Balance(Ok(b)),
                PayEvent::AmountAbove(false),
                PayEvent::FrozenStatus(Ok(false)),
                PayEvent::FrozenStatus(Ok(false)),
                PayEvent::Updated(Ok(())),
                PayEvent::Updated(Ok(())),
                PayEvent::Logged(Err(s)),
            ],
        ) == Some(quiet_end()),
{
    reveal_with_fuel(pay_after, 8);
    let e1 = PayEvent::Balance(Ok(b));
    let e2 = PayEvent::AmountAbove(false);
    let e3 = PayEvent::FrozenStatus(Ok(false));
    let e5 = PayEvent::Updated(Ok(()));
    assert(seq![e1, PayEvent::AmountAbove(true)].drop_last() =~= seq![e1]);
    assert(seq![e1].drop_last() =~= Seq::<PayEvent>::empty());
    assert(seq![PayEvent::Balance(Err(e))].drop_last() =~= Seq::<PayEvent>::empty());
    assert(seq![e1, e2, PayEvent::FrozenStatus(Ok(true))].drop_last() =~= seq![e1, e2]);
    assert(seq![e1, e2].drop_last() =~= seq![e1]);
    assert(seq![e1, e2, e3, PayEvent::FrozenStatus(Ok(true))].drop_last() =~= seq![e1, e2, e3]);
    assert(seq![e1, e2, e3].drop_last() =~= seq![e1, e2]);
    assert(seq![e1, e2, e3, e3, PayEvent::Updated(Err(e))].drop_last() =~= seq![e1, e2, e3, e3]);
    assert(seq![e1, e2, e3, e3].drop_last() =~= seq![e1, e2, e3]);
    assert(seq![e1, e2, e3, e3, e5, PayEvent::Updated(Err(e)), PayEvent::Updated(r)].drop_last()
        =~= seq![e1, e2, e3, e3, e5, PayEvent::Updated(Err(e))]);
    assert(seq![e1, e2, e3, e3, e5, PayEvent::Updated(Err(e))].drop_last() =~= seq![e1, e2, e3, e3, e5]);
    assert(seq![e1, e2, e3, e3, e5].drop_last() =~= seq![e1, e2, e3, e3]);
    assert(seq![e1, e2, e3, e3, e5, e5, PayEvent::Logged(Err(s))].drop_last() =~= seq![e1, e2, e3, e3, e5, e5]);
    assert(seq![e1, e2, e3, e3, e5, e5].drop_last() =~= seq![e1, e2, e3, e3, e5]);
}

} // verus!
