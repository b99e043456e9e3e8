//! The `pay` command: one player pays another.
//!
//! A payment reads the payer's balance, checks the amount against it,
//! checks that neither player's account is frozen, takes the money from the
//! payer, gives it to the payee (paying it back to the payer if that fails)
//! and logs the payment. The caller performs each of these steps, as a
//! [`PayTask`] asks for them with a [`PayAction`], and answers with a
//! [`PayEvent`].

use vstd::prelude::*;
use vstd::string::StringExecFns;

use crate::commands::{
    CommandOutcome, Message, MessageView, NamedColor, join3, line, one, say, say_str, silent,
};
use crate::ledger::AccountError;

verus! {

/// Runs the `pay` command.
pub struct PayCommandExecutor;

/// The command's amount argument.
#[derive(Clone, Copy, Debug, PartialEq, Eq, Structural)]
pub enum PayAmount {
    /// No amount was given.
    Missing,
    /// The amount given is not an `f32`.
    Invalid,
    /// The amount, by the bits of its `f32`.
    Value(u32),
}

/// Where a payment stands.
#[derive(Clone, Copy, Debug, PartialEq, Eq, Structural)]
pub enum PayPhase {
    /// The payer's balance is being read.
    AwaitBalance,
    /// The amount (bits) is being compared with the balance.
    AwaitComparison(u32),
    /// Whether the payer's account is frozen is being read.
    AwaitSenderFrozen(u32),
    /// Whether the payee's account is frozen is being read.
    AwaitTargetFrozen(u32),
    /// The amount is being taken from the payer.
    AwaitDebit(u32),
    /// The amount is being given to the payee.
    AwaitCredit(u32),
    /// The amount is being given back to the payer.
    AwaitRefund(u32),
    /// The payment is being logged.
    AwaitLog(u32),
    /// The command is over.
    Finished,
}

/// A payment in progress.
#[derive(Clone, Debug)]
pub struct PayTask {
    pub sender: u128,
    pub target: u128,
    pub amount: PayAmount,
    pub sender_name: String,
    pub target_name: String,
    /// The amount written as money.
    pub amount_text: String,
    pub phase: PayPhase,
}

/// How a payment ended: the answer to the payer, and a message for the
/// payee (to be delivered if the payee is online).
#[derive(Clone, Debug, PartialEq, Eq)]
pub struct PayOutcome {
    pub to_sender: CommandOutcome,
    pub to_target: Option<Message>,
}

/// The view of a payment's end.
pub struct PayOutcomeView {
    pub to_sender: (Seq<MessageView>, i32),
    pub to_target: Option<MessageView>,
}

impl View for PayOutcome {
    type V = PayOutcomeView;

    open spec fn view(&self) -> PayOutcomeView {
        PayOutcomeView {
            to_sender: self.to_sender@,
            to_target: match self.to_target {
                Some(m) => Some(m@),
                None => None,
            },
        }
    }
}

/// What the caller is to do next for a payment.
#[derive(Debug)]
pub enum PayAction {
    /// Read the balance of player `0` (the repository's `get_balance`).
    GetBalance(u128),
    /// Compare two `f32` values by their bits: answer `AmountAbove(amount > balance)`.
    CompareAmount { amount_bits: u32, balance_bits: u32 },
    /// Read whether player `0`'s account is frozen (the repository's `is_frozen`).
    CheckFrozen(u128),
    /// Take the amount from player `player` (the repository's `remove_money`).
    RemoveMoney { player: u128, amount_bits: u32 },
    /// Give the amount to player `player` (the repository's `add_money`).
    AddMoney { player: u128, amount_bits: u32 },
    /// Append the payment to the transaction log.
    LogPayment { sender: u128, receiver: u128, amount_bits: u32 },
    /// The command is over.
    Finish(PayOutcome),
}

/// The view of a [`PayAction`].
pub enum PayActionView {
    GetBalance(u128),
    CompareAmount { amount_bits: u32, balance_bits: u32 },
    CheckFrozen(u128),
    RemoveMoney { player: u128, amount_bits: u32 },
    AddMoney { player: u128, amount_bits: u32 },
    LogPayment { sender: u128, receiver: u128, amount_bits: u32 },
    Finish(PayOutcomeView),
}

impl View for PayAction {
    type V = PayActionView;

    open spec fn view(&self) -> PayActionView {
        match self {
            PayAction::GetBalance(p) => PayActionView::GetBalance(*p),
            PayAction::CompareAmount { amount_bits, balance_bits } => PayActionView::CompareAmount {
                amount_bits: *amount_bits,
                balance_bits: *balance_bits,
            },
            PayAction::CheckFrozen(p) => PayActionView::CheckFrozen(*p),
            PayAction::RemoveMoney { player, amount_bits } => PayActionView::RemoveMoney {
                player: *player,
                amount_bits: *amount_bits,
            },
            PayAction::AddMoney { player, amount_bits } => PayActionView::AddMoney {
                player: *player,
                amount_bits: *amount_bits,
            },
            PayAction::LogPayment { sender, receiver, amount_bits } => PayActionView::LogPayment {
                sender: *sender,
                receiver: *receiver,
                amount_bits: *amount_bits,
            },
            PayAction::Finish(o) => PayActionView::Finish(o@),
        }
    }
}

/// What came of a [`PayAction`].
#[derive(Debug)]
pub enum PayEvent {
    Balance(Result<u32, AccountError>),
    AmountAbove(bool),
    FrozenStatus(Result<bool, AccountError>),
    Updated(Result<(), AccountError>),
    Logged(Result<(), String>),
}

/// A payment's end with one message to the payer and none to the payee.
pub open spec fn refusal(text: Seq<char>) -> PayActionView {
    PayActionView::Finish(PayOutcomeView {
        to_sender: (seq![line(text, NamedColor::DarkRed, Some(true))], 0),
        to_target: None,
    })
}

/// A payment's end without any message.
pub open spec fn quiet_end() -> PayActionView {
    PayActionView::Finish(PayOutcomeView { to_sender: (Seq::empty(), 0), to_target: None })
}

/// The end of a payment that went through.
pub open spec fn paid_end(task: PayTask) -> PayActionView {
    PayActionView::Finish(PayOutcomeView {
        to_sender: (
            seq![line("You have paid $"@ + task.amount_text@ + " to "@ + task.target_name@, NamedColor::Green, None)],
            1,
        ),
        to_target: Some(
            line("You have received $"@ + task.amount_text@ + " from "@ + task.sender_name@, NamedColor::Green, None),
        ),
    })
}

/// The task in phase `phase`.
pub open spec fn in_phase(task: PayTask, phase: PayPhase) -> PayTask {
    PayTask { phase, ..task }
}

/// Whether `event` answers what the task asked for last.
pub open spec fn spec_pay_accepts(task: PayTask, event: PayEvent) -> bool {
    match task.phase {
        PayPhase::AwaitBalance => event is Balance,
        PayPhase::AwaitComparison(_) => event is AmountAbove,
        PayPhase::AwaitSenderFrozen(_) | PayPhase::AwaitTargetFrozen(_) => event is FrozenStatus,
        PayPhase::AwaitDebit(_) | PayPhase::AwaitCredit(_) | PayPhase::AwaitRefund(_) => event is Updated,
        PayPhase::AwaitLog(_) => event is Logged,
        PayPhase::Finished => false,
    }
}

/// Whether a frozen-status answer says the account is frozen.
pub open spec fn says_frozen(r: Result<bool, AccountError>) -> bool {
    r matches Ok(true)
}

/// The next step of a payment, given the answer to its last action.
pub open spec fn spec_pay_step(task: PayTask, event: PayEvent) -> (PayTask, PayActionView) {
    let done = in_phase(task, PayPhase::Finished);
    match (task.phase, event) {
        (PayPhase::AwaitBalance, PayEvent::Balance(r)) => match r {
            Err(_) => (done, quiet_end()),
            Ok(b) => match task.amount {
                PayAmount::Missing => (done, quiet_end()),
                PayAmount::Invalid => (done, refusal("Invalid amount!"@)),
                PayAmount::Value(a) => (
                    in_phase(task, PayPhase::AwaitComparison(a)),
                    PayActionView::CompareAmount { amount_bits: a, balance_bits: b },
                ),
            },
        },
        (PayPhase::AwaitComparison(a), PayEvent::AmountAbove(above)) => if above {
            (done, refusal("You cannot pay more than your balance!"@))
        } else {
            (in_phase(task, PayPhase::AwaitSenderFrozen(a)), PayActionView::CheckFrozen(task.sender))
        },
        (PayPhase::AwaitSenderFrozen(a), PayEvent::FrozenStatus(r)) => if says_frozen(r) {
            (done, refusal("You cannot pay while frozen!"@))
        } else {
            (in_phase(task, PayPhase::AwaitTargetFrozen(a)), PayActionView::CheckFrozen(task.target))
        },
        (PayPhase::AwaitTargetFrozen(a), PayEvent::FrozenStatus(r)) => if says_frozen(r) {
            (done, refusal("That player is frozen!"@))
        } else {
            (
                in_phase(task, PayPhase::AwaitDebit(a)),
                PayActionView::RemoveMoney { player: task.sender, amount_bits: a },
            )
        },
        (PayPhase::AwaitDebit(a), PayEvent::Updated(r)) => match r {
            Err(_) => (done, refusal("Error updating balance!"@)),
            Ok(()) => (
                in_phase(task, PayPhase::AwaitCredit(a)),
                PayActionView::AddMoney { player: task.target, amount_bits: a },
            ),
        },
        (PayPhase::AwaitCredit(a), PayEvent::Updated(r)) => match r {
            Err(_) => (
                in_phase(task, PayPhase::AwaitRefund(a)),
                PayActionView::AddMoney { player: task.sender, amount_bits: a },
            ),
            Ok(()) => (
                in_phase(task, PayPhase::AwaitLog(a)),
                PayActionView::LogPayment { sender: task.sender, receiver: task.target, amount_bits: a },
            ),
        },
        (PayPhase::AwaitRefund(_), PayEvent::Updated(_)) => (done, refusal("Error updating balance!"@)),
        (PayPhase::AwaitLog(_), PayEvent::Logged(r)) => match r {
            Err(_) => (done, quiet_end()),
            Ok(()) => (done, paid_end(task)),
        },
        _ => (task, PayActionView::GetBalance(task.sender)),
    }
}

/// The first step of a payment of `amount` from `sender` to `target`.
pub open spec fn spec_pay_begin(
    sender: u128,
    target: u128,
    amount: PayAmount,
    sender_name: String,
    target_name: String,
    amount_text: String,
) -> (PayTask, PayActionView) {
    (
        PayTask { sender, target, amount, sender_name, target_name, amount_text, phase: PayPhase::AwaitBalance },
        PayActionView::GetBalance(sender),
    )
}

fn refuse(text: &str) -> (a: PayAction)
    ensures
        a@ == refusal(text@),
{
    PayAction::Finish(PayOutcome {
        to_sender: one(say_str(text, NamedColor::DarkRed, Some(true)), 0),
        to_target: None,
    })
}

fn end_quietly() -> (a: PayAction)
    ensures
        a@ == quiet_end(),
{
    PayAction::Finish(PayOutcome { to_sender: silent(0), to_target: None })
}

impl PayCommandExecutor {
    /// The answer when the payee or the amount is missing.
    pub fn missing_arguments() -> (o: CommandOutcome)
        ensures
            o@ == (seq![line("Missing arguments: 'Player' and 'Amount'"@, NamedColor::DarkRed, Some(true))], 1i32),
    {
        one(say_str("Missing arguments: 'Player' and 'Amount'", NamedColor::DarkRed, Some(true)), 1)
    }
}

impl PayTask {
    /// Starts a payment of `amount` from `sender` to `target`; the names and
    /// the amount as text go into the messages.
    pub fn begin(
        sender: u128,
        target: u128,
        amount: PayAmount,
        sender_name: String,
        target_name: String,
        amount_text: String,
    ) -> (r: (PayTask, PayAction))
        ensures
            r.0 == spec_pay_begin(sender, target, amount, sender_name, target_name, amount_text).0,
            r.1@ == spec_pay_begin(sender, target, amount, sender_name, target_name, amount_text).1,
    {
        (
            PayTask { sender, target, amount, sender_name, target_name, amount_text, phase: PayPhase::AwaitBalance },
            PayAction::GetBalance(sender),
        )
    }

    /// Whether the task can go on with `event`.
    pub fn accepts(&self, event: &PayEvent) -> (b: bool)
        ensures
            b == spec_pay_accepts(*self, *event),
    {
        match self.phase {
            PayPhase::AwaitBalance => matches!(event, PayEvent::Balance(_)),
            PayPhase::AwaitComparison(_) => matches!(event, PayEvent::AmountAbove(_)),
            PayPhase::AwaitSenderFrozen(_) | PayPhase::AwaitTargetFrozen(_) => matches!(event, PayEvent::FrozenStatus(_)),
            PayPhase::AwaitDebit(_) | PayPhase::AwaitCredit(_) | PayPhase::AwaitRefund(_) => matches!(event, PayEvent::Updated(_)),
            PayPhase::AwaitLog(_) => matches!(event, PayEvent::Logged(_)),
            PayPhase::Finished => false,
        }
    }

    fn enter(self, phase: PayPhase) -> (t: PayTask)
        ensures
            t == in_phase(self, phase),
    {
        PayTask { phase, ..self }
    }

    /// The next step, given the answer `event` to the last action.
    pub fn step(self, event: PayEvent) -> (r: (PayTask, PayAction))
        requires
            spec_pay_accepts(self, event),
        ensures
            r.0 == spec_pay_step(self, event).0,
            r.1@ == spec_pay_step(self, event).1,
    {
        let sender = self.sender;
        let target = self.target;
        match (self.phase, event) {
            (PayPhase::AwaitBalance, PayEvent::Balance(r)) => match r {
                Err(_) => (self.enter(PayPhase::Finished), end_quietly()),
                Ok(b) => match self.amount {
                    PayAmount::Missing => (self.enter(PayPhase::Finished), end_quietly()),
                    PayAmount::Invalid => (self.enter(PayPhase::Finished), refuse("Invalid amount!")),
                    PayAmount::Value(a) => (
                        self.enter(PayPhase::AwaitComparison(a)),
                        PayAction::CompareAmount { amount_bits: a, balance_bits: b },
                    ),
                },
            },
            (PayPhase::AwaitComparison(a), PayEvent::AmountAbove(above)) => if above {
                (self.enter(PayPhase::Finished), refuse("You cannot pay more than your balance!"))
            } else {
                (self.enter(PayPhase::AwaitSenderFrozen(a)), PayAction::CheckFrozen(sender))
            },
            (PayPhase::AwaitSenderFrozen(a), PayEvent::FrozenStatus(r)) => if matches!(r, Ok(true)) {
                (self.enter(PayPhase::Finished), refuse("You cannot pay while frozen!"))
            } else {
                (self.enter(PayPhase::AwaitTargetFrozen(a)), PayAction::CheckFrozen(target))
            },
            (PayPhase::AwaitTargetFrozen(a), PayEvent::FrozenStatus(r)) => if matches!(r, Ok(true)) {
                (self.enter(PayPhase::Finished), refuse("That player is frozen!"))
            } else {
                (self.enter(PayPhase::AwaitDebit(a)), PayAction::RemoveMoney { player: sender, amount_bits: a })
            },
            (PayPhase::AwaitDebit(a), PayEvent::Updated(r)) => match r {
                Err(_) => (self.enter(PayPhase::Finished), refuse("Error updating balance!")),
                Ok(()) => (self.enter(PayPhase::AwaitCredit(a)), PayAction::AddMoney { player: target, amount_bits: a }),
            },
            (PayPhase::AwaitCredit(a), PayEvent::Updated(r)) => match r {
                Err(_) => (self.enter(PayPhase::AwaitRefund(a)), PayAction::AddMoney { player: sender, amount_bits: a }),
                Ok(()) => (
                    self.enter(PayPhase::AwaitLog(a)),
                    PayAction::LogPayment { sender, receiver: target, amount_bits: a },
                ),
            },
            (PayPhase::AwaitRefund(_), PayEvent::Updated(_)) => (
                self.enter(PayPhase::Finished),
                refuse("Error updating balance!"),
            ),
            (PayPhase::AwaitLog(_), PayEvent::Logged(r)) => match r {
                Err(_) => (self.enter(PayPhase::Finished), end_quietly()),
                Ok(()) => {
                    let mut paid = join3("You have paid $", self.amount_text.as_str(), " to ");
                    paid.append(self.target_name.as_str());
                    let mut received = join3("You have received $", self.amount_text.as_str(), " from ");
                    received.append(self.sender_name.as_str());
                    let outcome = PayOutcome {
                        to_sender: one(say(paid, NamedColor::Green, None), 1),
                        to_target: Some(say(received, NamedColor::Green, None)),
                    };
                    (self.enter(PayPhase::Finished), PayAction::Finish(outcome))
                },
            },
            _ => (self, PayAction::GetBalance(sender)),
        }
    }
}

} // verus!
