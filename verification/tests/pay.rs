use concelare_economy::commands::pay::{PayAction, PayAmount, PayCommandExecutor, PayEvent, PayOutcome, PayTask};
use concelare_economy::commands::{CommandOutcome, Message, NamedColor, Styled};
use concelare_economy::ledger::AccountError;

fn msg(text: &str, color: NamedColor, bold: Option<bool>) -> Message {
    Message { head: Styled { text: text.to_string(), color, bold }, child: None }
}

const PAYER: u128 = 1;
const PAYEE: u128 = 2;

fn start(amount: PayAmount) -> (PayTask, PayAction) {
    PayTask::begin(PAYER, PAYEE, amount, "Steve".to_string(), "Alex".to_string(), "5.00".to_string())
}

/// Answers a payment's actions in turn from `answers`, recording the actions.
fn drive(amount: PayAmount, answers: Vec<PayEvent>) -> (Vec<String>, PayOutcome) {
    let (mut task, mut action) = start(amount);
    let mut log = Vec::new();
    let mut answers = answers.into_iter();
    loop {
        match action {
            PayAction::Finish(o) => return (log, o),
            other => log.push(format!("{:?}", other)),
        }
        let event = answers.next().expect("the payment asked for more than was scripted");
        assert!(task.accepts(&event));
        let (t, a) = task.step(event);
        task = t;
        action = a;
    }
}

fn refusal(text: &str) -> PayOutcome {
    PayOutcome { to_sender: CommandOutcome { messages: vec![msg(text, NamedColor::DarkRed, Some(true))], code: 0 }, to_target: None }
}

fn five() -> PayAmount {
    PayAmount::Value(5.0f32.to_bits())
}

#[test]
fn payment_goes_through() {
    let (steps, out) = drive(five(), vec![
        PayEvent::Balance(Ok(10.0f32.to_bits())),
        PayEvent::AmountAbove(false),
        PayEvent::FrozenStatus(Ok(false)),
        PayEvent::FrozenStatus(Ok(false)),
        PayEvent::Updated(Ok(())),
        PayEvent::Updated(Ok(())),
        PayEvent::Logged(Ok(())),
    ]);
    assert_eq!(steps.len(), 7);
    assert!(steps[4].starts_with("RemoveMoney { player: 1,"));
    assert!(steps[5].starts_with("AddMoney { player: 2,"));
    assert!(steps[6].starts_with("LogPayment { sender: 1, receiver: 2,"));
    assert_eq!(out, PayOutcome {
        to_sender: CommandOutcome { messages: vec![msg("You have paid $5.00 to Alex", NamedColor::Green, None)], code: 1 },
        to_target: Some(msg("You have received $5.00 from Steve", NamedColor::Green, None)),
    });
}

#[test]
fn amount_above_balance_is_refused() {
    let (steps, out) = drive(five(), vec![PayEvent::Balance(Ok(1.0f32.to_bits())), PayEvent::AmountAbove(true)]);
    assert_eq!(steps.len(), 2);
    assert_eq!(out, refusal("You cannot pay more than your balance!"));
}

#[test]
fn frozen_payer_or_payee_is_refused() {
    let (_, out) = drive(five(), vec![PayEvent::Balance(Ok(0)), PayEvent::AmountAbove(false), PayEvent::FrozenStatus(Ok(true))]);
    assert_eq!(out, refusal("You cannot pay while frozen!"));
    let (_, out) = drive(five(), vec![
        PayEvent::Balance(Ok(0)),
        PayEvent::AmountAbove(false),
        PayEvent::FrozenStatus(Ok(false)),
        PayEvent::FrozenStatus(Ok(true)),
    ]);
    assert_eq!(out, refusal("That player is frozen!"));
}

#[test]
fn unreadable_frozen_status_does_not_stop_payment() {
    let (steps, _) = drive(five(), vec![
        PayEvent::Balance(Ok(0)),
        PayEvent::AmountAbove(false),
        PayEvent::FrozenStatus(Err(AccountError::FrozenStatusUnavailable)),
        PayEvent::FrozenStatus(Err(AccountError::FrozenStatusUnavailable)),
        PayEvent::Updated(Err(AccountError::InsufficientFunds)),
    ]);
    assert!(steps[4].starts_with("RemoveMoney"));
}

#[test]
fn failed_credit_is_paid_back() {
    let (steps, out) = drive(five(), vec![
        PayEvent::Balance(Ok(0)),
        PayEvent::AmountAbove(false),
        PayEvent::FrozenStatus(Ok(false)),
        PayEvent::FrozenStatus(Ok(false)),
        PayEvent::Updated(Ok(())),
        PayEvent::Updated(Err(AccountError::Frozen)),
        PayEvent::Updated(Ok(())),
    ]);
    assert_eq!(steps[6], format!("AddMoney {{ player: 1, amount_bits: {} }}", 5.0f32.to_bits()));
    assert_eq!(out, refusal("Error updating balance!"));
}

#[test]
fn failed_debit_stops_payment() {
    let (steps, out) = drive(five(), vec![
        PayEvent::Balance(Ok(0)),
        PayEvent::AmountAbove(false),
        PayEvent::FrozenStatus(Ok(false)),
        PayEvent::FrozenStatus(Ok(false)),
        PayEvent::Updated(Err(AccountError::InsufficientFunds)),
    ]);
    assert_eq!(steps.len(), 5);
    assert_eq!(out, refusal("Error updating balance!"));
}

#[test]
fn failed_log_ends_quietly() {
    let (_, out) = drive(five(), vec![
        PayEvent::Balance(Ok(0)),
        PayEvent::AmountAbove(false),
        PayEvent::FrozenStatus(Ok(false)),
        PayEvent::FrozenStatus(Ok(false)),
        PayEvent::Updated(Ok(())),
        PayEvent::Updated(Ok(())),
        PayEvent::Logged(Err("disk".to_string())),
    ]);
    assert_eq!(out, PayOutcome { to_sender: CommandOutcome { messages: vec![], code: 0 }, to_target: None });
}

#[test]
fn bad_amounts_and_balances() {
    let (_, out) = drive(PayAmount::Invalid, vec![PayEvent::Balance(Ok(0))]);
    assert_eq!(out, refusal("Invalid amount!"));
    let (_, out) = drive(PayAmount::Missing, vec![PayEvent::Balance(Ok(0))]);
    assert_eq!(out, PayOutcome { to_sender: CommandOutcome { messages: vec![], code: 0 }, to_target: None });
    let (_, out) = drive(five(), vec![PayEvent::Balance(Err(AccountError::BalanceUnavailable))]);
    assert_eq!(out.to_sender.code, 0);
    assert!(out.to_sender.messages.is_empty());
}

#[test]
fn payment_answers_out_of_turn_are_refused() {
    let (task, _) = start(five());
    assert!(!task.accepts(&PayEvent::AmountAbove(false)));
    assert!(task.accepts(&PayEvent::Balance(Ok(0))));
}

#[test]
fn missing_arguments_answer() {
    assert_eq!(PayCommandExecutor::missing_arguments(), CommandOutcome {
        messages: vec![msg("Missing arguments: 'Player' and 'Amount'", NamedColor::DarkRed, Some(true))],
        code: 1,
    });
}
