//! The rules that every operation on a player's account follows.
//!
//! An operation reads the player's record from the store, creates missing
//! accounts, applies the account rules (frozen accounts, sufficient funds)
//! and writes the new record. The store and the `f32` arithmetic on balances
//! belong to the caller: an [`AccountTask`] says what to do next as a
//! [`StoreAction`] and is told what came of it as a [`StoreEvent`].

use vstd::prelude::*;
use vstd::string::StringExecFns;

use crate::model::{ConcelarePlayer, Timestamp, spec_fresh_player, spec_stamped, ZERO_BALANCE_BITS};

verus! {

/// An operation of the player repository, for one player.
#[derive(Clone, Copy, Debug)]
pub enum AccountOp {
    /// Store a new account (zero balance, not frozen), replacing any record.
    Create,
    /// Read the account, if there is one.
    Get,
    /// Store the given record, stamped with the current time.
    Save(ConcelarePlayer),
    /// Set the balance (bit pattern) of an existing account.
    SetBalance(u32),
    /// Whether the account is frozen; a missing account is created first.
    IsFrozen,
    /// Freeze the account; a missing account is created first.
    Freeze,
    /// Unfreeze the account; a missing account is created first.
    Unfreeze,
    /// Take the amount (bit pattern) from the balance; a missing account is created first.
    RemoveMoney(u32),
    /// Add the amount (bit pattern) to the balance; a missing account is created first.
    AddMoney(u32),
    /// The balance (bit pattern); a missing account is created first.
    GetBalance,
}

/// Why an account operation failed.
#[derive(Clone, Debug)]
pub enum AccountError {
    /// The store failed; its own message.
    Store(String),
    PlayerNotFound,
    AlreadyFrozen,
    NotFrozen,
    Frozen,
    InsufficientFunds,
    FrozenStatusUnavailable,
    BalanceUnavailable,
    SaveFailed,
    /// Saving failed; the store's own message follows the text.
    SaveFailedWith(String),
}

/// What a successful account operation returns.
#[derive(Clone, Copy, Debug)]
pub enum Reply {
    Player(ConcelarePlayer),
    MaybePlayer(Option<ConcelarePlayer>),
    Done,
    FrozenStatus(bool),
    Balance(u32),
}

/// What the caller is to do next for an account operation.
#[derive(Debug)]
pub enum StoreAction {
    /// Read the record stored under the key of player `0`.
    Read(u128),
    /// Write `record` under the key of player `key`.
    Write { key: u128, record: ConcelarePlayer },
    /// Compare and subtract two `f32` values given by their bits: answer
    /// `Debited(None)` when `balance_bits < amount_bits`, else
    /// `Debited(Some(bits of balance - amount))`.
    Debit { balance_bits: u32, amount_bits: u32 },
    /// Add two `f32` values given by their bits: answer `Credited(bits of balance + amount)`.
    Credit { balance_bits: u32, amount_bits: u32 },
    /// The operation is over, with this outcome.
    Finish(Result<Reply, AccountError>),
}

/// What came of a [`StoreAction`].
#[derive(Debug)]
pub enum StoreEvent {
    Loaded(Result<Option<ConcelarePlayer>, String>),
    Written(Result<(), String>),
    Debited(Option<u32>),
    Credited(u32),
}

/// Where an account operation stands.
#[derive(Clone, Copy, Debug)]
pub enum Phase {
    /// The first read is under way.
    Loading,
    /// A missing account is being created.
    Creating,
    /// The account is read again after creating it.
    Reloading,
    /// The balance of this record is being reduced.
    Debiting(ConcelarePlayer),
    /// The balance of this record is being increased.
    Crediting(ConcelarePlayer),
    /// This record is being written as the operation's result.
    Saving(ConcelarePlayer),
    /// The operation is over.
    Finished,
}

/// An account operation in progress.
#[derive(Clone, Copy, Debug)]
pub struct AccountTask {
    pub uuid: u128,
    pub op: AccountOp,
    pub phase: Phase,
}

// ---------------------------------------------------------------------------
// Error messages

pub open spec fn spec_error_message(e: AccountError) -> Seq<char> {
    match e {
        AccountError::Store(m) => m@,
        AccountError::PlayerNotFound => "Player not found"@,
        AccountError::AlreadyFrozen => "Player is already frozen"@,
        AccountError::NotFrozen => "Player is not frozen"@,
        AccountError::Frozen => "Player is frozen"@,
        AccountError::InsufficientFunds => "Insufficient funds"@,
        AccountError::FrozenStatusUnavailable => "Error occurred getting player frozen status"@,
        AccountError::BalanceUnavailable => "Error occurred getting player balance"@,
        AccountError::SaveFailed => "Error occurred saving player"@,
        AccountError::SaveFailedWith(m) => "Error saving player: "@ + m@,
    }
}

impl AccountError {
    /// The error's text, as the repository reports it.
    pub fn message(&self) -> (s: String)
        ensures
            s@ == spec_error_message(*self),
    {
        match self {
            AccountError::Store(m) => m.clone(),
            AccountError::PlayerNotFound => String::from_str("Player not found"),
            AccountError::AlreadyFrozen => String::from_str("Player is already frozen"),
            AccountError::NotFrozen => String::from_str("Player is not frozen"),
            AccountError::Frozen => String::from_str("Player is frozen"),
            AccountError::InsufficientFunds => String::from_str("Insufficient funds"),
            AccountError::FrozenStatusUnavailable => String::from_str(
                "Error occurred getting player frozen status",
            ),
            AccountError::BalanceUnavailable => String::from_str(
                "Error occurred getting player balance",
            ),
            AccountError::SaveFailed => String::from_str("Error occurred saving player"),
            AccountError::SaveFailedWith(m) => {
                let mut s = String::from_str("Error saving player: ");
                s.append(m.as_str());
                s
            },
        }
    }
}


// ---------------------------------------------------------------------------
// The transitions

/// Whether the operation creates the player's account when it is missing.
pub open spec fn creates_missing(op: AccountOp) -> bool {
    match op {
        AccountOp::IsFrozen | AccountOp::GetBalance | AccountOp::Freeze | AccountOp::Unfreeze
        | AccountOp::RemoveMoney(_) | AccountOp::AddMoney(_) => true,
        _ => false,
    }
}

/// The outcome of a final write that succeeded.
pub open spec fn saved_reply(op: AccountOp, record: ConcelarePlayer) -> Reply {
    match op {
        AccountOp::Create => Reply::Player(record),
        _ => Reply::Done,
    }
}

/// The error of a final write that failed with `e`.
pub open spec fn save_error(op: AccountOp, e: String) -> AccountError {
    match op {
        AccountOp::Freeze | AccountOp::AddMoney(_) => AccountError::SaveFailed,
        AccountOp::Unfreeze | AccountOp::RemoveMoney(_) => AccountError::SaveFailedWith(e),
        _ => AccountError::Store(e),
    }
}

/// The task that writes `record` under the key of `key` as its last step.
pub open spec fn saving(task: AccountTask, key: u128, record: ConcelarePlayer) -> (AccountTask, StoreAction) {
    (
        AccountTask { phase: Phase::Saving(record), ..task },
        StoreAction::Write { key, record },
    )
}

/// The task that is over with `result`.
pub open spec fn finishing(task: AccountTask, result: Result<Reply, AccountError>) -> (AccountTask, StoreAction) {
    (AccountTask { phase: Phase::Finished, ..task }, StoreAction::Finish(result))
}

/// What the account rules do with the player's record `p` once it is loaded.
pub open spec fn spec_decide(task: AccountTask, p: ConcelarePlayer, now: Timestamp) -> (AccountTask, StoreAction) {
    match task.op {
        AccountOp::Freeze => if p.frozen {
            finishing(task, Err(AccountError::AlreadyFrozen))
        } else {
            saving(task, p.uuid, spec_stamped(ConcelarePlayer { frozen: true, ..p }, now))
        },
        AccountOp::Unfreeze => if !p.frozen {
            finishing(task, Err(AccountError::NotFrozen))
        } else {
            saving(task, p.uuid, spec_stamped(ConcelarePlayer { frozen: false, ..p }, now))
        },
        AccountOp::RemoveMoney(amount) => if p.frozen {
            finishing(task, Err(AccountError::Frozen))
        } else {
            (
                AccountTask { phase: Phase::Debiting(p), ..task },
                StoreAction::Debit { balance_bits: p.balance_bits, amount_bits: amount },
            )
        },
        AccountOp::AddMoney(amount) => if p.frozen {
            finishing(task, Err(AccountError::Frozen))
        } else {
            (
                AccountTask { phase: Phase::Crediting(p), ..task },
                StoreAction::Credit { balance_bits: p.balance_bits, amount_bits: amount },
            )
        },
        AccountOp::IsFrozen => finishing(task, Ok(Reply::FrozenStatus(p.frozen))),
        _ => finishing(task, Ok(Reply::Balance(p.balance_bits))),
    }
}

/// The first step of operation `op` on player `uuid` at time `now`.
pub open spec fn spec_begin(uuid: u128, op: AccountOp, now: Timestamp) -> (AccountTask, StoreAction) {
    let task = AccountTask { uuid, op, phase: Phase::Loading };
    match op {
        AccountOp::Create => saving(task, uuid, spec_fresh_player(uuid, now)),
        AccountOp::Save(p) => saving(task, p.uuid, spec_stamped(p, now)),
        _ => (task, StoreAction::Read(uuid)),
    }
}

/// Whether `event` answers what the task asked for last, and is no answer on
/// which the repository gives up (a created account that is missing when it
/// is read back, for an operation that goes on with the record).
pub open spec fn spec_accepts(task: AccountTask, event: StoreEvent) -> bool {
    match task.phase {
        Phase::Loading => event is Loaded,
        Phase::Creating => event is Written,
        Phase::Reloading => match event {
            StoreEvent::Loaded(Ok(None)) => task.op is IsFrozen || task.op is GetBalance,
            StoreEvent::Loaded(_) => true,
            _ => false,
        },
        Phase::Debiting(_) => event is Debited,
        Phase::Crediting(_) => event is Credited,
        Phase::Saving(_) => event is Written,
        Phase::Finished => false,
    }
}

/// The next step of a task, given the answer to its last action, at time `now`.
pub open spec fn spec_step(task: AccountTask, event: StoreEvent, now: Timestamp) -> (AccountTask, StoreAction) {
    match (task.phase, event) {
        (Phase::Loading, StoreEvent::Loaded(r)) => match r {
            Err(e) => match task.op {
                AccountOp::IsFrozen => finishing(task, Err(AccountError::FrozenStatusUnavailable)),
                AccountOp::GetBalance => finishing(task, Err(AccountError::BalanceUnavailable)),
                _ => finishing(task, Err(AccountError::Store(e))),
            },
            Ok(None) => match task.op {
                AccountOp::Get => finishing(task, Ok(Reply::MaybePlayer(None))),
                AccountOp::SetBalance(_) => finishing(task, Err(AccountError::PlayerNotFound)),
                _ => (
                    AccountTask { phase: Phase::Creating, ..task },
                    StoreAction::Write { key: task.uuid, record: spec_fresh_player(task.uuid, now) },
                ),
            },
            Ok(Some(p)) => match task.op {
                AccountOp::Get => finishing(task, Ok(Reply::MaybePlayer(Some(p)))),
                AccountOp::SetBalance(b) => saving(
                    task,
                    task.uuid,
                    spec_stamped(ConcelarePlayer { balance_bits: b, ..p }, now),
                ),
                _ => spec_decide(task, p, now),
            },
        },
        (Phase::Creating, _) => (AccountTask { phase: Phase::Reloading, ..task }, StoreAction::Read(task.uuid)),
        (Phase::Reloading, StoreEvent::Loaded(r)) => match r {
            Err(e) => finishing(task, Err(AccountError::Store(e))),
            Ok(None) => match task.op {
                AccountOp::IsFrozen => finishing(task, Ok(Reply::FrozenStatus(false))),
                _ => finishing(task, Ok(Reply::Balance(ZERO_BALANCE_BITS))),
            },
            Ok(Some(p)) => spec_decide(task, p, now),
        },
        (Phase::Debiting(p), StoreEvent::Debited(r)) => match r {
            None => finishing(task, Err(AccountError::InsufficientFunds)),
            Some(b) => saving(task, p.uuid, spec_stamped(ConcelarePlayer { balance_bits: b, ..p }, now)),
        },
        (Phase::Crediting(p), StoreEvent::Credited(b)) =>
            saving(task, p.uuid, spec_stamped(ConcelarePlayer { balance_bits: b, ..p }, now)),
        (Phase::Saving(record), StoreEvent::Written(r)) => match r {
            Ok(()) => finishing(task, Ok(saved_reply(task.op, record))),
            Err(e) => finishing(task, Err(save_error(task.op, e))),
        },
        _ => (task, StoreAction::Read(task.uuid)),
    }
}


impl AccountTask {
    /// Starts operation `op` on player `uuid` at time `now`: the task and
    /// what the caller is to do first.
    pub fn begin(uuid: u128, op: AccountOp, now: Timestamp) -> (r: (AccountTask, StoreAction))
        ensures
            r == spec_begin(uuid, op, now),
    {
        let task = AccountTask { uuid, op, phase: Phase::Loading };
        match op {
            AccountOp::Create => {
                let record = ConcelarePlayer::fresh(uuid, now);
                (AccountTask { phase: Phase::Saving(record), ..task }, StoreAction::Write { key: uuid, record })
            },
            AccountOp::Save(p) => {
                let record = p.stamped(now);
                (AccountTask { phase: Phase::Saving(record), ..task }, StoreAction::Write { key: p.uuid, record })
            },
            _ => (task, StoreAction::Read(uuid)),
        }
    }

    /// Whether the task can go on with `event`: it answers the task's last
    /// action, and it is not a created account that went missing before an
    /// operation that needs the record (the repository gives up there).
    pub fn accepts(&self, event: &StoreEvent) -> (b: bool)
        ensures
            b == spec_accepts(*self, *event),
    {
        match self.phase {
            Phase::Loading => matches!(event, StoreEvent::Loaded(_)),
            Phase::Creating => matches!(event, StoreEvent::Written(_)),
            Phase::Reloading => match event {
                StoreEvent::Loaded(Ok(None)) => matches!(self.op, AccountOp::IsFrozen) || matches!(self.op, AccountOp::GetBalance),
                StoreEvent::Loaded(_) => true,
                _ => false,
            },
            Phase::Debiting(_) => matches!(event, StoreEvent::Debited(_)),
            Phase::Crediting(_) => matches!(event, StoreEvent::Credited(_)),
            Phase::Saving(_) => matches!(event, StoreEvent::Written(_)),
            Phase::Finished => false,
        }
    }

    fn finish(self, result: Result<Reply, AccountError>) -> (r: (AccountTask, StoreAction))
        ensures
            r == finishing(self, result),
    {
        (AccountTask { phase: Phase::Finished, ..self }, StoreAction::Finish(result))
    }

    fn save(self, key: u128, record: ConcelarePlayer) -> (r: (AccountTask, StoreAction))
        ensures
            r == saving(self, key, record),
    {
        (AccountTask { phase: Phase::Saving(record), ..self }, StoreAction::Write { key, record })
    }

    fn decide(self, p: ConcelarePlayer, now: Timestamp) -> (r: (AccountTask, StoreAction))
        ensures
            r == spec_decide(self, p, now),
    {
        match self.op {
            AccountOp::Freeze => if p.frozen {
                self.finish(Err(AccountError::AlreadyFrozen))
            } else {
                self.save(p.uuid, ConcelarePlayer { frozen: true, ..p }.stamped(now))
            },
            AccountOp::Unfreeze => if !p.frozen {
                self.finish(Err(AccountError::NotFrozen))
            } else {
                self.save(p.uuid, ConcelarePlayer { frozen: false, ..p }.stamped(now))
            },
            AccountOp::RemoveMoney(amount) => if p.frozen {
                self.finish(Err(AccountError::Frozen))
            } else {
                (
                    AccountTask { phase: Phase::Debiting(p), ..self },
                    StoreAction::Debit { balance_bits: p.balance_bits, amount_bits: amount },
                )
            },
            AccountOp::AddMoney(amount) => if p.frozen {
                self.finish(Err(AccountError::Frozen))
            } else {
                (
                    AccountTask { phase: Phase::Crediting(p), ..self },
                    StoreAction::Credit { balance_bits: p.balance_bits, amount_bits: amount },
                )
            },
            AccountOp::IsFrozen => self.finish(Ok(Reply::FrozenStatus(p.frozen))),
            _ => self.finish(Ok(Reply::Balance(p.balance_bits))),
        }
    }

    /// The next step, given the answer `event` to the last action, at time `now`.
    pub fn step(self, event: StoreEvent, now: Timestamp) -> (r: (AccountTask, StoreAction))
        requires
            spec_accepts(self, event),
        ensures
            r == spec_step(self, event, now),
    {
        match (self.phase, event) {
            (Phase::Loading, StoreEvent::Loaded(r)) => match r {
                Err(e) => match self.op {
                    AccountOp::IsFrozen => self.finish(Err(AccountError::FrozenStatusUnavailable)),
                    AccountOp::GetBalance => self.finish(Err(AccountError::BalanceUnavailable)),
                    _ => self.finish(Err(AccountError::Store(e))),
                },
                Ok(None) => match self.op {
                    AccountOp::Get => self.finish(Ok(Reply::MaybePlayer(None))),
                    AccountOp::SetBalance(_) => self.finish(Err(AccountError::PlayerNotFound)),
                    _ => {
                        let record = ConcelarePlayer::fresh(self.uuid, now);
                        (AccountTask { phase: Phase::Creating, ..self }, StoreAction::Write { key: self.uuid, record })
                    },
                },
                Ok(Some(p)) => match self.op {
                    AccountOp::Get => self.finish(Ok(Reply::MaybePlayer(Some(p)))),
                    AccountOp::SetBalance(b) => {
                        let key = self.uuid;
                        self.save(key, ConcelarePlayer { balance_bits: b, ..p }.stamped(now))
                    },
                    _ => self.decide(p, now),
                },
            },
            (Phase::Creating, _) => {
                let key = self.uuid;
                (AccountTask { phase: Phase::Reloading, ..self }, StoreAction::Read(key))
            },
            (Phase::Reloading, StoreEvent::Loaded(r)) => match r {
                Err(e) => self.finish(Err(AccountError::Store(e))),
                Ok(None) => match self.op {
                    AccountOp::IsFrozen => self.finish(Ok(Reply::FrozenStatus(false))),
                    _ => self.finish(Ok(Reply::Balance(ZERO_BALANCE_BITS))),
                },
                Ok(Some(p)) => self.decide(p, now),
            },
            (Phase::Debiting(p), StoreEvent::Debited(r)) => match r {
                None => self.finish(Err(AccountError::InsufficientFunds)),
                Some(b) => self.save(p.uuid, ConcelarePlayer { balance_bits: b, ..p }.stamped(now)),
            },
            (Phase::Crediting(p), StoreEvent::Credited(b)) =>
                self.save(p.uuid, ConcelarePlayer { balance_bits: b, ..p }.stamped(now)),
            (Phase::Saving(record), StoreEvent::Written(r)) => match r {
                Ok(()) => {
                    let reply = match self.op {
                        AccountOp::Create => Reply::Player(record),
                        _ => Reply::Done,
                    };
                    self.finish(Ok(reply))
                },
                Err(e) => {
                    let err = match self.op {
                        AccountOp::Freeze | AccountOp::AddMoney(_) => AccountError::SaveFailed,
                        AccountOp::Unfreeze | AccountOp::RemoveMoney(_) => AccountError::SaveFailedWith(e),
                        _ => AccountError::Store(e),
                    };
                    self.finish(Err(err))
                },
            },
            _ => {
                let key = self.uuid;
                (self, StoreAction::Read(key))
            },
        }
    }
}

} // verus!
