//! What the account operations do against a store that keeps what is
//! written to it, and the account rules that follow.

use vstd::prelude::*;

use crate::model::{ConcelarePlayer, Timestamp, spec_fresh_player, spec_stamped};
use crate::ledger::{
    AccountError, AccountOp, AccountTask, Phase, Reply, StoreAction, StoreEvent, spec_accepts, spec_begin,
    spec_error_message, spec_step,
};

verus! {

/// The player store as a map from key (a player's id) to record.
pub type Store = Map<u128, ConcelarePlayer>;

/// How an ideal store answers `action`: a read gives back what was last
/// written under the key, a write succeeds, and balances are combined by
/// `debit` and `credit` (which stand for the caller's `f32` arithmetic).
pub open spec fn ideal_answer(
    action: StoreAction,
    store: Store,
    debit: spec_fn(u32, u32) -> Option<u32>,
    credit: spec_fn(u32, u32) -> u32,
) -> (Store, StoreEvent) {
    match action {
        StoreAction::Read(k) => (store, StoreEvent::Loaded(Ok(store.get(k)))),
        StoreAction::Write { key, record } => (store.insert(key, record), StoreEvent::Written(Ok(()))),
        StoreAction::Debit { balance_bits, amount_bits } => (store, StoreEvent::Debited(debit(balance_bits, amount_bits))),
        StoreAction::Credit { balance_bits, amount_bits } => (store, StoreEvent::Credited(credit(balance_bits, amount_bits))),
        StoreAction::Finish(_) => (store, StoreEvent::Written(Ok(()))),
    }
}

/// Runs a task against an ideal store for at most `fuel` actions: the store
/// at the end and the task's outcome, or `None` if the task did not finish
/// or was handed an answer that it does not accept.
pub open spec fn drive(
    task: AccountTask,
    action: StoreAction,
    store: Store,
    now: Timestamp,
    debit: spec_fn(u32, u32) -> Option<u32>,
    credit: spec_fn(u32, u32) -> u32,
    fuel: nat,
) -> Option<(Store, Result<Reply, AccountError>)>
    decreases fuel,
{
    match action {
        StoreAction::Finish(r) => Some((store, r)),
        _ => if fuel == 0 {
            None
        } else {
            let (next_store, event) = ideal_answer(action, store, debit, credit);
            if !spec_accepts(task, event) {
                None
            } else {
                let (next_task, next_action) = spec_step(task, event, now);
                drive(next_task, next_action, next_store, now, debit, credit, (fuel - 1) as nat)
            }
        },
    }
}

/// Operation `op` on player `uuid`, run from its first step against an ideal
/// store holding `store`, with the clock at `now`.
pub open spec fn ideal_run(
    uuid: u128,
    op: AccountOp,
    store: Store,
    now: Timestamp,
    debit: spec_fn(u32, u32) -> Option<u32>,
    credit: spec_fn(u32, u32) -> u32,
) -> Option<(Store, Result<Reply, AccountError>)> {
    let (task, action) = spec_begin(uuid, op, now);
    drive(task, action, store, now, debit, credit, 5)
}

/// The record an operation works on: the stored one, or a new account.
pub open spec fn loaded(store: Store, uuid: u128, now: Timestamp) -> ConcelarePlayer {
    if store.contains_key(uuid) {
        store[uuid]
    } else {
        spec_fresh_player(uuid, now)
    }
}

/// The store once a missing account has been created.
pub open spec fn with_account(store: Store, uuid: u128, now: Timestamp) -> Store {
    if store.contains_key(uuid) {
        store
    } else {
        store.insert(uuid, spec_fresh_player(uuid, now))
    }
}

/// What each account operation does, stated directly: the store afterwards
/// and the outcome.
pub open spec fn account_semantics(
    uuid: u128,
    op: AccountOp,
    store: Store,
    now: Timestamp,
    debit: spec_fn(u32, u32) -> Option<u32>,
    credit: spec_fn(u32, u32) -> u32,
) -> (Store, Result<Reply, AccountError>) {
    let p = loaded(store, uuid, now);
    let s1 = with_account(store, uuid, now);
    match op {
        AccountOp::Create => {
            let fresh = spec_fresh_player(uuid, now);
            (store.insert(uuid, fresh), Ok(Reply::Player(fresh)))
        },
        AccountOp::Get => (store, Ok(Reply::MaybePlayer(store.get(uuid)))),
        AccountOp::Save(q) => (store.insert(q.uuid, spec_stamped(q, now)), Ok(Reply::Done)),
        AccountOp::SetBalance(b) => if store.contains_key(uuid) {
            (store.insert(uuid, spec_stamped(ConcelarePlayer { balance_bits: b, ..p }, now)), Ok(Reply::Done))
        } else {
            (store, Err(AccountError::PlayerNotFound))
        },
        AccountOp::IsFrozen => (s1, Ok(Reply::FrozenStatus(p.frozen))),
        AccountOp::GetBalance => (s1, Ok(Reply::Balance(p.balance_bits))),
        AccountOp::Freeze => if p.frozen {
            (s1, Err(AccountError::AlreadyFrozen))
        } else {
            (s1.insert(p.uuid, spec_stamped(ConcelarePlayer { frozen: true, ..p }, now)), Ok(Reply::Done))
        },
        AccountOp::Unfreeze => if !p.frozen {
            (s1, Err(AccountError::NotFrozen))
        } else {
            (s1.insert(p.uuid, spec_stamped(ConcelarePlayer { frozen: false, ..p }, now)), Ok(Reply::Done))
        },
        AccountOp::RemoveMoney(a) => if p.frozen {
            (s1, Err(AccountError::Frozen))
        } else {
            match debit(p.balance_bits, a) {
                None => (s1, Err(AccountError::InsufficientFunds)),
                Some(b) => (
                    s1.insert(p.uuid, spec_stamped(ConcelarePlayer { balance_bits: b, ..p }, now)),
                    Ok(Reply::Done),
                ),
            }
        },
        AccountOp::AddMoney(a) => if p.frozen {
            (s1, Err(AccountError::Frozen))
        } else {
            (
                s1.insert(p.uuid, spec_stamped(ConcelarePlayer { balance_bits: credit(p.balance_bits, a), ..p }, now)),
                Ok(Reply::Done),
            )
        },
    }
}

/// Against a store that gives back what was written to it, every account
/// operation finishes, never hits an answer it refuses, and does exactly
/// what `account_semantics` states.
pub proof fn lemma_ideal_run(
    uuid: u128,
    op: AccountOp,
    store: Store,
    now: Timestamp,
    debit: spec_fn(u32, u32) -> Option<u32>,
    credit: spec_fn(u32, u32) -> u32,
)
    ensures
        ideal_run(uuid, op, store, now, debit, credit) == Some(account_semantics(uuid, op, store, now, debit, credit)),
{
    reveal_with_fuel(drive, 6);
    let fresh = spec_fresh_player(uuid, now);
    if !store.contains_key(uuid) {
        assert(store.insert(uuid, fresh).get(uuid) == Some(fresh));
    }
}


/// Every record is stored under its own player's id.
pub open spec fn records_under_own_id(store: Store) -> bool {
    forall|k: u128| #[trigger] store.contains_key(k) ==> store[k].uuid == k
}

/// The store after running `op` against an ideal store.
pub open spec fn store_after(
    uuid: u128,
    op: AccountOp,
    store: Store,
    now: Timestamp,
    debit: spec_fn(u32, u32) -> Option<u32>,
    credit: spec_fn(u32, u32) -> u32,
) -> Store {
    ideal_run(uuid, op, store, now, debit, credit).unwrap().0
}

/// The outcome of running `op` against an ideal store.
pub open spec fn outcome_of(
    uuid: u128,
    op: AccountOp,
    store: Store,
    now: Timestamp,
    debit: spec_fn(u32, u32) -> Option<u32>,
    credit: spec_fn(u32, u32) -> u32,
) -> Result<Reply, AccountError> {
    ideal_run(uuid, op, store, now, debit, credit).unwrap().1
}

/// Every operation keeps each record under its own player's id.
pub proof fn law_records_stay_under_own_id(
    uuid: u128,
    op: AccountOp,
    store: Store,
    now: Timestamp,
    debit: spec_fn(u32, u32) -> Option<u32>,
    credit: spec_fn(u32, u32) -> u32,
)
    requires
        records_under_own_id(store),
    ensures
        records_under_own_id(store_after(uuid, op, store, now, debit, credit)),
{
    lemma_ideal_run(uuid, op, store, now, debit, credit);
    let s2 = store_after(uuid, op, store, now, debit, credit);
    assert forall|k: u128| #[trigger] s2.contains_key(k) implies s2[k].uuid == k by {
        if store.contains_key(k) {
            assert(store[k].uuid == k);
        }
    }
}

/// Neither removing nor adding money changes a frozen account: the
/// operation fails with `Frozen` and the store stays as it was.
pub proof fn law_frozen_account_is_untouched(
    uuid: u128,
    amount_bits: u32,
    store: Store,
    now: Timestamp,
    debit: spec_fn(u32, u32) -> Option<u32>,
    credit: spec_fn(u32, u32) -> u32,
)
    requires
        store.contains_key(uuid),
        store[uuid].frozen,
    ensures
        ideal_run(uuid, AccountOp::RemoveMoney(amount_bits), store, now, debit, credit)
            == Some((store, Err::<Reply, AccountError>(AccountError::Frozen))),
        ideal_run(uuid, AccountOp::AddMoney(amount_bits), store, now, debit, credit)
            == Some((store, Err::<Reply, AccountError>(AccountError::Frozen))),
{
    lemma_ideal_run(uuid, AccountOp::RemoveMoney(amount_bits), store, now, debit, credit);
    lemma_ideal_run(uuid, AccountOp::AddMoney(amount_bits), store, now, debit, credit);
}

/// Removing more than the balance (as `debit` judges it) fails with
/// `InsufficientFunds` and leaves every stored record as it was; a missing
/// account has been created.
pub proof fn law_insufficient_funds_change_nothing(
    uuid: u128,
    amount_bits: u32,
    store: Store,
    now: Timestamp,
    debit: spec_fn(u32, u32) -> Option<u32>,
    credit: spec_fn(u32, u32) -> u32,
)
    requires
        !loaded(store, uuid, now).frozen,
        debit(loaded(store, uuid, now).balance_bits, amount_bits) is None,
    ensures
        ideal_run(uuid, AccountOp::RemoveMoney(amount_bits), store, now, debit, credit)
            == Some((with_account(store, uuid, now), Err::<Reply, AccountError>(AccountError::InsufficientFunds))),
{
    lemma_ideal_run(uuid, AccountOp::RemoveMoney(amount_bits), store, now, debit, credit);
}

/// An account that nobody has seen yet is created on first use: asking for
/// its balance gives zero and asking whether it is frozen gives `false`, and
/// either leaves a new account in the store.
pub proof fn law_unknown_player_is_created(
    uuid: u128,
    store: Store,
    now: Timestamp,
    debit: spec_fn(u32, u32) -> Option<u32>,
    credit: spec_fn(u32, u32) -> u32,
)
    requires
        !store.contains_key(uuid),
    ensures
        ideal_run(uuid, AccountOp::GetBalance, store, now, debit, credit) == Some((
            store.insert(uuid, spec_fresh_player(uuid, now)),
            Ok::<Reply, AccountError>(Reply::Balance(crate::model::ZERO_BALANCE_BITS)),
        )),
        ideal_run(uuid, AccountOp::IsFrozen, store, now, debit, credit) == Some((
            store.insert(uuid, spec_fresh_player(uuid, now)),
            Ok::<Reply, AccountError>(Reply::FrozenStatus(false)),
        )),
{
    lemma_ideal_run(uuid, AccountOp::GetBalance, store, now, debit, credit);
    lemma_ideal_run(uuid, AccountOp::IsFrozen, store, now, debit, credit);
}

/// Freezing succeeds exactly on an account that is not frozen, and after it
/// the account reads as frozen.
pub proof fn law_freeze_then_frozen(
    uuid: u128,
    store: Store,
    now: Timestamp,
    later: Timestamp,
    debit: spec_fn(u32, u32) -> Option<u32>,
    credit: spec_fn(u32, u32) -> u32,
)
    requires
        records_under_own_id(store),
    ensures
        (outcome_of(uuid, AccountOp::Freeze, store, now, debit, credit) is Ok)
            == !loaded(store, uuid, now).frozen,
        outcome_of(uuid, AccountOp::Freeze, store, now, debit, credit) is Ok ==> ideal_run(
            uuid,
            AccountOp::IsFrozen,
            store_after(uuid, AccountOp::Freeze, store, now, debit, credit),
            later,
            debit,
            credit,
        ) == Some((
            store_after(uuid, AccountOp::Freeze, store, now, debit, credit),
            Ok::<Reply, AccountError>(Reply::FrozenStatus(true)),
        )),
        outcome_of(uuid, AccountOp::Freeze, store, now, debit, credit) is Err ==>
            outcome_of(uuid, AccountOp::Freeze, store, now, debit, credit) == Err::<Reply, AccountError>(AccountError::AlreadyFrozen),
{
    lemma_ideal_run(uuid, AccountOp::Freeze, store, now, debit, credit);
    let s2 = store_after(uuid, AccountOp::Freeze, store, now, debit, credit);
    lemma_ideal_run(uuid, AccountOp::IsFrozen, s2, later, debit, credit);
    if store.contains_key(uuid) {
        assert(store[uuid].uuid == uuid);
    }
}

/// Unfreezing an account that freezing has just frozen gives back the
/// account as it was, but for the time of its last update.
pub proof fn law_unfreeze_undoes_freeze(
    uuid: u128,
    store: Store,
    now: Timestamp,
    later: Timestamp,
    debit: spec_fn(u32, u32) -> Option<u32>,
    credit: spec_fn(u32, u32) -> u32,
)
    requires
        records_under_own_id(store),
        store.contains_key(uuid),
        !store[uuid].frozen,
    ensures
        ({
            let s2 = store_after(uuid, AccountOp::Freeze, store, now, debit, credit);
            let s3 = store_after(uuid, AccountOp::Unfreeze, s2, later, debit, credit);
            &&& outcome_of(uuid, AccountOp::Unfreeze, s2, later, debit, credit) == Ok::<Reply, AccountError>(Reply::Done)
            &&& s3 == store.insert(uuid, spec_stamped(store[uuid], later))
        }),
{
    lemma_ideal_run(uuid, AccountOp::Freeze, store, now, debit, credit);
    let s2 = store_after(uuid, AccountOp::Freeze, store, now, debit, credit);
    lemma_ideal_run(uuid, AccountOp::Unfreeze, s2, later, debit, credit);
    assert(store[uuid].uuid == uuid);
    let s3 = store_after(uuid, AccountOp::Unfreeze, s2, later, debit, credit);
    assert(s3 =~= store.insert(uuid, spec_stamped(store[uuid], later)));
}

/// A record read back after it was saved is the saved record, stamped with
/// the time of saving.
pub proof fn law_get_after_save(
    player: ConcelarePlayer,
    store: Store,
    now: Timestamp,
    later: Timestamp,
    debit: spec_fn(u32, u32) -> Option<u32>,
    credit: spec_fn(u32, u32) -> u32,
)
    ensures
        ideal_run(
            player.uuid,
            AccountOp::Get,
            store_after(player.uuid, AccountOp::Save(player), store, now, debit, credit),
            later,
            debit,
            credit,
        ).unwrap().1 == Ok::<Reply, AccountError>(Reply::MaybePlayer(Some(spec_stamped(player, now)))),
{
    lemma_ideal_run(player.uuid, AccountOp::Save(player), store, now, debit, credit);
    let s2 = store_after(player.uuid, AccountOp::Save(player), store, now, debit, credit);
    lemma_ideal_run(player.uuid, AccountOp::Get, s2, later, debit, credit);
}

/// After a successful payment out of an account (removing money), the
/// account holds exactly the balance that `debit` computed.
pub proof fn law_remove_money_sets_debited_balance(
    uuid: u128,
    amount_bits: u32,
    store: Store,
    now: Timestamp,
    debit: spec_fn(u32, u32) -> Option<u32>,
    credit: spec_fn(u32, u32) -> u32,
)
    requires
        records_under_own_id(store),
        outcome_of(uuid, AccountOp::RemoveMoney(amount_bits), store, now, debit, credit) is Ok,
    ensures
        store_after(uuid, AccountOp::RemoveMoney(amount_bits), store, now, debit, credit)[uuid].balance_bits
            == debit(loaded(store, uuid, now).balance_bits, amount_bits).unwrap(),
        !loaded(store, uuid, now).frozen,
{
    lemma_ideal_run(uuid, AccountOp::RemoveMoney(amount_bits), store, now, debit, credit);
    if store.contains_key(uuid) {
        assert(store[uuid].uuid == uuid);
    }
}


/// A new account has a zero balance (the bits of `0.0`), is not frozen, and
/// was created, updated and seen at the time of creation; saving a record
/// changes nothing but the time of its last update.
pub proof fn law_new_and_saved_records(uuid: u128, now: Timestamp, p: ConcelarePlayer)
    ensures
        spec_fresh_player(uuid, now) == (ConcelarePlayer {
            uuid,
            balance_bits: 0,
            created_at: now,
            last_updated: now,
            last_seen: now,
            frozen: false,
        }),
        spec_stamped(p, now) == (ConcelarePlayer {
            uuid: p.uuid,
            balance_bits: p.balance_bits,
            created_at: p.created_at,
            last_updated: now,
            last_seen: p.last_seen,
            frozen: p.frozen,
        }),
{
}

/// Creating an account stores a new account under the player's id and
/// returns it: zero balance, not frozen, all its times `now`.
pub proof fn law_create_stores_a_new_account(
    uuid: u128,
    store: Store,
    now: Timestamp,
    debit: spec_fn(u32, u32) -> Option<u32>,
    credit: spec_fn(u32, u32) -> u32,
)
    ensures
        ({
            let fresh = ConcelarePlayer {
                uuid,
                balance_bits: 0,
                created_at: now,
                last_updated: now,
                last_seen: now,
                frozen: false,
            };
            ideal_run(uuid, AccountOp::Create, store, now, debit, credit) == Some((
                store.insert(uuid, fresh),
                Ok::<Reply, AccountError>(Reply::Player(fresh)),
            ))
        }),
{
    lemma_ideal_run(uuid, AccountOp::Create, store, now, debit, credit);
}

/// Reading an account, its frozen flag or its balance changes nothing in the
/// store when the account exists, and gives what is stored; reading a
/// missing account gives nothing and changes nothing.
pub proof fn law_reads_give_what_is_stored(
    uuid: u128,
    store: Store,
    now: Timestamp,
    debit: spec_fn(u32, u32) -> Option<u32>,
    credit: spec_fn(u32, u32) -> u32,
)
    ensures
        store.contains_key(uuid) ==> ideal_run(uuid, AccountOp::Get, store, now, debit, credit) == Some((
            store,
            Ok::<Reply, AccountError>(Reply::MaybePlayer(Some(store[uuid]))),
        )),
        !store.contains_key(uuid) ==> ideal_run(uuid, AccountOp::Get, store, now, debit, credit) == Some((
            store,
            Ok::<Reply, AccountError>(Reply::MaybePlayer(None)),
        )),
        store.contains_key(uuid) ==> ideal_run(uuid, AccountOp::IsFrozen, store, now, debit, credit) == Some((
            store,
            Ok::<Reply, AccountError>(Reply::FrozenStatus(store[uuid].frozen)),
        )),
        store.contains_key(uuid) ==> ideal_run(uuid, AccountOp::GetBalance, store, now, debit, credit) == Some((
            store,
            Ok::<Reply, AccountError>(Reply::Balance(store[uuid].balance_bits)),
        )),
{
    lemma_ideal_run(uuid, AccountOp::Get, store, now, debit, credit);
    lemma_ideal_run(uuid, AccountOp::IsFrozen, store, now, debit, credit);
    lemma_ideal_run(uuid, AccountOp::GetBalance, store, now, debit, credit);
}

/// Setting the balance of an existing account stores it with that balance
/// and the time of the update, all else kept; a missing account is not
/// created, and the operation fails with `PlayerNotFound`.
pub proof fn law_set_balance(
    uuid: u128,
    b: u32,
    store: Store,
    now: Timestamp,
    debit: spec_fn(u32, u32) -> Option<u32>,
    credit: spec_fn(u32, u32) -> u32,
)
    ensures
        store.contains_key(uuid) ==> ideal_run(uuid, AccountOp::SetBalance(b), store, now, debit, credit)
            == Some((
            store.insert(
                uuid,
                ConcelarePlayer { balance_bits: b, last_updated: now, ..store[uuid] },
            ),
            Ok::<Reply, AccountError>(Reply::Done),
        )),
        !store.contains_key(uuid) ==> ideal_run(uuid, AccountOp::SetBalance(b), store, now, debit, credit)
            == Some((store, Err::<Reply, AccountError>(AccountError::PlayerNotFound))),
{
    lemma_ideal_run(uuid, AccountOp::SetBalance(b), store, now, debit, credit);
}

/// Adding money to an account that is not frozen succeeds and leaves the
/// account with the balance that `credit` computes, updated at `now`, all
/// else kept.
pub proof fn law_add_money_credits(
    uuid: u128,
    amount_bits: u32,
    store: Store,
    now: Timestamp,
    debit: spec_fn(u32, u32) -> Option<u32>,
    credit: spec_fn(u32, u32) -> u32,
)
    requires
        records_under_own_id(store),
        !loaded(store, uuid, now).frozen,
    ensures
        ({
            let p = loaded(store, uuid, now);
            let s2 = store_after(uuid, AccountOp::AddMoney(amount_bits), store, now, debit, credit);
            &&& outcome_of(uuid, AccountOp::AddMoney(amount_bits), store, now, debit, credit)
                == Ok::<Reply, AccountError>(Reply::Done)
            &&& s2.contains_key(uuid)
            &&& s2[uuid] == (ConcelarePlayer {
                balance_bits: credit(p.balance_bits, amount_bits),
                last_updated: now,
                ..p
            })
        }),
{
    lemma_ideal_run(uuid, AccountOp::AddMoney(amount_bits), store, now, debit, credit);
    if store.contains_key(uuid) {
        assert(store[uuid].uuid == uuid);
    }
}

/// Freezing, unfreezing and removing money change nothing in the account
/// but what they are about (the flag, the balance) and the time of the
/// update.
pub proof fn law_updates_keep_the_rest(
    uuid: u128,
    amount_bits: u32,
    store: Store,
    now: Timestamp,
    debit: spec_fn(u32, u32) -> Option<u32>,
    credit: spec_fn(u32, u32) -> u32,
)
    requires
        records_under_own_id(store),
    ensures
        ({
            let p = loaded(store, uuid, now);
            &&& outcome_of(uuid, AccountOp::Freeze, store, now, debit, credit) is Ok
                ==> store_after(uuid, AccountOp::Freeze, store, now, debit, credit)[uuid]
                == (ConcelarePlayer { frozen: true, last_updated: now, ..p })
            &&& outcome_of(uuid, AccountOp::Unfreeze, store, now, debit, credit) is Ok
                ==> store_after(uuid, AccountOp::Unfreeze, store, now, debit, credit)[uuid]
                == (ConcelarePlayer { frozen: false, last_updated: now, ..p })
            &&& (outcome_of(uuid, AccountOp::Unfreeze, store, now, debit, credit) is Ok) == p.frozen
            &&& outcome_of(uuid, AccountOp::RemoveMoney(amount_bits), store, now, debit, credit) is Ok
                ==> store_after(uuid, AccountOp::RemoveMoney(amount_bits), store, now, debit, credit)[uuid]
                == (ConcelarePlayer {
                balance_bits: debit(p.balance_bits, amount_bits).unwrap(),
                last_updated: now,
                ..p
            })
            &&& (outcome_of(uuid, AccountOp::RemoveMoney(amount_bits), store, now, debit, credit) is Ok)
                == (!p.frozen && debit(p.balance_bits, amount_bits) is Some)
        }),
{
    lemma_ideal_run(uuid, AccountOp::Freeze, store, now, debit, credit);
    lemma_ideal_run(uuid, AccountOp::Unfreeze, store, now, debit, credit);
    lemma_ideal_run(uuid, AccountOp::RemoveMoney(amount_bits), store, now, debit, credit);
    if store.contains_key(uuid) {
        assert(store[uuid].uuid == uuid);
    }
}

/// An operation on one player's account, other than saving a given record,
/// leaves every other player's account as it was.
pub proof fn law_only_own_account_changes(
    uuid: u128,
    op: AccountOp,
    store: Store,
    now: Timestamp,
    debit: spec_fn(u32, u32) -> Option<u32>,
    credit: spec_fn(u32, u32) -> u32,
    k: u128,
)
    requires
        records_under_own_id(store),
        !(op is Save),
        k != uuid,
    ensures
        store_after(uuid, op, store, now, debit, credit).contains_key(k) == store.contains_key(k),
        store.contains_key(k) ==> store_after(uuid, op, store, now, debit, credit)[k] == store[k],
{
    lemma_ideal_run(uuid, op, store, now, debit, credit);
    if store.contains_key(uuid) {
        assert(store[uuid].uuid == uuid);
    }
}

/// How the store's failures are reported: a failed first read ends an
/// operation with `FrozenStatusUnavailable` for the frozen status, with
/// `BalanceUnavailable` for the balance, and with the store's own error
/// otherwise; a failed read after creating an account ends it with the
/// store's own error; a failed last write ends freezing and adding money with
/// `SaveFailed`, unfreezing and removing money with `SaveFailedWith` the
/// store's error, and every other operation with the store's own error. No
/// write is asked for after a failure.
pub proof fn law_store_failures(task: AccountTask, e: String, now: Timestamp, record: ConcelarePlayer)
    ensures
        task.phase is Loading ==> spec_step(task, StoreEvent::Loaded(Err(e)), now).1 == StoreAction::Finish(
            Err(
                if task.op is IsFrozen {
                    AccountError::FrozenStatusUnavailable
                } else if task.op is GetBalance {
                    AccountError::BalanceUnavailable
                } else {
                    AccountError::Store(e)
                },
            ),
        ),
        task.phase is Reloading ==> spec_step(task, StoreEvent::Loaded(Err(e)), now).1 == StoreAction::Finish(
            Err(AccountError::Store(e)),
        ),
        task.phase == Phase::Saving(record) ==> spec_step(task, StoreEvent::Written(Err(e)), now).1
            == StoreAction::Finish(
            Err(
                if task.op is Freeze || task.op is AddMoney {
                    AccountError::SaveFailed
                } else if task.op is Unfreeze || task.op is RemoveMoney {
                    AccountError::SaveFailedWith(e)
                } else {
                    AccountError::Store(e)
                },
            ),
        ),
{
}

/// The text of each error: the store's own message as it is, the fixed
/// texts of the account rules, and the store's message after
/// `Error saving player: ` when saving failed with it.
pub proof fn law_error_messages(m: String)
    ensures
        spec_error_message(AccountError::Store(m)) == m@,
        spec_error_message(AccountError::SaveFailedWith(m)) == "Error saving player: "@ + m@,
        spec_error_message(AccountError::PlayerNotFound) == "Player not found"@,
        spec_error_message(AccountError::AlreadyFrozen) == "Player is already frozen"@,
        spec_error_message(AccountError::NotFrozen) == "Player is not frozen"@,
        spec_error_message(AccountError::Frozen) == "Player is frozen"@,
        spec_error_message(AccountError::InsufficientFunds) == "Insufficient funds"@,
        spec_error_message(AccountError::FrozenStatusUnavailable) == "Error occurred getting player frozen status"@,
        spec_error_message(AccountError::BalanceUnavailable) == "Error occurred getting player balance"@,
        spec_error_message(AccountError::SaveFailed) == "Error occurred saving player"@,
{
}

} // verus!
