use vstd::prelude::*;

verus! {

/// A point in time as seconds since the Unix epoch and the nanoseconds
/// within that second (UTC).
#[derive(Clone, Copy, Debug, PartialEq, Eq, Structural)]
pub struct Timestamp {
    pub secs: i64,
    pub nanos: u32,
}

/// A player's account record, as the player store keeps it.
///
/// The balance is an `f32` held by its IEEE-754 bit pattern: the library
/// carries it through and never computes with it.
#[derive(Clone, Copy, Debug, PartialEq, Eq, Structural)]
pub struct ConcelarePlayer {
    pub uuid: u128,
    pub balance_bits: u32,
    pub created_at: Timestamp,
    pub last_updated: Timestamp,
    pub last_seen: Timestamp,
    pub frozen: bool,
}

/// A payment from one player to another, as the transaction log records it.
///
/// The amount is an `f32` held by its IEEE-754 bit pattern.
#[derive(Clone, Copy, Debug, PartialEq, Eq, Structural)]
pub struct Transaction {
    pub id: u128,
    pub sender: u128,
    pub receiver: u128,
    pub amount_bits: u32,
    pub timestamp: Timestamp,
}

/// The bit pattern of the `f32` value `0.0`.
pub const ZERO_BALANCE_BITS: u32 = 0;

/// The record of a player that has just been created at `now`.
pub open spec fn spec_fresh_player(uuid: u128, now: Timestamp) -> ConcelarePlayer {
    ConcelarePlayer {
        uuid,
        balance_bits: ZERO_BALANCE_BITS,
        created_at: now,
        last_updated: now,
        last_seen: now,
        frozen: false,
    }
}

/// A record as it is saved at `now`: the same record with `last_updated` set.
pub open spec fn spec_stamped(player: ConcelarePlayer, now: Timestamp) -> ConcelarePlayer {
    ConcelarePlayer { last_updated: now, ..player }
}

impl ConcelarePlayer {
    /// A new account: zero balance, not frozen, every time field `now`.
    pub fn fresh(uuid: u128, now: Timestamp) -> (p: ConcelarePlayer)
        ensures
            p == spec_fresh_player(uuid, now),
    {
        ConcelarePlayer {
            uuid,
            balance_bits: ZERO_BALANCE_BITS,
            created_at: now,
            last_updated: now,
            last_seen: now,
            frozen: false,
        }
    }

    /// The record as saving it at `now` writes it.
    pub fn stamped(&self, now: Timestamp) -> (p: ConcelarePlayer)
        ensures
            p == spec_stamped(*self, now),
    {
        ConcelarePlayer { last_updated: now, ..*self }
    }
}

} // verus!
