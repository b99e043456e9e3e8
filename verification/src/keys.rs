//! Player ids as text: the key under which the store keeps a player's
//! record, and reading an id that a player or a command hands over.

use vstd::prelude::*;
use vstd::arithmetic::power2::pow2;

verus! {

/// The lowercase hexadecimal digit for `v` (below 16).
pub open spec fn hex_char(v: nat) -> char {
    if v < 10 {
        (48 + v) as char
    } else {
        (87 + v) as char
    }
}

/// The `k`-th hexadecimal digit of `id`, counted from the most significant.
pub open spec fn nibble(id: u128, k: int) -> nat {
    ((id as nat) / pow2((4 * (31 - k)) as nat)) % 16
}

/// The 32 lowercase hexadecimal digits of `id`, most significant first.
pub open spec fn hex_digits(id: u128) -> Seq<char> {
    Seq::new(32, |k: int| hex_char(nibble(id, k)))
}

/// The hyphenated form of an id: its 32 hexadecimal digits in groups of
/// 8, 4, 4, 4 and 12, joined by `-`.
pub open spec fn spec_hyphenated(id: u128) -> Seq<char> {
    let h = hex_digits(id);
    h.subrange(0, 8) + seq!['-'] + h.subrange(8, 12) + seq!['-'] + h.subrange(12, 16) + seq!['-']
        + h.subrange(16, 20) + seq!['-'] + h.subrange(20, 32)
}

/// What `uuid::Uuid::parse_str` makes of a text: the id's 128 bits, or
/// `None` where the text is no id.
pub uninterp spec fn uuid_parse(text: Seq<char>) -> Option<u128>;

/// `uuid::Uuid::from_u128(id).to_string()`. The crate writes an id in its
/// hyphenated lowercase form (its `Display` goes to `LowerHex`, which writes
/// the 16 big-endian bytes as hexadecimal digits with hyphens after the 4th,
/// 6th, 8th and 10th byte); the contract states that form.
#[verifier::external_body]
fn uuid_to_string(id: u128) -> (s: String)
    ensures
        s@ == spec_hyphenated(id),
{
    uuid::Uuid::from_u128(id).to_string()
}

/// `uuid::Uuid::parse_str(text)`, as the id's bits. The crate accepts the
/// simple, hyphenated, braced and URN forms in either case; the contract
/// names the result and states only that the hyphenated lowercase form of an
/// id is read back as that id. What else it accepts is left unsaid.
#[verifier::external_body]
fn uuid_from_text(text: &str) -> (r: Option<u128>)
    ensures
        r == uuid_parse(text@),
        forall|id: u128| text@ == spec_hyphenated(id) ==> r == Some(id),
{
    match uuid::Uuid::parse_str(text) {
        Ok(id) => Some(id.as_u128()),
        Err(_) => None,
    }
}

/// The key under which the player store keeps the record of player `id`:
/// the id's hyphenated form.
pub fn player_key(id: u128) -> (key: String)
    ensures
        key@ == spec_hyphenated(id),
{
    uuid_to_string(id)
}

/// Reads a player id from its text, as the commands and the store do.
pub fn parse_player_id(text: &str) -> (r: Option<u128>)
    ensures
        r == uuid_parse(text@),
        forall|id: u128| text@ == spec_hyphenated(id) ==> r == Some(id),
{
    uuid_from_text(text)
}

} // verus!
