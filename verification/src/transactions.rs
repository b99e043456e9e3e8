//! The transaction log: where it is kept, how its records are framed, and
//! the searches over the transactions it holds.
//!
//! The log is a text file with one transaction per line. The caller reads
//! and appends to the file and turns each record into a [`Transaction`].

use vstd::prelude::*;
use vstd::string::StringExecFns;

use crate::model::Transaction;
use crate::text::{non_blank, non_blank_lines, spec_lines, views};

verus! {

/// The transaction log kept in the file at a path.
#[derive(Clone, Debug)]
pub struct TransactionService {
    file_path: String,
}

impl View for TransactionService {
    type V = Seq<char>;

    /// The path of the log's file.
    closed spec fn view(&self) -> Seq<char> {
        self.file_path@
    }
}

/// Whether `t` was sent by `player`.
pub open spec fn sent_by(player: u128) -> spec_fn(Transaction) -> bool {
    |t: Transaction| t.sender == player
}

/// Whether `t` was received by `player`.
pub open spec fn received_by(player: u128) -> spec_fn(Transaction) -> bool {
    |t: Transaction| t.receiver == player
}

/// Whether `player` sent or received `t`.
pub open spec fn involves(player: u128) -> spec_fn(Transaction) -> bool {
    |t: Transaction| t.sender == player || t.receiver == player
}

/// The transactions of `s` for which `keep` holds, in their order.
fn select(s: &Vec<Transaction>, Ghost(keep): Ghost<spec_fn(Transaction) -> bool>, sender: Option<u128>, receiver: Option<u128>) -> (out: Vec<Transaction>)
    requires
        forall|t: Transaction| #[trigger] keep(t) == (
            (sender matches Some(p) && t.sender == p) || (receiver matches Some(p) && t.receiver == p)),
    ensures
        out@ == s@.filter(keep),
{
    let mut out: Vec<Transaction> = Vec::new();
    let mut i: usize = 0;
    proof {
        reveal(Seq::filter);
        assert(s@.take(0) =~= Seq::<Transaction>::empty());
    }
    while i < s.len()
        invariant
            i <= s@.len(),
            forall|t: Transaction| #[trigger] keep(t) == (
                (sender matches Some(p) && t.sender == p) || (receiver matches Some(p) && t.receiver == p)),
            out@ == s@.take(i as int).filter(keep),
        decreases s@.len() - i,
    {
        let t = s[i];
        let by_sender = match sender {
            Some(p) => t.sender == p,
            None => false,
        };
        let by_receiver = match receiver {
            Some(p) => t.receiver == p,
            None => false,
        };
        proof {
            assert(s@.take(i + 1) =~= s@.take(i as int).push(t));
            s@.take(i as int).lemma_filter_push(t, keep);
            assert(keep(t) == (by_sender || by_receiver));
        }
        if by_sender || by_receiver {
            out.push(t);
        }
        i = i + 1;
    }
    assert(s@.take(s@.len() as int) =~= s@);
    out
}

impl TransactionService {
    /// The log kept in the file at `file_path`.
    pub fn new(file_path: &str) -> (s: TransactionService)
        ensures
            s@ == file_path@,
    {
        TransactionService { file_path: String::from_str(file_path) }
    }

    /// The path of the log's file.
    pub fn file_path(&self) -> (p: &str)
        ensures
            p@ == self@,
    {
        self.file_path.as_str()
    }

    /// The records of the log whose text is `contents`: its lines as
    /// `BufRead::lines` reads them, blank lines left out.
    pub fn records(contents: &str) -> (out: Vec<String>)
        ensures
            views(out@) == non_blank(spec_lines(contents@)),
    {
        non_blank_lines(contents)
    }

    /// The first transaction with id `id`.
    pub fn search_by_id(transactions: &Vec<Transaction>, id: u128) -> (r: Option<Transaction>)
        ensures
            match r {
                Some(t) => exists|i: int|
                    0 <= i < transactions@.len() && transactions@[i] == t && t.id == id
                        && forall|j: int| 0 <= j < i ==> #[trigger] transactions@[j].id != id,
                None => forall|j: int| 0 <= j < transactions@.len() ==> #[trigger] transactions@[j].id != id,
            },
    {
        let mut i: usize = 0;
        while i < transactions.len()
            invariant
                i <= transactions@.len(),
                forall|j: int| 0 <= j < i ==> #[trigger] transactions@[j].id != id,
            decreases transactions@.len() - i,
        {
            if transactions[i].id == id {
                return Some(transactions[i]);
            }
            i = i + 1;
        }
        None
    }

    /// The transactions sent by `sender`, in log order.
    pub fn search_by_sender(transactions: &Vec<Transaction>, sender: u128) -> (r: Vec<Transaction>)
        ensures
            r@ == transactions@.filter(sent_by(sender)),
    {
        select(transactions, Ghost(sent_by(sender)), Some(sender), None)
    }

    /// The transactions received by `receiver`, in log order.
    pub fn search_by_receiver(transactions: &Vec<Transaction>, receiver: u128) -> (r: Vec<Transaction>)
        ensures
            r@ == transactions@.filter(received_by(receiver)),
    {
        select(transactions, Ghost(received_by(receiver)), None, Some(receiver))
    }

    /// The transactions that `player` sent or received, in log order.
    pub fn search_by_participant(transactions: &Vec<Transaction>, player: u128) -> (r: Vec<Transaction>)
        ensures
            r@ == transactions@.filter(involves(player)),
    {
        select(transactions, Ghost(involves(player)), Some(player), Some(player))
    }
}

} // verus!

verus! {

/// Each search gives exactly the transactions that match it: every result
/// was sent by, received by, or involves the player asked about, and every
/// transaction of the log that matches is among the results; a transaction
/// involves a player exactly when the player sent or received it.
pub proof fn law_searches_match(transactions: Seq<Transaction>, player: u128)
    ensures
        forall|i: int| 0 <= i < transactions.filter(sent_by(player)).len()
            ==> #[trigger] transactions.filter(sent_by(player))[i].sender == player,
        forall|i: int| 0 <= i < transactions.filter(received_by(player)).len()
            ==> #[trigger] transactions.filter(received_by(player))[i].receiver == player,
        forall|i: int| 0 <= i < transactions.filter(involves(player)).len()
            ==> (#[trigger] transactions.filter(involves(player))[i]).sender == player
                || transactions.filter(involves(player))[i].receiver == player,
        forall|i: int| 0 <= i < transactions.len() && #[trigger] transactions[i].sender == player
            ==> transactions.filter(sent_by(player)).contains(transactions[i])
                && transactions.filter(involves(player)).contains(transactions[i]),
        forall|i: int| 0 <= i < transactions.len() && #[trigger] transactions[i].receiver == player
            ==> transactions.filter(received_by(player)).contains(transactions[i])
                && transactions.filter(involves(player)).contains(transactions[i]),
{
    broadcast use Seq::lemma_filter_pred, Seq::lemma_filter_contains;
    assert forall|i: int| 0 <= i < transactions.filter(sent_by(player)).len()
        implies #[trigger] transactions.filter(sent_by(player))[i].sender == player by {
        transactions.lemma_filter_pred(sent_by(player), i);
    }
    assert forall|i: int| 0 <= i < transactions.filter(received_by(player)).len()
        implies #[trigger] transactions.filter(received_by(player))[i].receiver == player by {
        transactions.lemma_filter_pred(received_by(player), i);
    }
    assert forall|i: int| 0 <= i < transactions.filter(involves(player)).len()
        implies (#[trigger] transactions.filter(involves(player))[i]).sender == player
            || transactions.filter(involves(player))[i].receiver == player by {
        transactions.lemma_filter_pred(involves(player), i);
    }
    assert forall|i: int| 0 <= i < transactions.len() && #[trigger] transactions[i].sender == player
        implies transactions.filter(sent_by(player)).contains(transactions[i])
            && transactions.filter(involves(player)).contains(transactions[i]) by {
        transactions.lemma_filter_contains(sent_by(player), i);
        transactions.lemma_filter_contains(involves(player), i);
    }
    assert forall|i: int| 0 <= i < transactions.len() && #[trigger] transactions[i].receiver == player
        implies transactions.filter(received_by(player)).contains(transactions[i])
            && transactions.filter(involves(player)).contains(transactions[i]) by {
        transactions.lemma_filter_contains(received_by(player), i);
        transactions.lemma_filter_contains(involves(player), i);
    }
}

} // verus!
