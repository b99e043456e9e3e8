use concelare_economy::text::{contains_text, is_blank_line, lines, non_blank_lines};
use concelare_economy::{Timestamp, Transaction, TransactionService};

fn tx(id: u128, sender: u128, receiver: u128) -> Transaction {
    Transaction {
        id,
        sender,
        receiver,
        amount_bits: 1.5f32.to_bits(),
        timestamp: Timestamp { secs: 1_700_000_000, nanos: 5 },
    }
}

#[test]
fn lines_split_like_bufread() {
    assert_eq!(lines("a\r\nb\n\n c \r"), vec!["a", "b", "", " c \r"]);
    assert_eq!(lines("x\n"), vec!["x"]);
    assert_eq!(lines(""), Vec::<String>::new());
    assert_eq!(lines("\n"), vec![""]);
    assert_eq!(lines("one\ntwo"), vec!["one", "two"]);
    assert_eq!(lines("\r\n\r\n"), vec!["", ""]);
}

#[test]
fn blank_lines_are_white_space_only() {
    assert!(is_blank_line(""));
    assert!(is_blank_line(" \t\r"));
    assert!(is_blank_line("\u{a0}\u{3000}\u{2028}"));
    assert!(!is_blank_line(" x "));
    assert!(!is_blank_line("\u{200b}"));
}

#[test]
fn records_skip_blank_lines() {
    let text = "{\"a\":1}\n\n   \n{\"b\":2}\r\n \t\n";
    assert_eq!(non_blank_lines(text), vec!["{\"a\":1}", "{\"b\":2}"]);
    assert_eq!(TransactionService::records(text), vec!["{\"a\":1}", "{\"b\":2}"]);
}

#[test]
fn contains_text_finds_parts() {
    assert!(contains_text("Insufficient funds", "Insufficient funds"));
    assert!(contains_text("Error: Insufficient funds!", "Insufficient funds"));
    assert!(!contains_text("Player is frozen", "Insufficient funds"));
    assert!(contains_text("abc", ""));
    assert!(!contains_text("", "a"));
}

#[test]
fn service_keeps_its_path() {
    let s = TransactionService::new("/data/economy.log");
    assert_eq!(s.file_path(), "/data/economy.log");
}

#[test]
fn search_by_id_gives_first_match() {
    let mut a = tx(7, 1, 2);
    a.amount_bits = 2.0f32.to_bits();
    let b = tx(7, 3, 4);
    let log = vec![tx(1, 1, 2), a, b];
    assert_eq!(TransactionService::search_by_id(&log, 7), Some(a));
    assert_eq!(TransactionService::search_by_id(&log, 9), None);
    assert_eq!(TransactionService::search_by_id(&Vec::new(), 7), None);
}

#[test]
fn searches_filter_in_order() {
    let log = vec![tx(1, 10, 20), tx(2, 20, 10), tx(3, 30, 40), tx(4, 10, 30)];
    let ids = |v: Vec<Transaction>| v.iter().map(|t| t.id).collect::<Vec<_>>();
    assert_eq!(ids(TransactionService::search_by_sender(&log, 10)), vec![1, 4]);
    assert_eq!(ids(TransactionService::search_by_receiver(&log, 10)), vec![2]);
    assert_eq!(ids(TransactionService::search_by_participant(&log, 10)), vec![1, 2, 4]);
    assert_eq!(ids(TransactionService::search_by_participant(&log, 30)), vec![3, 4]);
    assert_eq!(ids(TransactionService::search_by_sender(&log, 99)), Vec::<u128>::new());
}
