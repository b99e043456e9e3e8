use concelare_economy::keys::{parse_player_id, player_key};
use concelare_economy::money::format_amount;

#[test]
fn player_key_is_hyphenated_lowercase() {
    let id = 0xa1a2a3a4b1b2c1c2d1d2d3d4d5d6d7d8u128;
    assert_eq!(player_key(id), "a1a2a3a4-b1b2-c1c2-d1d2-d3d4d5d6d7d8");
    assert_eq!(player_key(0), "00000000-0000-0000-0000-000000000000");
    assert_eq!(player_key(u128::MAX), "ffffffff-ffff-ffff-ffff-ffffffffffff");
}

#[test]
fn parse_reads_back_the_key() {
    let id = 0x550e8400e29b41d4a716446655440000u128;
    assert_eq!(parse_player_id(&player_key(id)), Some(id));
    assert_eq!(parse_player_id("550e8400-e29b-41d4-a716-446655440000"), Some(id));
    assert_eq!(parse_player_id("550E8400E29B41D4A716446655440000"), Some(id));
}

#[test]
fn parse_rejects_non_ids() {
    assert_eq!(parse_player_id(""), None);
    assert_eq!(parse_player_id("Steve"), None);
    assert_eq!(parse_player_id("550e8400-e29b-41d4-a716-44665544000g"), None);
}

#[test]
fn format_amount_small_values() {
    assert_eq!(format_amount(false, 0, 0), "0.00");
    assert_eq!(format_amount(false, 5, 7), "5.07");
    assert_eq!(format_amount(false, 999, 99), "999.99");
    assert_eq!(format_amount(false, 12, 50), "12.50");
}

#[test]
fn format_amount_groups_thousands() {
    assert_eq!(format_amount(false, 1000, 0), "1,000.00");
    assert_eq!(format_amount(false, 1234567, 89), "1,234,567.89");
    assert_eq!(format_amount(false, 100000, 1), "100,000.01");
    assert_eq!(format_amount(false, 1000000, 10), "1,000,000.10");
}

#[test]
fn format_amount_negative() {
    assert_eq!(format_amount(true, 0, 0), "-0.00");
    assert_eq!(format_amount(true, 2500, 25), "-2,500.25");
}

#[test]
fn format_amount_largest() {
    assert_eq!(format_amount(false, u64::MAX, 99), "18,446,744,073,709,551,615.99");
    assert_eq!(format_amount(false, i64::MAX as u64, 0), "9,223,372,036,854,775,807.00");
}
