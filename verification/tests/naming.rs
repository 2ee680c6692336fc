use dom5_save_scummer::error::Error;
use dom5_save_scummer::namer::{compose, decompose};

#[test]
fn compose_plain_name() {
    assert_eq!(compose("mygame", 7), "mygame-7");
}

#[test]
fn compose_hyphenated_name_small_turn() {
    assert_eq!(compose("Empire-of-Man", 3), "Empire-of-Man-3");
}

#[test]
fn compose_turn_zero() {
    assert_eq!(compose("game", 0), "game-0");
}

#[test]
fn compose_two_digit_turn() {
    assert_eq!(compose("game", 42), "game-42");
}

#[test]
fn compose_three_digit_turn() {
    assert_eq!(compose("game", 255), "game-255");
}

#[test]
fn decompose_hyphenated_name() {
    let (name, turn) = decompose("Empire-of-Man-3").unwrap();
    assert_eq!(name, "Empire-of-Man");
    assert_eq!(turn, "3");
}

#[test]
fn decompose_plain_name() {
    let (name, turn) = decompose("mygame-12").unwrap();
    assert_eq!(name, "mygame");
    assert_eq!(turn, "12");
}

#[test]
fn decompose_splits_at_rightmost_hyphen() {
    let (name, turn) = decompose("a-b-7").unwrap();
    assert_eq!(name, "a-b");
    assert_eq!(turn, "7");
}

#[test]
fn decompose_without_hyphen_fails() {
    assert_eq!(decompose("nohyphen").unwrap_err(), Error::ArchiveNameInvalid);
}

#[test]
fn decompose_empty_name_fails() {
    assert_eq!(decompose("").unwrap_err(), Error::ArchiveNameInvalid);
}

#[test]
fn round_trip_for_every_turn_value() {
    for turn in 0..=255u8 {
        let composed = compose("Empire-of-Man", turn);
        let (name, marker) = decompose(&composed).unwrap();
        assert_eq!(name, "Empire-of-Man");
        assert_eq!(marker, turn.to_string());
    }
}

#[test]
fn round_trip_name_ending_in_hyphen() {
    let composed = compose("odd-", 5);
    assert_eq!(composed, "odd--5");
    let (name, marker) = decompose(&composed).unwrap();
    assert_eq!(name, "odd-");
    assert_eq!(marker, "5");
}
