use dom5_save_scummer::error::Error;
use dom5_save_scummer::turn::{
    get_turn_number, has_turn_extension, turn_number_from_bytes, TurnCandidate,
};

fn control_file_with_turn(turn: u8) -> Vec<u8> {
    let mut bytes = vec![0u8; 15];
    bytes[14] = turn;
    bytes
}

#[test]
fn every_byte_value_is_a_valid_turn_number() {
    for turn in 0..=255u8 {
        let bytes = control_file_with_turn(turn);
        assert_eq!(turn_number_from_bytes(&bytes), Some(turn));
        assert_eq!(get_turn_number(&Some(bytes), &Vec::new()), Ok(turn));
    }
}

#[test]
fn file_too_short_yields_no_turn_number() {
    assert_eq!(turn_number_from_bytes(&vec![1u8; 14]), None);
    assert_eq!(turn_number_from_bytes(&Vec::new()), None);
}

#[test]
fn byte_beyond_offset_is_ignored() {
    let mut bytes = vec![9u8; 32];
    bytes[14] = 3;
    assert_eq!(turn_number_from_bytes(&bytes), Some(3));
}

#[test]
fn trn_extension_is_recognized() {
    assert!(has_turn_extension("early_game.trn"));
    assert!(has_turn_extension("a.b.trn"));
}

#[test]
fn second_hand_extension_is_recognized() {
    assert!(has_turn_extension("orders.2h"));
}

#[test]
fn other_names_are_not_turn_files() {
    assert!(!has_turn_extension("ftherlnd"));
    assert!(!has_turn_extension("notes.txt"));
    assert!(!has_turn_extension("trn"));
    assert!(!has_turn_extension(".trn"));
    assert!(!has_turn_extension("game.TRN"));
    assert!(!has_turn_extension("game."));
    assert!(!has_turn_extension(""));
}

#[test]
fn control_file_wins_over_candidates() {
    let candidates = vec![TurnCandidate {
        name: String::from("other.trn"),
        bytes: Some(control_file_with_turn(9)),
    }];
    let control = Some(control_file_with_turn(4));
    assert_eq!(get_turn_number(&control, &candidates), Ok(4));
}

#[test]
fn short_control_file_falls_back_to_candidates() {
    let candidates = vec![TurnCandidate {
        name: String::from("other.trn"),
        bytes: Some(control_file_with_turn(9)),
    }];
    let control = Some(vec![0u8; 10]);
    assert_eq!(get_turn_number(&control, &candidates), Ok(9));
}

#[test]
fn first_readable_turn_file_wins() {
    let candidates = vec![
        TurnCandidate { name: String::from("readme"), bytes: Some(control_file_with_turn(1)) },
        TurnCandidate { name: String::from("locked.trn"), bytes: None },
        TurnCandidate { name: String::from("a.2h"), bytes: Some(control_file_with_turn(5)) },
        TurnCandidate { name: String::from("b.trn"), bytes: Some(control_file_with_turn(8)) },
    ];
    assert_eq!(get_turn_number(&None, &candidates), Ok(5));
}

#[test]
fn short_candidate_is_skipped() {
    let candidates = vec![
        TurnCandidate { name: String::from("a.trn"), bytes: Some(vec![0u8; 5]) },
        TurnCandidate { name: String::from("b.trn"), bytes: Some(control_file_with_turn(2)) },
    ];
    assert_eq!(get_turn_number(&None, &candidates), Ok(2));
}

#[test]
fn no_turn_source_reports_unavailable() {
    assert_eq!(get_turn_number(&None, &Vec::new()), Err(Error::TurnNumberUnavailable));
    let candidates = vec![
        TurnCandidate { name: String::from("notes.txt"), bytes: Some(control_file_with_turn(3)) },
        TurnCandidate { name: String::from("locked.trn"), bytes: None },
    ];
    assert_eq!(get_turn_number(&None, &candidates), Err(Error::TurnNumberUnavailable));
}
