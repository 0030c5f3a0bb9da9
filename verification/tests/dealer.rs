use pot_game::dealer::{HIGHEST_POT, LOWEST_POT};
use pot_game::InputError;
use pot_game::{checked_move, start_game};

#[test]
fn zero_pot_count_is_turned_away() {
    assert_eq!(start_game(0), Err(InputError::ZeroPotCount));
}

#[test]
fn dealt_row_has_the_length_asked_for() {
    for count in [1u32, 2, 3, 10, 257] {
        let pots = start_game(count).unwrap();
        assert_eq!(pots.len(), count as usize);
    }
}

#[test]
fn dealt_pots_lie_between_one_and_nine() {
    assert_eq!(LOWEST_POT, 1);
    assert_eq!(HIGHEST_POT, 9);
    let pots = start_game(5000).unwrap();
    assert!(pots.iter().all(|pot| 1 <= *pot && *pot <= 9));
}

#[test]
fn dealt_pots_take_every_value() {
    let pots = start_game(5000).unwrap();
    for value in 1..=9u32 {
        let seen = pots.iter().filter(|pot| **pot == value).count();
        assert!(seen > 0, "pot {} never dealt", value);
        let share = seen as f64 / 5000.0;
        assert!((share - 1.0 / 9.0).abs() < 0.04, "share of {}: {}", value, share);
    }
}

#[test]
fn two_deals_differ() {
    let first = start_game(200).unwrap();
    let second = start_game(200).unwrap();
    assert_ne!(first, second);
}

#[test]
fn dealt_row_is_accepted_by_the_engine() {
    let pots = start_game(30).unwrap();
    for level in ["EASY", "MEDIUM", "HARD"] {
        let index = checked_move(&pots, level).unwrap();
        assert!(index == 0 || index == 29);
    }
}
