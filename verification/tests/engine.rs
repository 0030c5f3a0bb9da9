use pot_game::InputError;
use pot_game::{best_ends, checked_move, optimal_move, row_total, select_move, Level};

/// The value of the sub-row `pots[left..right]` to the mover, by plain
/// recursion over both moves.
fn naive_value(pots: &[u32], left: usize, right: usize) -> u64 {
    if left >= right {
        return 0;
    }
    let whole: u64 = pots[left..right].iter().map(|p| u64::from(*p)).sum();
    let after_left = whole - naive_value(pots, left + 1, right);
    let after_right = whole - naive_value(pots, left, right - 1);
    after_left.max(after_right)
}

/// The better end of `pots` by plain recursion, the left end on a tie.
fn naive_good_end(pots: &[u32]) -> usize {
    let n = pots.len();
    if naive_value(pots, 1, n) <= naive_value(pots, 0, n - 1) {
        0
    } else {
        n - 1
    }
}

/// A fixed scramble of `seed` into a row of `len` pots below `bound`.
fn scrambled_row(seed: u64, len: usize, bound: u32) -> Vec<u32> {
    let mut state = seed.wrapping_mul(6364136223846793005).wrapping_add(1442695040888963407);
    let mut row = Vec::new();
    for _ in 0..len {
        state = state.wrapping_mul(6364136223846793005).wrapping_add(1442695040888963407);
        row.push(((state >> 33) as u32) % bound);
    }
    row
}

#[test]
fn one_nine_one_hard_takes_left() {
    assert_eq!(optimal_move(&[1, 9, 1], "HARD"), 0);
}

#[test]
fn one_nine_one_easy_takes_right() {
    assert_eq!(optimal_move(&[1, 9, 1], "EASY"), 2);
}

#[test]
fn one_nine_one_ends() {
    assert_eq!(best_ends(&[1, 9, 1]), (0, 2));
}

#[test]
fn tie_favours_left() {
    assert_eq!(optimal_move(&[5, 5], "HARD"), 0);
    assert_eq!(optimal_move(&[5, 5], "EASY"), 1);
    assert_eq!(optimal_move(&[1, 100, 2], "HARD"), 0);
}

#[test]
fn hard_takes_the_larger_of_two() {
    assert_eq!(optimal_move(&[1, 2], "HARD"), 1);
    assert_eq!(optimal_move(&[2, 1], "HARD"), 0);
    assert_eq!(optimal_move(&[1, 2], "EASY"), 0);
    assert_eq!(optimal_move(&[2, 1], "EASY"), 1);
}

#[test]
fn hard_on_known_rows() {
    assert_eq!(optimal_move(&[3, 1, 5, 2], "HARD"), 0);
    assert_eq!(optimal_move(&[8, 15, 3, 7], "HARD"), 3);
    assert_eq!(optimal_move(&[5, 3, 7, 10], "HARD"), 3);
    assert_eq!(optimal_move(&[6, 2, 9, 4, 1], "HARD"), 0);
    assert_eq!(optimal_move(&[20, 30, 2, 2, 2, 10], "HARD"), 5);
}

#[test]
fn result_is_always_an_end() {
    for seed in 0..40u64 {
        let len = 1 + (seed as usize % 9);
        let row = scrambled_row(seed, len, 50);
        for level in ["EASY", "MEDIUM", "HARD", "anything"] {
            let index = optimal_move(&row, level);
            assert!(index == 0 || index == len - 1, "row {:?} level {}", row, level);
        }
    }
}

#[test]
fn single_pot_gives_zero_at_every_level() {
    for level in ["EASY", "MEDIUM", "HARD", "", "hard"] {
        assert_eq!(optimal_move(&[7], level), 0);
        assert_eq!(optimal_move(&[0], level), 0);
    }
    for level in [Level::Easy, Level::Medium, Level::Hard] {
        assert_eq!(select_move(&[7], level, true), 0);
        assert_eq!(select_move(&[7], level, false), 0);
    }
    assert_eq!(best_ends(&[7]), (0, 0));
}

#[test]
fn hard_repeats_its_answer() {
    let row = [8, 15, 3, 7, 2, 9];
    let first = optimal_move(&row, "HARD");
    for _ in 0..50 {
        assert_eq!(optimal_move(&row, "HARD"), first);
    }
}

#[test]
fn unknown_level_plays_as_hard() {
    let row = [8, 15, 3, 7];
    for level in ["", "hard", "easy", "Medium", "EASY ", "IMPOSSIBLE", "MEDIUMS", "EAS"] {
        for _ in 0..10 {
            assert_eq!(optimal_move(&row, level), 3);
        }
    }
}

#[test]
fn easy_is_the_other_end_of_hard() {
    for seed in 100..140u64 {
        let len = 1 + (seed as usize % 8);
        let row = scrambled_row(seed, len, 30);
        let hard = optimal_move(&row, "HARD");
        let easy = optimal_move(&row, "EASY");
        assert_eq!(easy, len - 1 - hard, "row {:?}", row);
        assert_eq!(optimal_move(&row, "EASY"), easy);
    }
}

#[test]
fn medium_takes_both_ends_about_equally() {
    let row = [8, 15, 3, 7];
    let runs = 2000;
    let mut left = 0;
    let mut right = 0;
    for _ in 0..runs {
        match optimal_move(&row, "MEDIUM") {
            0 => left += 1,
            3 => right += 1,
            other => panic!("interior index {}", other),
        }
    }
    assert_eq!(left + right, runs);
    assert!(left > 0 && right > 0);
    let share = f64::from(right) / f64::from(runs);
    assert!((share - 0.5).abs() < 0.1, "share of the better end: {}", share);
}

#[test]
fn medium_follows_the_coin() {
    let row = [8, 15, 3, 7];
    assert_eq!(select_move(&row, Level::Medium, true), 3);
    assert_eq!(select_move(&row, Level::Medium, false), 0);
    assert_eq!(select_move(&row, Level::Hard, true), 3);
    assert_eq!(select_move(&row, Level::Hard, false), 3);
    assert_eq!(select_move(&row, Level::Easy, true), 0);
    assert_eq!(select_move(&row, Level::Easy, false), 0);
}

#[test]
fn reversed_row_flips_the_move() {
    for row in [vec![3, 1, 5, 2], vec![8, 15, 3, 7], vec![1, 2], vec![6, 2, 9, 4, 1], vec![4]] {
        let n = row.len();
        let mut back = row.clone();
        back.reverse();
        for level in ["HARD", "EASY"] {
            assert_eq!(optimal_move(&back, level), n - 1 - optimal_move(&row, level));
        }
    }
}

#[test]
fn reversed_tied_row_keeps_the_move() {
    assert_eq!(optimal_move(&[2, 100, 1], "HARD"), 0);
    assert_eq!(optimal_move(&[1, 100, 2], "HARD"), 0);
    assert_eq!(optimal_move(&[2, 100, 1], "EASY"), 2);
    assert_eq!(optimal_move(&[1, 100, 2], "EASY"), 2);
}

#[test]
fn engine_agrees_with_plain_recursion() {
    for seed in 200..260u64 {
        let len = 1 + (seed as usize % 10);
        let row = scrambled_row(seed, len, 1000);
        let good = naive_good_end(&row);
        assert_eq!(best_ends(&row), (good, len - 1 - good), "row {:?}", row);
    }
}

#[test]
fn zero_pots_are_allowed_in_a_row() {
    assert_eq!(optimal_move(&[0, 0, 0], "HARD"), 0);
    assert_eq!(optimal_move(&[0, 0, 5], "HARD"), 2);
}

#[test]
fn row_total_adds_up() {
    assert_eq!(row_total(&[]), Some(0));
    assert_eq!(row_total(&[1, 9, 1]), Some(11));
    assert_eq!(row_total(&[u32::MAX]), Some(u32::MAX));
    assert_eq!(row_total(&[u32::MAX - 1, 1]), Some(u32::MAX));
}

#[test]
fn row_total_finds_overflow() {
    assert_eq!(row_total(&[u32::MAX, 1]), None);
    assert_eq!(row_total(&[1, u32::MAX, 0]), None);
    assert_eq!(row_total(&[1 << 31, 1 << 31]), None);
}

#[test]
fn checked_move_turns_away_empty_row() {
    for level in ["EASY", "MEDIUM", "HARD", "x"] {
        assert_eq!(checked_move(&[], level), Err(InputError::EmptyRow));
    }
}

#[test]
fn checked_move_turns_away_overflow() {
    assert_eq!(checked_move(&[u32::MAX, 1], "HARD"), Err(InputError::TotalOverflow));
    assert_eq!(checked_move(&[1 << 31, 5, 1 << 31], "EASY"), Err(InputError::TotalOverflow));
}

#[test]
fn checked_move_plays_on_good_input() {
    assert_eq!(checked_move(&[1, 9, 1], "HARD"), Ok(0));
    assert_eq!(checked_move(&[1, 9, 1], "EASY"), Ok(2));
    assert_eq!(checked_move(&[u32::MAX - 1, 1], "HARD"), Ok(0));
    assert_eq!(checked_move(&[9], "MEDIUM"), Ok(0));
    let medium = checked_move(&[1, 9, 1], "MEDIUM");
    assert!(medium == Ok(0) || medium == Ok(2));
}

#[test]
fn largest_total_is_played_without_overflow() {
    assert_eq!(optimal_move(&[u32::MAX - 3, 1, 1, 1], "HARD"), 0);
    assert_eq!(optimal_move(&[1, 1, 1, u32::MAX - 3], "HARD"), 3);
}

#[test]
fn each_error_has_its_message() {
    assert_eq!(InputError::EmptyRow.message(), "the row of pots is empty");
    assert_eq!(
        InputError::TotalOverflow.message(),
        "the pots add up to more than the engine can count"
    );
    assert_eq!(InputError::ZeroPotCount.message(), "a game needs at least one pot");
}
