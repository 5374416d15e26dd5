use rps_game::outcome::outcome;
use rps_game::outcome::Outcome;

#[test]
fn outcome_antisymmetric_on_move_alphabet() {
    for a in 1u8..=3 {
        for b in 1u8..=3 {
            if a == b {
                assert_eq!(outcome(a, b), Outcome::NoWinner);
            } else {
                assert_eq!(
                    outcome(a, b) == Outcome::CreatorWins,
                    outcome(b, a) == Outcome::JoinerWins
                );
                assert_eq!(
                    outcome(a, b) == Outcome::JoinerWins,
                    outcome(b, a) == Outcome::CreatorWins
                );
            }
        }
    }
}

#[test]
fn outcome_dominance_pairs() {
    // Rock(1) beats Scissors(3), Scissors(3) beats Paper(2), Paper(2) beats Rock(1).
    assert_eq!(outcome(1, 3), Outcome::CreatorWins);
    assert_eq!(outcome(3, 2), Outcome::CreatorWins);
    assert_eq!(outcome(2, 1), Outcome::CreatorWins);
    assert_eq!(outcome(3, 1), Outcome::JoinerWins);
    assert_eq!(outcome(2, 3), Outcome::JoinerWins);
    assert_eq!(outcome(1, 2), Outcome::JoinerWins);
    assert_eq!(outcome(1, 1), Outcome::NoWinner);
    assert_eq!(outcome(2, 2), Outcome::NoWinner);
    assert_eq!(outcome(3, 3), Outcome::NoWinner);
}

#[test]
fn outcome_forfeit_and_absent_pairs() {
    assert_eq!(outcome(0, 0), Outcome::NoWinner);
    assert_eq!(outcome(1, 0), Outcome::CreatorWins);
    assert_eq!(outcome(0, 2), Outcome::JoinerWins);
    assert_eq!(outcome(0, 200), Outcome::JoinerWins);
    assert_eq!(outcome(7, 0), Outcome::CreatorWins);
}

#[test]
fn outcome_codes_outside_alphabet_tie() {
    assert_eq!(outcome(5, 7), Outcome::NoWinner);
    assert_eq!(outcome(1, 5), Outcome::NoWinner);
    assert_eq!(outcome(4, 2), Outcome::NoWinner);
}
