use vstd::prelude::*;

verus! {

/// How a pair of recorded moves settles.
#[derive(Clone, Copy, Debug, PartialEq, Eq, Structural)]
pub enum Outcome {
    CreatorWins,
    JoinerWins,
    NoWinner,
}

/// What a pair of recorded move codes settles to. A code of 0 means the role
/// never played: a sole player wins by the other's forfeit, and two absent
/// players settle with no winner. With both codes present the cyclic
/// dominance rule applies — Rock(1) beats Scissors(3), Scissors(3) beats
/// Paper(2), Paper(2) beats Rock(1) — and any pair it does not order (equal
/// codes, or codes outside the move alphabet) settles with no winner.
pub open spec fn outcome_of(creator_result: u8, joiner_result: u8) -> Outcome {
    if creator_result == 0 && joiner_result != 0 {
        Outcome::JoinerWins
    } else if creator_result != 0 && joiner_result == 0 {
        Outcome::CreatorWins
    } else if (creator_result == 1 && joiner_result == 3) || (creator_result == 3
        && joiner_result == 2) || (creator_result == 2 && joiner_result == 1) {
        Outcome::CreatorWins
    } else if (creator_result == 3 && joiner_result == 1) || (creator_result == 2
        && joiner_result == 3) || (creator_result == 1 && joiner_result == 2) {
        Outcome::JoinerWins
    } else {
        Outcome::NoWinner
    }
}

/// Winner determination: the single source of truth for win logic, total over
/// every pair of move codes.
pub fn outcome(creator_result: u8, joiner_result: u8) -> (r: Outcome)
    ensures
        r == outcome_of(creator_result, joiner_result),
{
    match (creator_result, joiner_result) {
        (0, 0) => Outcome::NoWinner,
        (0, _) => Outcome::JoinerWins,
        (_, 0) => Outcome::CreatorWins,
        (1, 3) | (3, 2) | (2, 1) => Outcome::CreatorWins,
        (3, 1) | (2, 3) | (1, 2) => Outcome::JoinerWins,
        _ => Outcome::NoWinner,
    }
}

/// Over the move alphabet the engine is antisymmetric: for distinct moves,
/// the creator wins the pair exactly when the joiner would win the swapped
/// pair, and a pair of equal moves never has a winner.
pub proof fn lemma_outcome_antisymmetric(a: u8, b: u8)
    requires
        1 <= a <= 3,
        1 <= b <= 3,
    ensures
        a != b ==> ((outcome_of(a, b) == Outcome::CreatorWins) <==> (outcome_of(b, a)
            == Outcome::JoinerWins)),
        a == b ==> outcome_of(a, b) == Outcome::NoWinner,
{
}

} // verus!
