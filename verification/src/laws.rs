use vstd::prelude::*;

use crate::errors::RPSGame;
use crate::instructions::claim_amount;
use crate::instructions::claim_error;
use crate::instructions::claimed_round;
use crate::instructions::fee_cut;
use crate::instructions::payout_cut;
use crate::instructions::play_error;
use crate::instructions::window_expired;
use crate::state::FEE_DENOM;
use crate::state::GlobalState;
use crate::state::PLAY_WINDOW;
use crate::state::RoundState;

verus! {

/// Splitting an amount loses nothing to either side beyond rounding: both
/// cuts are non-negative and together never exceed the amount they divide.
pub proof fn lemma_split_within_amount(amount: int, fee: int)
    requires
        0 <= amount,
        0 <= fee <= FEE_DENOM,
    ensures
        0 <= fee_cut(amount, fee),
        0 <= payout_cut(amount, fee),
        payout_cut(amount, fee) + fee_cut(amount, fee) <= amount,
{
    assert(0 <= amount * fee / 1000 && 0 <= amount * (1000 - fee) / 1000 && amount * (1000 - fee)
        / 1000 + amount * fee / 1000 <= amount) by (nonlinear_arith)
        requires
            0 <= amount,
            0 <= fee <= 1000,
    {}
}

/// Fund conservation: over both roles' claims on one round, payouts and fees
/// together never exceed the pooled stake of `2 * deposit_amount`. It asks
/// for distinct parties — what `join_round` guarantees of every joined
/// round — because one identity holding both roles could collect a won pool
/// twice.
pub proof fn lemma_fund_conservation(round: RoundState, fee: u64)
    requires
        round.wf(),
        fee <= FEE_DENOM,
        round.creator != round.joiner,
    ensures
        payout_cut(claim_amount(round, round.creator), fee as int) + fee_cut(
            claim_amount(round, round.creator),
            fee as int,
        ) + payout_cut(claim_amount(round, round.joiner), fee as int) + fee_cut(
            claim_amount(round, round.joiner),
            fee as int,
        ) <= 2 * round.deposit_amount,
{
    lemma_split_within_amount(claim_amount(round, round.creator), fee as int);
    lemma_split_within_amount(claim_amount(round, round.joiner), fee as int);
}

/// Each role claims at most once: after a claim by a role goes through, a
/// second claim by the same role on the settled round fails with
/// `InvalidClaim`, whatever time it is attempted at.
pub proof fn lemma_second_claim_fails(
    gs: GlobalState,
    round: RoundState,
    user: u64,
    round_index: u32,
    is_creator: bool,
    now: i64,
    later: i64,
)
    requires
        claim_error(gs, round, user, round_index, is_creator, now) is None,
    ensures
        claim_error(gs, claimed_round(round, is_creator), user, round_index, is_creator, later)
            == Some(RPSGame::InvalidClaim),
{
}

/// Once the play window has elapsed, it stays elapsed under the host's
/// monotone clock, so no move can be recorded any more — whoever tries, in
/// whichever role: the recorded results a timeout claim settles on are
/// frozen from that point on.
pub proof fn lemma_no_play_after_timeout(
    gs: GlobalState,
    round: RoundState,
    user: u64,
    round_index: u32,
    is_creator: bool,
    result: u8,
    now: i64,
    later: i64,
)
    requires
        window_expired(round.start_time, now),
        now <= later,
    ensures
        play_error(gs, round, user, round_index, is_creator, result, later) is Some,
{
}

/// The play window has a sharp edge: with every other check passing — index
/// in range, a move of the alphabet, a joined round, the caller in its role,
/// no move recorded yet — a submission fails with `InvalidTime` exactly when
/// `now` lies beyond `start_time + PLAY_WINDOW`, and on the boundary itself
/// it still goes through.
pub proof fn lemma_play_window_edge(
    gs: GlobalState,
    round: RoundState,
    user: u64,
    round_index: u32,
    is_creator: bool,
    result: u8,
    now: i64,
)
    requires
        round_index <= gs.total_round,
        1 <= result <= 3,
        round.status,
        round.role_key(is_creator) == user,
        round.role_result(is_creator) == 0,
    ensures
        now > round.start_time + PLAY_WINDOW ==> play_error(
            gs,
            round,
            user,
            round_index,
            is_creator,
            result,
            now,
        ) == Some(RPSGame::InvalidTime),
        now <= round.start_time + PLAY_WINDOW ==> play_error(
            gs,
            round,
            user,
            round_index,
            is_creator,
            result,
            now,
        ) is None,
{
}

} // verus!
