use vstd::prelude::*;

use crate::errors::RPSGame;
use crate::outcome::Outcome;
use crate::outcome::outcome;
use crate::outcome::outcome_of;
use crate::state::FEE_DENOM;
use crate::state::GlobalState;
use crate::state::MAX_DEPOSIT;
use crate::state::PLAY_WINDOW;
use crate::state::RoundState;
use crate::state::Transfer;

verus! {

/// Whether the play window that opened at `start_time` has elapsed by `now`:
/// moves are accepted up to and including `start_time + PLAY_WINDOW`, and a
/// missing move makes a round claimable strictly after it.
pub open spec fn window_expired(start_time: i64, now: i64) -> bool {
    now > start_time + PLAY_WINDOW
}

/// One-time bootstrap of the registry. The host guarantees it runs once per
/// deployment; the fee must already be on the parts-per-thousand scale.
pub fn initialize(owner: u64, vault: u64, fee: u64) -> (gs: GlobalState)
    requires
        fee <= FEE_DENOM,
    ensures
        gs.owner == owner,
        gs.vault == vault,
        gs.total_round == 0,
        gs.fee == fee,
        gs.round_states@ == Seq::<u64>::empty(),
        gs.wf(),
{
    GlobalState { owner, vault, total_round: 0, fee, round_states: Vec::new() }
}

/// The first check `create_round` fails on, if any: the requested index must
/// be the successor of the last issued one, and the deposit must be positive.
pub open spec fn create_error(gs: GlobalState, round_index: u32, amount: u64) -> Option<
    RPSGame,
> {
    if round_index != gs.total_round + 1 {
        Some(RPSGame::InvalidIndex)
    } else if amount == 0 {
        Some(RPSGame::ZeroAmount)
    } else {
        None
    }
}

/// The round record a successful creation writes: creator and deposit fixed,
/// everything else waiting for the joiner.
pub open spec fn created_round(user: u64, round_index: u32, amount: u64) -> RoundState {
    RoundState {
        round_index,
        creator: user,
        deposit_amount: amount,
        joiner: 0,
        status: false,
        creator_result: 0,
        joiner_result: 0,
        start_time: 0,
        is_creator_claimed: false,
        is_joiner_claimed: false,
    }
}

/// Creates a new round: `user` stakes `amount` under the next sequential
/// index. On success the registry has issued the index and recorded the new
/// round's storage key `round_key`, and the returned transfer asks the host
/// to move the deposit from the creator into the vault. This is the only
/// operation that changes `total_round`, and it moves it by exactly one.
pub fn create_round(
    gs: &mut GlobalState,
    user: u64,
    round_key: u64,
    round_index: u32,
    amount: u64,
) -> (r: Result<(RoundState, Transfer), RPSGame>)
    requires
        old(gs).wf(),
        amount <= MAX_DEPOSIT,
    ensures
        final(gs).wf(),
        r == (match create_error(*old(gs), round_index, amount) {
            Some(e) => Err::<(RoundState, Transfer), RPSGame>(e),
            None => Ok(
                (
                    created_round(user, round_index, amount),
                    Transfer { from: user, to: old(gs).vault, amount },
                ),
            ),
        }),
        create_error(*old(gs), round_index, amount) is Some ==> *final(gs) == *old(gs),
        create_error(*old(gs), round_index, amount) is None ==> *final(gs) == (GlobalState {
            total_round: (old(gs).total_round + 1) as u32,
            round_states: final(gs).round_states,
            ..*old(gs)
        }) && final(gs).round_states@ == old(gs).round_states@.push(round_key),
{
    if round_index == 0 || round_index - 1 != gs.total_round {
        return Err(RPSGame::InvalidIndex);
    }
    if amount == 0 {
        return Err(RPSGame::ZeroAmount);
    }
    let round = RoundState {
        round_index,
        creator: user,
        deposit_amount: amount,
        joiner: 0,
        status: false,
        creator_result: 0,
        joiner_result: 0,
        start_time: 0,
        is_creator_claimed: false,
        is_joiner_claimed: false,
    };
    gs.round_states.push(round_key);
    gs.total_round = gs.total_round + 1;
    Ok((round, Transfer { from: user, to: gs.vault, amount }))
}

/// The first check `join_round` fails on, if any: the round must still be
/// waiting for a joiner, the index must be one the registry has issued, and
/// the joiner must be a party other than the creator — a self-joined round
/// would let one identity collect a won pool through both roles.
pub open spec fn join_error(gs: GlobalState, round: RoundState, user: u64, round_index: u32) -> Option<
    RPSGame,
> {
    if round.status {
        Some(RPSGame::InvalidStart)
    } else if gs.total_round < round_index {
        Some(RPSGame::InvalidIndex)
    } else if user == round.creator {
        Some(RPSGame::InvalidPlayer)
    } else {
        None
    }
}

/// A second party enters the round: `user` stakes the round's deposit, the
/// round becomes joined, and the play window opens at `now`. The creator
/// cannot join their own round, so a joined round always has two distinct
/// parties. The returned transfer asks the host to move the deposit from the
/// joiner into the vault.
pub fn join_round(
    gs: &GlobalState,
    round: &mut RoundState,
    user: u64,
    round_index: u32,
    now: i64,
) -> (r: Result<Transfer, RPSGame>)
    requires
        old(round).wf(),
    ensures
        final(round).wf(),
        r == (match join_error(*gs, *old(round), user, round_index) {
            Some(e) => Err::<Transfer, RPSGame>(e),
            None => Ok(
                Transfer { from: user, to: gs.vault, amount: old(round).deposit_amount },
            ),
        }),
        *final(round) == (match join_error(*gs, *old(round), user, round_index) {
            Some(_) => *old(round),
            None => RoundState { joiner: user, status: true, start_time: now, ..*old(round) },
        }),
        r is Ok ==> final(round).creator != final(round).joiner,
{
    if round.status {
        return Err(RPSGame::InvalidStart);
    }
    if gs.total_round < round_index {
        return Err(RPSGame::InvalidIndex);
    }
    if user == round.creator {
        return Err(RPSGame::InvalidPlayer);
    }
    round.joiner = user;
    round.status = true;
    round.start_time = now;
    Ok(Transfer { from: user, to: gs.vault, amount: round.deposit_amount })
}

/// The first check `play` fails on, if any, in this order: the index must be
/// in range, the submitted code must be a move of the alphabet, the round
/// must have been joined — only a joined round has an open play window — the
/// caller must be the named role's stored identity, the role must not have
/// played yet, and the play window must still be open.
pub open spec fn play_error(
    gs: GlobalState,
    round: RoundState,
    user: u64,
    round_index: u32,
    is_creator: bool,
    result: u8,
    now: i64,
) -> Option<RPSGame> {
    if gs.total_round < round_index {
        Some(RPSGame::InvalidIndex)
    } else if result == 0 || result > 3 {
        Some(RPSGame::InvalidAmount)
    } else if !round.status {
        Some(RPSGame::InvalidStart)
    } else if round.role_key(is_creator) != user {
        Some(RPSGame::InvalidPlayer)
    } else if round.role_result(is_creator) != 0 {
        Some(RPSGame::InvalidPlay)
    } else if window_expired(round.start_time, now) {
        Some(RPSGame::InvalidTime)
    } else {
        None
    }
}

/// The round after the named role records `result`.
pub open spec fn played_round(round: RoundState, is_creator: bool, result: u8) -> RoundState {
    if is_creator {
        RoundState { creator_result: result, ..round }
    } else {
        RoundState { joiner_result: result, ..round }
    }
}

/// The named role records its move, a code of the alphabet 1, 2, 3 and
/// nothing else. Each role's result is write-once: a recorded move can never
/// be changed, and nothing can be recorded before the round is joined or
/// once the play window has closed.
pub fn play(
    gs: &GlobalState,
    round: &mut RoundState,
    user: u64,
    round_index: u32,
    is_creator: bool,
    result: u8,
    now: i64,
) -> (r: Result<(), RPSGame>)
    requires
        old(round).wf(),
    ensures
        final(round).wf(),
        r == (match play_error(*gs, *old(round), user, round_index, is_creator, result, now) {
            Some(e) => Err::<(), RPSGame>(e),
            None => Ok(()),
        }),
        *final(round) == (match play_error(
            *gs,
            *old(round),
            user,
            round_index,
            is_creator,
            result,
            now,
        ) {
            Some(_) => *old(round),
            None => played_round(*old(round), is_creator, result),
        }),
{
    if gs.total_round < round_index {
        return Err(RPSGame::InvalidIndex);
    }
    if result == 0 || result > 3 {
        return Err(RPSGame::InvalidAmount);
    }
    if !round.status {
        return Err(RPSGame::InvalidStart);
    }
    let player: u64 = if is_creator {
        round.creator
    } else {
        round.joiner
    };
    if player != user {
        return Err(RPSGame::InvalidPlayer);
    }
    let played: u8 = if is_creator {
        round.creator_result
    } else {
        round.joiner_result
    };
    if played != 0 {
        return Err(RPSGame::InvalidPlay);
    }
    if (now as i128) > (round.start_time as i128) + (PLAY_WINDOW as i128) {
        return Err(RPSGame::InvalidTime);
    }
    if is_creator {
        round.creator_result = result;
    } else {
        round.joiner_result = result;
    }
    Ok(())
}

/// What the round owes a claimant with identity `user`: the whole pool of
/// `2 * deposit_amount` when a winner is determined and `user` is that
/// winner's identity, nothing when a winner is determined and `user` is not,
/// and a straight refund of `deposit_amount` to any claiming role when no
/// winner is determined.
pub open spec fn claim_amount(round: RoundState, user: u64) -> int {
    match outcome_of(round.creator_result, round.joiner_result) {
        Outcome::CreatorWins => if round.creator == user {
            2 * round.deposit_amount
        } else {
            0
        },
        Outcome::JoinerWins => if round.joiner == user {
            2 * round.deposit_amount
        } else {
            0
        },
        Outcome::NoWinner => round.deposit_amount as int,
    }
}

/// The platform's cut of a claimable amount: a truncating parts-per-thousand
/// share.
pub open spec fn fee_cut(amount: int, fee: int) -> int {
    amount * fee / (FEE_DENOM as int)
}

/// The claimant's share of a claimable amount, computed as its own
/// truncating division rather than as the remainder of the fee: up to one
/// unit of rounding remainder stays in the vault.
pub open spec fn payout_cut(amount: int, fee: int) -> int {
    amount * (FEE_DENOM - fee) / (FEE_DENOM as int)
}

/// The first check `claim` fails on, if any, in this order: the index must
/// be in range, the round must have been joined — only a joined round holds
/// a pool to settle, and an unset joiner slot must match nobody — the caller
/// must be the named role's stored identity, the role must not have claimed
/// before, the round must be settleable — both moves recorded, or the play
/// window over — and the caller must be owed something.
pub open spec fn claim_error(
    gs: GlobalState,
    round: RoundState,
    user: u64,
    round_index: u32,
    is_creator: bool,
    now: i64,
) -> Option<RPSGame> {
    if gs.total_round < round_index {
        Some(RPSGame::InvalidIndex)
    } else if !round.status {
        Some(RPSGame::InvalidClaim)
    } else if round.role_key(is_creator) != user {
        Some(RPSGame::InvalidPlayer)
    } else if round.role_claimed(is_creator) {
        Some(RPSGame::InvalidClaim)
    } else if (round.creator_result == 0 || round.joiner_result == 0) && !window_expired(
        round.start_time,
        now,
    ) {
        Some(RPSGame::InvalidClaim)
    } else if claim_amount(round, user) == 0 {
        Some(RPSGame::InvalidClaim)
    } else {
        None
    }
}

/// The round after the named role's claim flag is set.
pub open spec fn claimed_round(round: RoundState, is_creator: bool) -> RoundState {
    if is_creator {
        RoundState { is_creator_claimed: true, ..round }
    } else {
        RoundState { is_joiner_claimed: true, ..round }
    }
}

/// The named role collects its share of the settled round; only joined
/// rounds settle. On success the role's claim flag is set — each role claims
/// at most once — and the two returned transfers ask the host to pay
/// `payout_cut` of the claimable amount from the vault to the caller and
/// `fee_cut` of it from the vault to the registry owner. On failure the
/// round is untouched.
pub fn claim(
    gs: &GlobalState,
    round: &mut RoundState,
    user: u64,
    round_index: u32,
    is_creator: bool,
    now: i64,
) -> (r: Result<(Transfer, Transfer), RPSGame>)
    requires
        gs.wf(),
        old(round).wf(),
    ensures
        final(round).wf(),
        r == (match claim_error(*gs, *old(round), user, round_index, is_creator, now) {
            Some(e) => Err::<(Transfer, Transfer), RPSGame>(e),
            None => Ok(
                (
                    Transfer {
                        from: gs.vault,
                        to: user,
                        amount: payout_cut(
                            claim_amount(*old(round), user),
                            gs.fee as int,
                        ) as u64,
                    },
                    Transfer {
                        from: gs.vault,
                        to: gs.owner,
                        amount: fee_cut(claim_amount(*old(round), user), gs.fee as int) as u64,
                    },
                ),
            ),
        }),
        *final(round) == (match claim_error(*gs, *old(round), user, round_index, is_creator, now) {
            Some(_) => *old(round),
            None => claimed_round(*old(round), is_creator),
        }),
{
    if gs.total_round < round_index {
        return Err(RPSGame::InvalidIndex);
    }
    if !round.status {
        return Err(RPSGame::InvalidClaim);
    }
    let player: u64 = if is_creator {
        round.creator
    } else {
        round.joiner
    };
    if player != user {
        return Err(RPSGame::InvalidPlayer);
    }
    let already: bool = if is_creator {
        round.is_creator_claimed
    } else {
        round.is_joiner_claimed
    };
    if already {
        return Err(RPSGame::InvalidClaim);
    }
    if (round.creator_result == 0 || round.joiner_result == 0) && (now as i128) <= (
    round.start_time as i128) + (PLAY_WINDOW as i128) {
        return Err(RPSGame::InvalidClaim);
    }
    let out = outcome(round.creator_result, round.joiner_result);
    let amount: u64 = match out {
        Outcome::CreatorWins => if round.creator == user {
            2 * round.deposit_amount
        } else {
            0
        },
        Outcome::JoinerWins => if round.joiner == user {
            2 * round.deposit_amount
        } else {
            0
        },
        Outcome::NoWinner => round.deposit_amount,
    };
    if amount == 0 {
        return Err(RPSGame::InvalidClaim);
    }
    assert(amount * (FEE_DENOM - gs.fee) <= u64::MAX && amount * gs.fee <= u64::MAX) by (
    nonlinear_arith)
        requires
            amount <= 2 * MAX_DEPOSIT,
            gs.fee <= FEE_DENOM,
    {}
    let payout: u64 = amount * (FEE_DENOM - gs.fee) / FEE_DENOM;
    let fee_amount: u64 = amount * gs.fee / FEE_DENOM;
    if is_creator {
        round.is_creator_claimed = true;
    } else {
        round.is_joiner_claimed = true;
    }
    Ok(
        (
            Transfer { from: gs.vault, to: user, amount: payout },
            Transfer { from: gs.vault, to: gs.owner, amount: fee_amount },
        ),
    )
}

/// The first check `update_fee` fails on, if any: only the registry owner may
/// change the fee, and the new rate must stay on the parts-per-thousand
/// scale.
pub open spec fn update_fee_error(gs: GlobalState, caller: u64, new_fee: u64) -> Option<
    RPSGame,
> {
    if caller != gs.owner {
        Some(RPSGame::NotAllowedOwner)
    } else if new_fee > FEE_DENOM {
        Some(RPSGame::InvalidAmount)
    } else {
        None
    }
}

/// The registry owner sets a new fee rate. Rates above the parts-per-thousand
/// scale are rejected so that no settlement can be asked for more than the
/// claimable amount. Nothing else about the registry changes.
pub fn update_fee(gs: &mut GlobalState, caller: u64, new_fee: u64) -> (r: Result<(), RPSGame>)
    requires
        old(gs).wf(),
    ensures
        final(gs).wf(),
        r == (match update_fee_error(*old(gs), caller, new_fee) {
            Some(e) => Err::<(), RPSGame>(e),
            None => Ok(()),
        }),
        *final(gs) == (match update_fee_error(*old(gs), caller, new_fee) {
            Some(_) => *old(gs),
            None => GlobalState { fee: new_fee, ..*old(gs) },
        }),
{
    if gs.owner != caller {
        return Err(RPSGame::NotAllowedOwner);
    }
    if new_fee > FEE_DENOM {
        return Err(RPSGame::InvalidAmount);
    }
    gs.fee = new_fee;
    Ok(())
}

/// The registry owner hands the registry to a new owner. Nothing else about
/// the registry changes.
pub fn update_owner(gs: &mut GlobalState, caller: u64, new_owner: u64) -> (r: Result<
    (),
    RPSGame,
>)
    requires
        old(gs).wf(),
    ensures
        final(gs).wf(),
        r == (if caller != old(gs).owner {
            Err::<(), RPSGame>(RPSGame::NotAllowedOwner)
        } else {
            Ok(())
        }),
        *final(gs) == (if caller != old(gs).owner {
            *old(gs)
        } else {
            GlobalState { owner: new_owner, ..*old(gs) }
        }),
{
    if gs.owner != caller {
        return Err(RPSGame::NotAllowedOwner);
    }
    gs.owner = new_owner;
    Ok(())
}

} // verus!
