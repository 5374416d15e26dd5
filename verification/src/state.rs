use vstd::prelude::*;

verus! {

/// Length of the play window: moves may be submitted while the current time
/// is at most `start_time + PLAY_WINDOW`.
pub const PLAY_WINDOW: i64 = 600;

/// Fee rates are expressed in parts per thousand of the claimable amount.
pub const FEE_DENOM: u64 = 1000;

/// Largest deposit a round may be created with. A winner's claim moves the
/// whole pool of `2 * deposit_amount`, and the fee split multiplies the
/// claimable amount by at most `FEE_DENOM`, so this bound keeps every
/// settlement product inside `u64`.
pub const MAX_DEPOSIT: u64 = u64::MAX / 2000;

/// A fund-transfer request: the core never holds or moves value itself, it
/// asks the host ledger to move `amount` from `from` to `to` as part of the
/// same atomic operation that produced the request. Identities are opaque
/// host account keys, compared only for equality.
#[derive(Clone, Copy, Debug, PartialEq, Eq, Structural)]
pub struct Transfer {
    pub from: u64,
    pub to: u64,
    pub amount: u64,
}

/// The process-wide round registry: fee configuration and the source of
/// strictly sequential round indices.
#[derive(Clone, Debug, PartialEq, Eq)]
pub struct GlobalState {
    /// Identity authorized to change the fee and to receive fee payouts.
    pub owner: u64,
    /// The pooled-funds holding account that escrows every deposit.
    pub vault: u64,
    /// Count of rounds ever created; doubles as the last-issued index.
    pub total_round: u32,
    /// Platform cut in parts per thousand of the claimable amount.
    pub fee: u64,
    /// Host storage keys of every created round, in creation order.
    pub round_states: Vec<u64>,
}

impl GlobalState {
    /// Registry well-formedness: the fee stays on the parts-per-thousand
    /// scale and the reference list records exactly the created rounds.
    pub open spec fn wf(self) -> bool {
        &&& self.fee <= FEE_DENOM
        &&& self.round_states@.len() == self.total_round as int
    }
}

/// One escrowed match. `joiner`, `start_time` and the two result fields are
/// zero until the operation that sets them; a result of 0 means "not yet
/// played" and 1, 2, 3 stand for Rock, Paper, Scissors.
#[derive(Clone, Copy, Debug, PartialEq, Eq, Structural)]
pub struct RoundState {
    /// Unique, assigned as `total_round + 1` at creation.
    pub round_index: u32,
    /// Identity of the party that created the round.
    pub creator: u64,
    /// Stake each party must deposit; fixed at creation.
    pub deposit_amount: u64,
    /// Identity of the second party; 0 until someone joins.
    pub joiner: u64,
    /// False while the round waits for a joiner, true from the join on.
    pub status: bool,
    /// The creator's recorded move, 0 while unplayed.
    pub creator_result: u8,
    /// The joiner's recorded move, 0 while unplayed.
    pub joiner_result: u8,
    /// Timestamp of the join; the play window is measured from here.
    pub start_time: i64,
    /// Whether the creator has already collected a payout.
    pub is_creator_claimed: bool,
    /// Whether the joiner has already collected a payout.
    pub is_joiner_claimed: bool,
}

impl RoundState {
    /// Round well-formedness: the deposit is positive and small enough for
    /// the settlement arithmetic, and each recorded result is either
    /// "not yet played" or a move of the alphabet, never anything else.
    pub open spec fn wf(self) -> bool {
        &&& 0 < self.deposit_amount <= MAX_DEPOSIT
        &&& self.creator_result <= 3
        &&& self.joiner_result <= 3
    }

    /// The stored identity of the given role.
    pub open spec fn role_key(self, is_creator: bool) -> u64 {
        if is_creator {
            self.creator
        } else {
            self.joiner
        }
    }

    /// The recorded move of the given role.
    pub open spec fn role_result(self, is_creator: bool) -> u8 {
        if is_creator {
            self.creator_result
        } else {
            self.joiner_result
        }
    }

    /// Whether the given role has already claimed.
    pub open spec fn role_claimed(self, is_creator: bool) -> bool {
        if is_creator {
            self.is_creator_claimed
        } else {
            self.is_joiner_claimed
        }
    }
}

} // verus!
