use vstd::prelude::*;

verus! {

/// Everything that can go wrong with a round or an admin operation. Every
/// failure is terminal for the call that raised it: the operation mutates
/// nothing and surfaces the error verbatim to the caller.
#[derive(Clone, Copy, Debug, PartialEq, Eq, Structural)]
pub enum RPSGame {
    /// Admin operation attempted by someone other than the registry owner.
    NotAllowedOwner,
    /// A fee rate above the parts-per-thousand scale, or a move code outside
    /// the move alphabet.
    InvalidAmount,
    /// Round index out of sequence at creation, or out of range afterwards.
    InvalidIndex,
    /// Round creation with a deposit of zero.
    ZeroAmount,
    /// The round's start state does not admit the operation: a join on a
    /// round that already has a joiner, or a move on a round nobody joined.
    InvalidStart,
    /// Move submitted by a role that already has a recorded move.
    InvalidPlay,
    /// Caller identity does not match the stored identity of the named role,
    /// or a creator trying to join their own round.
    InvalidPlayer,
    /// Move submitted after the play window closed.
    InvalidTime,
    /// Claim attempted twice by one role, before eligibility, on a round
    /// nobody joined, or with nothing to pay out.
    InvalidClaim,
}

impl RPSGame {
    /// The message surfaced to callers for this error.
    pub fn message(&self) -> &'static str {
        match *self {
            RPSGame::NotAllowedOwner => "RPSGameError: Not allowed owner",
            RPSGame::InvalidAmount => "RPSGameError: Invalid Amount",
            RPSGame::InvalidIndex => "RPSGameError: Invalid Index",
            RPSGame::ZeroAmount => "RPSGameError: Should deposit more than 0",
            RPSGame::InvalidStart => "RPSGameError: Invalid Start",
            RPSGame::InvalidPlay => "RPSGameError: Already Played",
            RPSGame::InvalidPlayer => "RPSGameError: Invalid Player",
            RPSGame::InvalidTime => "RPSGameError: Invalid Time",
            RPSGame::InvalidClaim => "RPSGameError: Invalid Claim Time",
        }
    }
}

} // verus!
