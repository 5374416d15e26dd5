//! Settlement core of a two-party, escrow-backed Rock-Paper-Scissors match.
//!
//! A registry hands out strictly sequential round indices; each round walks
//! through creation, joining, up to two move submissions inside a fixed play
//! window, and settlement. Every operation is a pure transition over plain
//! state values: it validates, mutates the records it was handed, and returns
//! the fund-transfer requests the host ledger must perform atomically with the
//! transition. Identity, clock, storage and the transfer primitive itself are
//! the host's business; callers supply identities as opaque keys and the
//! current time with each call.

pub mod errors;
pub mod instructions;
pub mod laws;
pub mod outcome;
pub mod state;
