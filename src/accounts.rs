use vstd::prelude::*;
use crate::address::Address;

verus! {

/// What creating a wager is given by its host besides the wager's terms.
#[derive(Debug, Clone, Copy, PartialEq, Eq)]
pub struct InitializeWager {
    /// Current time, in seconds.
    pub now: i64,
    /// One-time cost of allocating the record's and the custody's storage.
    pub initialization_cost: u64,
    pub bump: u8,
    pub vault_bump: u8,
}

/// The verified signer and the time of a deposit by player 1.
#[derive(Debug, Clone, Copy, PartialEq, Eq)]
pub struct DepositPlayer1 {
    pub player1: Address,
    pub now: i64,
}

/// The verified signer and the time of a deposit by player 2.
#[derive(Debug, Clone, Copy, PartialEq, Eq)]
pub struct DepositPlayer2 {
    pub player2: Address,
    pub now: i64,
}

/// The verified signer and the time of a winner declaration.
#[derive(Debug, Clone, Copy, PartialEq, Eq)]
pub struct DeclareWinner {
    pub arbiter: Address,
    pub now: i64,
}

/// The time of a refund request; anyone may ask.
#[derive(Debug, Clone, Copy, PartialEq, Eq)]
pub struct Refund {
    pub now: i64,
}

/// The time of a cancellation request; anyone may ask.
#[derive(Debug, Clone, Copy, PartialEq, Eq)]
pub struct CancelWager {
    pub now: i64,
}

} // verus!
