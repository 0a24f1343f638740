use vstd::prelude::*;

verus! {

/// Every way an operation on a wager can be refused. A refused operation
/// leaves the record untouched and moves no value.
#[derive(Debug, Clone, Copy, PartialEq, Eq, Structural)]
pub enum ErrorCode {
    /// Player 1 and player 2 are the same identity.
    SamePlayer,
    /// The stake asked of each player is zero.
    InvalidWagerAmount,
    /// The depositing player has already deposited.
    AlreadyDeposited,
    /// The caller is not the player whose deposit this is.
    UnauthorizedPlayer,
    /// The wager has already been settled.
    WagerAlreadySettled,
    /// Both players must deposit before declaring a winner or refunding.
    BothPlayersNotDeposited,
    /// The caller is not the wager's arbiter.
    UnauthorizedArbiter,
    /// The winner must be 1 or 2.
    InvalidWinner,
    /// The arbiter's window has closed: no winner can be declared.
    TimeoutExpired,
    /// The arbiter's window is still open: no refund yet.
    TimeoutNotExpired,
    /// Both players have deposited: the wager cannot be cancelled.
    BothPlayersAlreadyDeposited,
    /// The deposit window is still open: the wager cannot be cancelled yet.
    DepositTimeoutNotExpired,
    /// The pool computation would overflow or underflow 64 bits.
    ArithmeticOverflow,
}

} // verus!
