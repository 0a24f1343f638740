use vstd::prelude::*;
use crate::accounts::{CancelWager, DeclareWinner, DepositPlayer1, DepositPlayer2, InitializeWager, Refund};
use crate::address::Address;
use crate::error::ErrorCode;
use crate::payout::{
    cancel_refund_of, distributable_of, split_of, DEPOSIT_TIMEOUT_SECONDS, TIMEOUT_SECONDS,
};
use crate::wager::{Party, Transfer, Wager};

verus! {

/// What an operation does to a wager: the next record and the transfers it
/// asks of the ledger, or the error that refuses it.
pub type Outcome = Result<(Wager, Seq<Transfer>), ErrorCode>;

/// Whether an executed operation did what `step` describes: on success the
/// record became the step's record and the transfers returned are the step's;
/// on failure the record is unchanged and the step's error is returned.
pub open spec fn applied(step: Outcome, before: Wager, after: Wager, r: Result<Vec<Transfer>, ErrorCode>) -> bool {
    match step {
        Ok((next, ts)) => after == next && (r matches Ok(v) && v@ == ts),
        Err(e) => after == before && r == Err::<Vec<Transfer>, ErrorCode>(e),
    }
}

/// Seconds from `since` to `now`, in mathematical integers.
pub open spec fn elapsed(now: i64, since: i64) -> int {
    now - since
}

/// The party that winner number `winner` (1 or 2) designates.
pub open spec fn winner_party(winner: u8) -> Party {
    if winner == 1 {
        Party::Player1
    } else {
        Party::Player2
    }
}

/// Creation: refused for identical players, then for a zero stake; otherwise
/// a fresh record with no deposits, no timer, no winner, not settled.
pub open spec fn initialize_step(
    ctx: InitializeWager,
    player1: Address,
    player2: Address,
    arbiter: Address,
    fee_recipient: Address,
    wager_amount: u64,
) -> Result<Wager, ErrorCode> {
    if player1 == player2 {
        Err(ErrorCode::SamePlayer)
    } else if wager_amount == 0 {
        Err(ErrorCode::InvalidWagerAmount)
    } else {
        Ok(
            Wager {
                player1,
                player2,
                arbiter,
                fee_recipient,
                wager_amount,
                player1_deposited: false,
                player2_deposited: false,
                creation_time: ctx.now,
                start_time: 0,
                winner: None,
                is_settled: false,
                bump: ctx.bump,
                vault_bump: ctx.vault_bump,
                initialization_cost: ctx.initialization_cost,
            },
        )
    }
}

/// Player 1's deposit: the stake moves from player 1 into custody; if
/// player 2 is already in, the timer starts now.
pub open spec fn deposit_player1_step(w: Wager, ctx: DepositPlayer1) -> Outcome {
    if w.is_settled {
        Err(ErrorCode::WagerAlreadySettled)
    } else if w.player1_deposited {
        Err(ErrorCode::AlreadyDeposited)
    } else if ctx.player1 != w.player1 {
        Err(ErrorCode::UnauthorizedPlayer)
    } else {
        Ok(
            (
                Wager {
                    player1_deposited: true,
                    start_time: if w.player2_deposited { ctx.now } else { w.start_time },
                    ..w
                },
                seq![Transfer { from: Party::Player1, to: Party::Custody, amount: w.wager_amount }],
            ),
        )
    }
}

/// Player 2's deposit: the stake moves from player 2 into custody; if
/// player 1 is already in, the timer starts now.
pub open spec fn deposit_player2_step(w: Wager, ctx: DepositPlayer2) -> Outcome {
    if w.is_settled {
        Err(ErrorCode::WagerAlreadySettled)
    } else if w.player2_deposited {
        Err(ErrorCode::AlreadyDeposited)
    } else if ctx.player2 != w.player2 {
        Err(ErrorCode::UnauthorizedPlayer)
    } else {
        Ok(
            (
                Wager {
                    player2_deposited: true,
                    start_time: if w.player1_deposited { ctx.now } else { w.start_time },
                    ..w
                },
                seq![Transfer { from: Party::Player2, to: Party::Custody, amount: w.wager_amount }],
            ),
        )
    }
}

/// Winner declaration by the arbiter, at most `TIMEOUT_SECONDS` after the
/// timer started: the winner's share and the fee leave custody.
pub open spec fn declare_winner_step(w: Wager, ctx: DeclareWinner, winner: u8) -> Outcome {
    if w.is_settled {
        Err(ErrorCode::WagerAlreadySettled)
    } else if ctx.arbiter != w.arbiter {
        Err(ErrorCode::UnauthorizedArbiter)
    } else if !w.is_active() {
        Err(ErrorCode::BothPlayersNotDeposited)
    } else if winner != 1 && winner != 2 {
        Err(ErrorCode::InvalidWinner)
    } else if elapsed(ctx.now, w.start_time) > TIMEOUT_SECONDS {
        Err(ErrorCode::TimeoutExpired)
    } else {
        match distributable_of(w.wager_amount, w.initialization_cost) {
            None => Err(ErrorCode::ArithmeticOverflow),
            Some(pool) => match split_of(pool) {
                None => Err(ErrorCode::ArithmeticOverflow),
                Some((winner_amount, fee_amount)) => Ok(
                    (
                        Wager { winner: Some(winner), is_settled: true, ..w },
                        seq![
                            Transfer { from: Party::Custody, to: winner_party(winner), amount: winner_amount },
                            Transfer { from: Party::Custody, to: Party::FeeRecipient, amount: fee_amount },
                        ],
                    ),
                ),
            },
        }
    }
}

/// Refund once the arbiter's window has passed: each player gets half the
/// distributable pool.
pub open spec fn refund_step(w: Wager, ctx: Refund) -> Outcome {
    if w.is_settled {
        Err(ErrorCode::WagerAlreadySettled)
    } else if !w.is_active() {
        Err(ErrorCode::BothPlayersNotDeposited)
    } else if elapsed(ctx.now, w.start_time) <= TIMEOUT_SECONDS {
        Err(ErrorCode::TimeoutNotExpired)
    } else {
        match distributable_of(w.wager_amount, w.initialization_cost) {
            None => Err(ErrorCode::ArithmeticOverflow),
            Some(pool) => Ok(
                (
                    Wager { is_settled: true, ..w },
                    seq![
                        Transfer { from: Party::Custody, to: Party::Player1, amount: (pool / 2) as u64 },
                        Transfer { from: Party::Custody, to: Party::Player2, amount: (pool / 2) as u64 },
                    ],
                ),
            ),
        }
    }
}

/// The refund of one role on cancellation, if that role deposited.
pub open spec fn cancel_payout(deposited: bool, to: Party, amount: u64) -> Seq<Transfer> {
    if deposited {
        seq![Transfer { from: Party::Custody, to, amount }]
    } else {
        seq![]
    }
}

/// Cancellation of a wager that never became active, once the deposit window
/// has passed: each depositor gets the stake less the allocation cost. With
/// no deposit in, the wager settles and nothing moves.
pub open spec fn cancel_step(w: Wager, ctx: CancelWager) -> Outcome {
    if w.is_settled {
        Err(ErrorCode::WagerAlreadySettled)
    } else if w.is_active() {
        Err(ErrorCode::BothPlayersAlreadyDeposited)
    } else if elapsed(ctx.now, w.creation_time) <= DEPOSIT_TIMEOUT_SECONDS {
        Err(ErrorCode::DepositTimeoutNotExpired)
    } else if !w.player1_deposited && !w.player2_deposited {
        Ok((Wager { is_settled: true, ..w }, seq![]))
    } else {
        match cancel_refund_of(w.wager_amount, w.initialization_cost) {
            None => Err(ErrorCode::ArithmeticOverflow),
            Some(amount) => Ok(
                (
                    Wager { is_settled: true, ..w },
                    cancel_payout(w.player1_deposited, Party::Player1, amount) + cancel_payout(
                        w.player2_deposited,
                        Party::Player2,
                        amount,
                    ),
                ),
            ),
        }
    }
}

} // verus!
