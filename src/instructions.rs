use vstd::prelude::*;
use crate::accounts::{CancelWager, DeclareWinner, DepositPlayer1, DepositPlayer2, InitializeWager, Refund};
use crate::address::Address;
use crate::error::ErrorCode;
use crate::lifecycle::{
    applied, cancel_step, declare_winner_step, deposit_player1_step, deposit_player2_step,
    initialize_step, refund_step,
};
use crate::payout::{
    cancel_refund, distributable_pool, split_pool, DEPOSIT_TIMEOUT_SECONDS, TIMEOUT_SECONDS,
};
use crate::wager::{Party, Transfer, Wager};

verus! {

/// Creates a wager between two distinct players with a positive stake each.
/// Moves no value.
pub fn initialize_wager(
    ctx: &InitializeWager,
    player1: Address,
    player2: Address,
    arbiter: Address,
    fee_recipient: Address,
    wager_amount: u64,
) -> (r: Result<Wager, ErrorCode>)
    ensures
        r == initialize_step(*ctx, player1, player2, arbiter, fee_recipient, wager_amount),
        r matches Ok(w) ==> w.wf(),
        r is Ok <==> (player1 != player2 && wager_amount > 0),
{
    if player1.same_as(&player2) {
        return Err(ErrorCode::SamePlayer);
    }
    if wager_amount == 0 {
        return Err(ErrorCode::InvalidWagerAmount);
    }
    Ok(
        Wager {
            player1,
            player2,
            arbiter,
            fee_recipient,
            wager_amount,
            player1_deposited: false,
            player2_deposited: false,
            creation_time: ctx.now,
            start_time: 0,
            winner: None,
            is_settled: false,
            bump: ctx.bump,
            vault_bump: ctx.vault_bump,
            initialization_cost: ctx.initialization_cost,
        },
    )
}

/// Player 1 puts the stake into custody. The second of the two deposits
/// starts the arbiter's timer.
pub fn deposit_player1(wager: &mut Wager, ctx: &DepositPlayer1) -> (r: Result<Vec<Transfer>, ErrorCode>)
    ensures
        applied(deposit_player1_step(*old(wager), *ctx), *old(wager), *final(wager), r),
        old(wager).wf() ==> final(wager).wf(),
{
    if wager.is_settled {
        return Err(ErrorCode::WagerAlreadySettled);
    }
    if wager.player1_deposited {
        return Err(ErrorCode::AlreadyDeposited);
    }
    if !ctx.player1.same_as(&wager.player1) {
        return Err(ErrorCode::UnauthorizedPlayer);
    }
    wager.player1_deposited = true;
    if wager.player2_deposited {
        wager.start_time = ctx.now;
    }
    let t = Transfer { from: Party::Player1, to: Party::Custody, amount: wager.wager_amount };
    let transfers = vec![t];
    assert(transfers@ =~= seq![t]);
    Ok(transfers)
}

/// Player 2 puts the stake into custody. The second of the two deposits
/// starts the arbiter's timer.
pub fn deposit_player2(wager: &mut Wager, ctx: &DepositPlayer2) -> (r: Result<Vec<Transfer>, ErrorCode>)
    ensures
        applied(deposit_player2_step(*old(wager), *ctx), *old(wager), *final(wager), r),
        old(wager).wf() ==> final(wager).wf(),
{
    if wager.is_settled {
        return Err(ErrorCode::WagerAlreadySettled);
    }
    if wager.player2_deposited {
        return Err(ErrorCode::AlreadyDeposited);
    }
    if !ctx.player2.same_as(&wager.player2) {
        return Err(ErrorCode::UnauthorizedPlayer);
    }
    wager.player2_deposited = true;
    if wager.player1_deposited {
        wager.start_time = ctx.now;
    }
    let t = Transfer { from: Party::Player2, to: Party::Custody, amount: wager.wager_amount };
    let transfers = vec![t];
    assert(transfers@ =~= seq![t]);
    Ok(transfers)
}

/// The arbiter names the winner within the window after the second deposit.
/// The winner gets 95% of the distributable pool, truncated; the fee
/// recipient gets the rest.
pub fn declare_winner(wager: &mut Wager, ctx: &DeclareWinner, winner: u8) -> (r: Result<
    Vec<Transfer>,
    ErrorCode,
>)
    ensures
        applied(declare_winner_step(*old(wager), *ctx, winner), *old(wager), *final(wager), r),
        old(wager).wf() ==> final(wager).wf(),
{
    if wager.is_settled {
        return Err(ErrorCode::WagerAlreadySettled);
    }
    if !ctx.arbiter.same_as(&wager.arbiter) {
        return Err(ErrorCode::UnauthorizedArbiter);
    }
    if !(wager.player1_deposited && wager.player2_deposited) {
        return Err(ErrorCode::BothPlayersNotDeposited);
    }
    if winner != 1 && winner != 2 {
        return Err(ErrorCode::InvalidWinner);
    }
    if (ctx.now as i128) - (wager.start_time as i128) > (TIMEOUT_SECONDS as i128) {
        return Err(ErrorCode::TimeoutExpired);
    }
    let pool = match distributable_pool(wager.wager_amount, wager.initialization_cost) {
        Some(p) => p,
        None => return Err(ErrorCode::ArithmeticOverflow),
    };
    let (winner_amount, fee_amount) = match split_pool(pool) {
        Some(s) => s,
        None => return Err(ErrorCode::ArithmeticOverflow),
    };
    let to = if winner == 1 {
        Party::Player1
    } else {
        Party::Player2
    };
    wager.winner = Some(winner);
    wager.is_settled = true;
    Ok(
        vec![
            Transfer { from: Party::Custody, to, amount: winner_amount },
            Transfer { from: Party::Custody, to: Party::FeeRecipient, amount: fee_amount },
        ],
    )
}

/// Once the arbiter's window has passed, returns half the distributable pool
/// to each player.
pub fn refund(wager: &mut Wager, ctx: &Refund) -> (r: Result<Vec<Transfer>, ErrorCode>)
    ensures
        applied(refund_step(*old(wager), *ctx), *old(wager), *final(wager), r),
        old(wager).wf() ==> final(wager).wf(),
{
    if wager.is_settled {
        return Err(ErrorCode::WagerAlreadySettled);
    }
    if !(wager.player1_deposited && wager.player2_deposited) {
        return Err(ErrorCode::BothPlayersNotDeposited);
    }
    if (ctx.now as i128) - (wager.start_time as i128) <= (TIMEOUT_SECONDS as i128) {
        return Err(ErrorCode::TimeoutNotExpired);
    }
    let pool = match distributable_pool(wager.wager_amount, wager.initialization_cost) {
        Some(p) => p,
        None => return Err(ErrorCode::ArithmeticOverflow),
    };
    let refund_amount = pool / 2;
    wager.is_settled = true;
    Ok(
        vec![
            Transfer { from: Party::Custody, to: Party::Player1, amount: refund_amount },
            Transfer { from: Party::Custody, to: Party::Player2, amount: refund_amount },
        ],
    )
}

/// Once the deposit window has passed with at most one deposit in, returns
/// to each player who deposited the stake less the allocation cost. With no
/// deposit in, the wager settles and nothing moves.
pub fn cancel_wager(wager: &mut Wager, ctx: &CancelWager) -> (r: Result<Vec<Transfer>, ErrorCode>)
    ensures
        applied(cancel_step(*old(wager), *ctx), *old(wager), *final(wager), r),
        old(wager).wf() ==> final(wager).wf(),
{
    if wager.is_settled {
        return Err(ErrorCode::WagerAlreadySettled);
    }
    if wager.player1_deposited && wager.player2_deposited {
        return Err(ErrorCode::BothPlayersAlreadyDeposited);
    }
    if (ctx.now as i128) - (wager.creation_time as i128) <= (DEPOSIT_TIMEOUT_SECONDS as i128) {
        return Err(ErrorCode::DepositTimeoutNotExpired);
    }
    if !wager.player1_deposited && !wager.player2_deposited {
        wager.is_settled = true;
        let transfers: Vec<Transfer> = Vec::new();
        assert(transfers@ =~= Seq::<Transfer>::empty());
        return Ok(transfers);
    }
    let refund_amount = match cancel_refund(wager.wager_amount, wager.initialization_cost) {
        Some(a) => a,
        None => return Err(ErrorCode::ArithmeticOverflow),
    };
    let mut transfers: Vec<Transfer> = Vec::new();
    if wager.player1_deposited {
        transfers.push(Transfer { from: Party::Custody, to: Party::Player1, amount: refund_amount });
    }
    if wager.player2_deposited {
        transfers.push(Transfer { from: Party::Custody, to: Party::Player2, amount: refund_amount });
    }
    wager.is_settled = true;
    Ok(transfers)
}

} // verus!
