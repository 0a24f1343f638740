use vstd::prelude::*;
use crate::accounts::{CancelWager, DeclareWinner, DepositPlayer1, DepositPlayer2, InitializeWager, Refund};
use crate::address::Address;
use crate::error::ErrorCode;
use crate::lifecycle::{
    cancel_payout, cancel_step, declare_winner_step, deposit_player1_step, deposit_player2_step,
    initialize_step, refund_step,
};
use crate::payout::distributable_of;
use crate::wager::{custody_in, custody_out, Party, Transfer, Wager};

verus! {

proof fn lemma_custody_single(x: Transfer)
    ensures
        custody_out(seq![x]) == if x.from == Party::Custody { x.amount as int } else { 0 },
        custody_in(seq![x]) == if x.to == Party::Custody { x.amount as int } else { 0 },
{
    let s = seq![x];
    assert(s.drop_last() =~= Seq::<Transfer>::empty());
    assert(s.last() == x);
    assert(custody_out(s.drop_last()) == 0);
    assert(custody_in(s.drop_last()) == 0);
}

proof fn lemma_custody_concat(s: Seq<Transfer>, t: Seq<Transfer>)
    ensures
        custody_out(s + t) == custody_out(s) + custody_out(t),
        custody_in(s + t) == custody_in(s) + custody_in(t),
    decreases t.len(),
{
    if t.len() == 0 {
        assert(s + t =~= s);
    } else {
        lemma_custody_concat(s, t.drop_last());
        assert((s + t).drop_last() =~= s + t.drop_last());
    }
}

proof fn lemma_custody_pair(a: Transfer, b: Transfer)
    ensures
        custody_out(seq![a, b]) == custody_out(seq![a]) + custody_out(seq![b]),
        custody_in(seq![a, b]) == custody_in(seq![a]) + custody_in(seq![b]),
{
    assert(seq![a, b] =~= seq![a] + seq![b]);
    lemma_custody_concat(seq![a], seq![b]);
}

/// A wager comes into existence only between two distinct players with a
/// positive stake, and then satisfies the record's invariant; otherwise
/// creation is refused and no record exists.
pub proof fn lemma_creation_validates_terms(
    ctx: InitializeWager,
    player1: Address,
    player2: Address,
    arbiter: Address,
    fee_recipient: Address,
    wager_amount: u64,
)
    ensures
        initialize_step(ctx, player1, player2, arbiter, fee_recipient, wager_amount) matches Ok(w)
            ==> (w.wf() && w.player1 != w.player2 && w.wager_amount > 0),
        player1 == player2 ==> initialize_step(ctx, player1, player2, arbiter, fee_recipient, wager_amount)
            == Err::<Wager, ErrorCode>(ErrorCode::SamePlayer),
        player1 != player2 && wager_amount == 0 ==> initialize_step(
            ctx,
            player1,
            player2,
            arbiter,
            fee_recipient,
            wager_amount,
        ) == Err::<Wager, ErrorCode>(ErrorCode::InvalidWagerAmount),
{
}

/// Every operation that succeeds on a valid record leaves a valid record with
/// the same players and stake.
pub proof fn lemma_operations_keep_invariant(
    w: Wager,
    d1: DepositPlayer1,
    d2: DepositPlayer2,
    dw: DeclareWinner,
    winner: u8,
    rf: Refund,
    cw: CancelWager,
)
    requires
        w.wf(),
    ensures
        deposit_player1_step(w, d1) matches Ok((n, _)) ==> n.wf() && n.player1 == w.player1
            && n.player2 == w.player2 && n.wager_amount == w.wager_amount,
        deposit_player2_step(w, d2) matches Ok((n, _)) ==> n.wf() && n.player1 == w.player1
            && n.player2 == w.player2 && n.wager_amount == w.wager_amount,
        declare_winner_step(w, dw, winner) matches Ok((n, _)) ==> n.wf() && n.player1 == w.player1
            && n.player2 == w.player2 && n.wager_amount == w.wager_amount,
        refund_step(w, rf) matches Ok((n, _)) ==> n.wf() && n.player1 == w.player1
            && n.player2 == w.player2 && n.wager_amount == w.wager_amount,
        cancel_step(w, cw) matches Ok((n, _)) ==> n.wf() && n.player1 == w.player1
            && n.player2 == w.player2 && n.wager_amount == w.wager_amount,
{
}

/// Depositing player 2 first and then player 1 gives the same active record,
/// with the timer started at the second deposit, as the reverse order; both
/// orders put the same value into custody.
pub proof fn lemma_deposit_order_independent(
    w: Wager,
    p1_first: DepositPlayer1,
    p2_second: DepositPlayer2,
    p2_first: DepositPlayer2,
    p1_second: DepositPlayer1,
)
    requires
        w.wf(),
        !w.is_settled,
        !w.player1_deposited,
        !w.player2_deposited,
        p1_first.player1 == w.player1,
        p1_second.player1 == w.player1,
        p2_first.player2 == w.player2,
        p2_second.player2 == w.player2,
        p1_second.now == p2_second.now,
    ensures
        deposit_player1_step(w, p1_first) matches Ok((a1, ta1)) && (deposit_player2_step(a1, p2_second) matches Ok((a2, ta2))
            && (deposit_player2_step(w, p2_first) matches Ok((b1, tb1)) && (deposit_player1_step(b1, p1_second) matches Ok((b2, tb2))
            && a2 == b2 && a2.is_active() && !a2.is_settled && a2.start_time == p2_second.now
            && custody_in(ta1 + ta2) == custody_in(tb1 + tb2)
            && custody_in(ta1 + ta2) == 2 * w.wager_amount))),
{
    let a1 = deposit_player1_step(w, p1_first)->Ok_0.0;
    let ta1 = deposit_player1_step(w, p1_first)->Ok_0.1;
    let ta2 = deposit_player2_step(a1, p2_second)->Ok_0.1;
    let b1 = deposit_player2_step(w, p2_first)->Ok_0.0;
    let tb1 = deposit_player2_step(w, p2_first)->Ok_0.1;
    let tb2 = deposit_player1_step(b1, p1_second)->Ok_0.1;
    lemma_custody_concat(ta1, ta2);
    lemma_custody_concat(tb1, tb2);
    lemma_custody_single(ta1[0]);
    lemma_custody_single(ta2[0]);
    lemma_custody_single(tb1[0]);
    lemma_custody_single(tb2[0]);
    assert(ta1 =~= seq![ta1[0]]);
    assert(ta2 =~= seq![ta2[0]]);
    assert(tb1 =~= seq![tb1[0]]);
    assert(tb2 =~= seq![tb2[0]]);
}

/// The timer starts on the second deposit and only there: a first deposit
/// leaves `start_time` at 0, a second sets it to the deposit's time, once
/// both are in no deposit succeeds again, and settlements leave it alone.
pub proof fn lemma_start_time_set_by_second_deposit(
    w: Wager,
    d1: DepositPlayer1,
    d2: DepositPlayer2,
    dw: DeclareWinner,
    winner: u8,
    rf: Refund,
    cw: CancelWager,
)
    requires
        w.wf(),
    ensures
        deposit_player1_step(w, d1) matches Ok((n, _)) ==> n.start_time == if w.player2_deposited {
            d1.now
        } else {
            0
        },
        deposit_player2_step(w, d2) matches Ok((n, _)) ==> n.start_time == if w.player1_deposited {
            d2.now
        } else {
            0
        },
        w.is_active() ==> deposit_player1_step(w, d1) is Err && deposit_player2_step(w, d2) is Err,
        declare_winner_step(w, dw, winner) matches Ok((n, _)) ==> n.start_time == w.start_time,
        refund_step(w, rf) matches Ok((n, _)) ==> n.start_time == w.start_time,
        cancel_step(w, cw) matches Ok((n, _)) ==> n.start_time == w.start_time,
{
}

/// Once settled, a wager refuses every operation with `WagerAlreadySettled`,
/// so no value moves.
pub proof fn lemma_settled_wager_refuses_all(
    w: Wager,
    d1: DepositPlayer1,
    d2: DepositPlayer2,
    dw: DeclareWinner,
    winner: u8,
    rf: Refund,
    cw: CancelWager,
)
    requires
        w.is_settled,
    ensures
        deposit_player1_step(w, d1) == Err::<(Wager, Seq<Transfer>), ErrorCode>(ErrorCode::WagerAlreadySettled),
        deposit_player2_step(w, d2) == Err::<(Wager, Seq<Transfer>), ErrorCode>(ErrorCode::WagerAlreadySettled),
        declare_winner_step(w, dw, winner) == Err::<(Wager, Seq<Transfer>), ErrorCode>(ErrorCode::WagerAlreadySettled),
        refund_step(w, rf) == Err::<(Wager, Seq<Transfer>), ErrorCode>(ErrorCode::WagerAlreadySettled),
        cancel_step(w, cw) == Err::<(Wager, Seq<Transfer>), ErrorCode>(ErrorCode::WagerAlreadySettled),
{
}

/// A winner declaration splits the distributable pool exactly between winner
/// and fee recipient, and that pool is at most both stakes; no settlement
/// takes more out of custody than the players put in.
pub proof fn lemma_settlement_conserves_value(
    w: Wager,
    dw: DeclareWinner,
    winner: u8,
    rf: Refund,
    cw: CancelWager,
)
    requires
        w.wf(),
    ensures
        declare_winner_step(w, dw, winner) matches Ok((_, ts)) ==> (distributable_of(
            w.wager_amount,
            w.initialization_cost,
        ) matches Some(pool) && ts.len() == 2 && ts[0].amount + ts[1].amount == pool && pool <= 2
            * w.wager_amount && custody_out(ts) == pool && custody_out(ts) <= w.deposited_total()),
        refund_step(w, rf) matches Ok((_, ts)) ==> custody_out(ts) <= w.deposited_total(),
        cancel_step(w, cw) matches Ok((_, ts)) ==> custody_out(ts) <= w.deposited_total(),
{
    if let Ok((_, ts)) = declare_winner_step(w, dw, winner) {
        lemma_custody_pair(ts[0], ts[1]);
        lemma_custody_single(ts[0]);
        lemma_custody_single(ts[1]);
        assert(ts =~= seq![ts[0], ts[1]]);
    }
    if let Ok((_, ts)) = refund_step(w, rf) {
        lemma_custody_pair(ts[0], ts[1]);
        lemma_custody_single(ts[0]);
        lemma_custody_single(ts[1]);
        assert(ts =~= seq![ts[0], ts[1]]);
    }
    if let Ok((_, ts)) = cancel_step(w, cw) {
        if !w.player1_deposited && !w.player2_deposited {
            assert(ts =~= Seq::<Transfer>::empty());
            assert(custody_out(Seq::<Transfer>::empty()) == 0);
        }
        let amount = (w.wager_amount - w.initialization_cost) as u64;
        let t1 = Transfer { from: Party::Custody, to: Party::Player1, amount };
        let t2 = Transfer { from: Party::Custody, to: Party::Player2, amount };
        lemma_custody_single(t1);
        lemma_custody_single(t2);
        lemma_custody_concat(
            cancel_payout(w.player1_deposited, Party::Player1, amount),
            cancel_payout(w.player2_deposited, Party::Player2, amount),
        );
        assert(custody_out(Seq::<Transfer>::empty()) == 0);
    }
}

/// Calling a settlement operation a second time after it succeeded fails
/// with `WagerAlreadySettled` and moves no value.
pub proof fn lemma_settlement_twice_fails(
    w: Wager,
    dw: DeclareWinner,
    winner: u8,
    dw_again: DeclareWinner,
    winner_again: u8,
    rf: Refund,
    rf_again: Refund,
    cw: CancelWager,
    cw_again: CancelWager,
)
    ensures
        declare_winner_step(w, dw, winner) matches Ok((n, _)) ==> declare_winner_step(n, dw_again, winner_again)
            == Err::<(Wager, Seq<Transfer>), ErrorCode>(ErrorCode::WagerAlreadySettled),
        refund_step(w, rf) matches Ok((n, _)) ==> refund_step(n, rf_again)
            == Err::<(Wager, Seq<Transfer>), ErrorCode>(ErrorCode::WagerAlreadySettled),
        cancel_step(w, cw) matches Ok((n, _)) ==> cancel_step(n, cw_again)
            == Err::<(Wager, Seq<Transfer>), ErrorCode>(ErrorCode::WagerAlreadySettled),
{
}

} // verus!
