use slider_pvp::{
    cancel_wager, declare_winner, deposit_player1, deposit_player2, initialize_wager, refund,
    Address, CancelWager, DeclareWinner, DepositPlayer1, DepositPlayer2, ErrorCode,
    InitializeWager, Party, Refund, Transfer, Wager,
};

const STAKE: u64 = 1_000_000_000;
const CREATED_AT: i64 = 1_700_000_000;

fn addr(tag: u8) -> Address {
    Address::new([tag; 32])
}

fn first_player() -> Address {
    addr(1)
}

fn second_player() -> Address {
    addr(2)
}

fn arbiter() -> Address {
    addr(3)
}

fn fee() -> Address {
    addr(4)
}

fn create(stake: u64, cost: u64) -> Wager {
    let ctx = InitializeWager { now: CREATED_AT, initialization_cost: cost, bump: 254, vault_bump: 253 };
    initialize_wager(&ctx, first_player(), second_player(), arbiter(), fee(), stake).unwrap()
}

fn d1(now: i64) -> DepositPlayer1 {
    DepositPlayer1 { player1: first_player(), now }
}

fn d2(now: i64) -> DepositPlayer2 {
    DepositPlayer2 { player2: second_player(), now }
}

fn active(stake: u64, cost: u64, start: i64) -> Wager {
    let mut w = create(stake, cost);
    deposit_player1(&mut w, &d1(start - 5)).unwrap();
    deposit_player2(&mut w, &d2(start)).unwrap();
    w
}

fn out(to: Party, amount: u64) -> Transfer {
    Transfer { from: Party::Custody, to, amount }
}

#[test]
fn creation_sets_initial_state() {
    let w = create(STAKE, 7);
    assert_eq!(w.player1, first_player());
    assert_eq!(w.player2, second_player());
    assert_eq!(w.arbiter, arbiter());
    assert_eq!(w.fee_recipient, fee());
    assert_eq!(w.wager_amount, STAKE);
    assert!(!w.player1_deposited && !w.player2_deposited);
    assert_eq!(w.creation_time, CREATED_AT);
    assert_eq!(w.start_time, 0);
    assert_eq!(w.winner, None);
    assert!(!w.is_settled);
    assert_eq!((w.bump, w.vault_bump, w.initialization_cost), (254, 253, 7));
}

#[test]
fn creation_rejects_same_player() {
    let ctx = InitializeWager { now: CREATED_AT, initialization_cost: 0, bump: 0, vault_bump: 0 };
    assert_eq!(initialize_wager(&ctx, first_player(), first_player(), arbiter(), fee(), STAKE), Err(ErrorCode::SamePlayer));
    // The identity check comes before the amount check.
    assert_eq!(initialize_wager(&ctx, first_player(), first_player(), arbiter(), fee(), 0), Err(ErrorCode::SamePlayer));
}

#[test]
fn creation_rejects_zero_stake() {
    let ctx = InitializeWager { now: CREATED_AT, initialization_cost: 0, bump: 0, vault_bump: 0 };
    assert_eq!(initialize_wager(&ctx, first_player(), second_player(), arbiter(), fee(), 0), Err(ErrorCode::InvalidWagerAmount));
    assert!(initialize_wager(&ctx, first_player(), second_player(), arbiter(), fee(), 1).is_ok());
}

#[test]
fn addresses_differing_in_last_byte_are_distinct() {
    let mut bytes = [9u8; 32];
    let a = Address::new(bytes);
    bytes[31] = 10;
    let b = Address::new(bytes);
    assert!(!a.same_as(&b));
    assert!(a.same_as(&Address::new([9u8; 32])));
    let ctx = InitializeWager { now: 0, initialization_cost: 0, bump: 0, vault_bump: 0 };
    assert!(initialize_wager(&ctx, a, b, arbiter(), fee(), 1).is_ok());
}

#[test]
fn first_deposit_moves_stake_without_starting_timer() {
    let mut w = create(STAKE, 0);
    let ts = deposit_player1(&mut w, &d1(CREATED_AT + 3)).unwrap();
    assert_eq!(ts, vec![Transfer { from: Party::Player1, to: Party::Custody, amount: STAKE }]);
    assert!(w.player1_deposited && !w.player2_deposited);
    assert_eq!(w.start_time, 0);
}

#[test]
fn second_deposit_starts_timer() {
    let mut w = create(STAKE, 0);
    deposit_player1(&mut w, &d1(CREATED_AT + 3)).unwrap();
    let ts = deposit_player2(&mut w, &d2(CREATED_AT + 9)).unwrap();
    assert_eq!(ts, vec![Transfer { from: Party::Player2, to: Party::Custody, amount: STAKE }]);
    assert_eq!(w.start_time, CREATED_AT + 9);
}

#[test]
fn deposit_order_does_not_matter() {
    let mut a = create(STAKE, 0);
    deposit_player1(&mut a, &d1(CREATED_AT + 1)).unwrap();
    deposit_player2(&mut a, &d2(CREATED_AT + 8)).unwrap();
    let mut b = create(STAKE, 0);
    deposit_player2(&mut b, &d2(CREATED_AT + 4)).unwrap();
    assert_eq!(b.start_time, 0);
    deposit_player1(&mut b, &d1(CREATED_AT + 8)).unwrap();
    assert_eq!(a, b);
    assert_eq!(a.start_time, CREATED_AT + 8);
}

#[test]
fn repeated_deposit_is_refused() {
    let mut w = create(STAKE, 0);
    deposit_player1(&mut w, &d1(CREATED_AT + 1)).unwrap();
    let before = w;
    assert_eq!(deposit_player1(&mut w, &d1(CREATED_AT + 2)), Err(ErrorCode::AlreadyDeposited));
    assert_eq!(w, before);
    deposit_player2(&mut w, &d2(CREATED_AT + 3)).unwrap();
    assert_eq!(deposit_player2(&mut w, &d2(CREATED_AT + 4)), Err(ErrorCode::AlreadyDeposited));
    assert_eq!(w.start_time, CREATED_AT + 3);
}

#[test]
fn deposit_by_wrong_signer_is_refused() {
    let mut w = create(STAKE, 0);
    let before = w;
    assert_eq!(
        deposit_player1(&mut w, &DepositPlayer1 { player1: second_player(), now: CREATED_AT }),
        Err(ErrorCode::UnauthorizedPlayer)
    );
    assert_eq!(
        deposit_player2(&mut w, &DepositPlayer2 { player2: first_player(), now: CREATED_AT }),
        Err(ErrorCode::UnauthorizedPlayer)
    );
    assert_eq!(w, before);
}

#[test]
fn winner_split_without_allocation_cost() {
    let start = CREATED_AT + 10;
    let mut w = active(STAKE, 0, start);
    let ts = declare_winner(&mut w, &DeclareWinner { arbiter: arbiter(), now: start + 60 }, 1).unwrap();
    assert_eq!(ts, vec![out(Party::Player1, 1_900_000_000), out(Party::FeeRecipient, 100_000_000)]);
    assert_eq!(w.winner, Some(1));
    assert!(w.is_settled);
}

#[test]
fn winner_split_of_reduced_pool() {
    // A pool of 1_900_000_000 after the allocation cost is taken.
    let start = CREATED_AT + 10;
    let mut w = active(STAKE, 100_000_000, start);
    let ts = declare_winner(&mut w, &DeclareWinner { arbiter: arbiter(), now: start + 120 }, 2).unwrap();
    assert_eq!(ts, vec![out(Party::Player2, 1_805_000_000), out(Party::FeeRecipient, 95_000_000)]);
    assert_eq!(w.winner, Some(2));
}

#[test]
fn winner_split_truncates_toward_the_fee() {
    // Pool 2 * 7 - 1 = 13; 13 * 95 / 100 = 12, fee 1.
    let start = CREATED_AT + 10;
    let mut w = active(7, 1, start);
    let ts = declare_winner(&mut w, &DeclareWinner { arbiter: arbiter(), now: start }, 1).unwrap();
    assert_eq!(ts, vec![out(Party::Player1, 12), out(Party::FeeRecipient, 1)]);
    assert_eq!(ts[0].amount + ts[1].amount, 13);
}

#[test]
fn declare_after_timeout_is_refused_and_refund_succeeds() {
    let start = CREATED_AT + 10;
    let mut w = active(STAKE, 0, start);
    let before = w;
    assert_eq!(
        declare_winner(&mut w, &DeclareWinner { arbiter: arbiter(), now: start + 121 }, 1),
        Err(ErrorCode::TimeoutExpired)
    );
    assert_eq!(w, before);
    let ts = refund(&mut w, &Refund { now: start + 121 }).unwrap();
    assert_eq!(ts, vec![out(Party::Player1, STAKE), out(Party::Player2, STAKE)]);
    assert!(w.is_settled);
    assert_eq!(w.winner, None);
}

#[test]
fn refund_splits_allocation_cost_evenly() {
    let start = CREATED_AT + 10;
    let mut w = active(STAKE, 3, start);
    let ts = refund(&mut w, &Refund { now: start + 500 }).unwrap();
    // (2_000_000_000 - 3) / 2
    assert_eq!(ts, vec![out(Party::Player1, 999_999_998), out(Party::Player2, 999_999_998)]);
}

#[test]
fn refund_inside_window_is_refused() {
    let start = CREATED_AT + 10;
    let mut w = active(STAKE, 0, start);
    assert_eq!(refund(&mut w, &Refund { now: start + 120 }), Err(ErrorCode::TimeoutNotExpired));
    assert!(!w.is_settled);
}

#[test]
fn refund_before_both_deposits_is_refused() {
    let mut w = create(STAKE, 0);
    deposit_player1(&mut w, &d1(CREATED_AT + 1)).unwrap();
    assert_eq!(refund(&mut w, &Refund { now: CREATED_AT + 10_000 }), Err(ErrorCode::BothPlayersNotDeposited));
}

#[test]
fn declare_before_both_deposits_is_refused() {
    let mut w = create(STAKE, 0);
    let dw = DeclareWinner { arbiter: arbiter(), now: CREATED_AT + 1 };
    assert_eq!(declare_winner(&mut w, &dw, 1), Err(ErrorCode::BothPlayersNotDeposited));
    deposit_player1(&mut w, &d1(CREATED_AT + 2)).unwrap();
    assert_eq!(declare_winner(&mut w, &dw, 1), Err(ErrorCode::BothPlayersNotDeposited));
    let late = DeclareWinner { arbiter: arbiter(), now: CREATED_AT + 1_000_000 };
    assert_eq!(declare_winner(&mut w, &late, 2), Err(ErrorCode::BothPlayersNotDeposited));
    assert!(!w.is_settled);
}

#[test]
fn declare_by_non_arbiter_is_refused() {
    let start = CREATED_AT + 10;
    let mut w = active(STAKE, 0, start);
    assert_eq!(
        declare_winner(&mut w, &DeclareWinner { arbiter: first_player(), now: start }, 1),
        Err(ErrorCode::UnauthorizedArbiter)
    );
}

#[test]
fn declare_invalid_winner_is_refused() {
    let start = CREATED_AT + 10;
    let mut w = active(STAKE, 0, start);
    let dw = DeclareWinner { arbiter: arbiter(), now: start };
    assert_eq!(declare_winner(&mut w, &dw, 0), Err(ErrorCode::InvalidWinner));
    assert_eq!(declare_winner(&mut w, &dw, 3), Err(ErrorCode::InvalidWinner));
    assert!(!w.is_settled);
}

#[test]
fn declare_with_pool_overflow_is_refused() {
    let start = CREATED_AT + 10;
    let mut doubled_too_large = active(u64::MAX / 2 + 1, 0, start);
    let dw = DeclareWinner { arbiter: arbiter(), now: start };
    assert_eq!(declare_winner(&mut doubled_too_large, &dw, 1), Err(ErrorCode::ArithmeticOverflow));
    // 2 * stake fits but the pool times 95 does not.
    let mut scaled_too_large = active(u64::MAX / 4, 0, start);
    assert_eq!(declare_winner(&mut scaled_too_large, &dw, 1), Err(ErrorCode::ArithmeticOverflow));
    assert!(!scaled_too_large.is_settled);
    let mut cost_too_large = active(5, 11, start);
    assert_eq!(declare_winner(&mut cost_too_large, &dw, 1), Err(ErrorCode::ArithmeticOverflow));
}

#[test]
fn cancel_refunds_lone_depositor() {
    let mut w = create(STAKE, 0);
    deposit_player1(&mut w, &d1(CREATED_AT + 1)).unwrap();
    let ts = cancel_wager(&mut w, &CancelWager { now: CREATED_AT + 31 }).unwrap();
    assert_eq!(ts, vec![out(Party::Player1, STAKE)]);
    assert!(w.is_settled);
}

#[test]
fn cancel_charges_allocation_cost_to_lone_depositor() {
    let mut w = create(STAKE, 2_000_000);
    deposit_player2(&mut w, &d2(CREATED_AT + 1)).unwrap();
    let ts = cancel_wager(&mut w, &CancelWager { now: CREATED_AT + 31 }).unwrap();
    assert_eq!(ts, vec![out(Party::Player2, 998_000_000)]);
}

#[test]
fn cancel_with_no_deposits_moves_nothing() {
    let mut w = create(STAKE, 0);
    let ts = cancel_wager(&mut w, &CancelWager { now: CREATED_AT + 100 }).unwrap();
    assert!(ts.is_empty());
    assert!(w.is_settled);
}

#[test]
fn cancel_inside_deposit_window_is_refused() {
    let mut w = create(STAKE, 0);
    assert_eq!(
        cancel_wager(&mut w, &CancelWager { now: CREATED_AT + 30 }),
        Err(ErrorCode::DepositTimeoutNotExpired)
    );
    assert!(!w.is_settled);
}

#[test]
fn cancel_after_both_deposits_is_refused() {
    let mut w = active(STAKE, 0, CREATED_AT + 10);
    assert_eq!(
        cancel_wager(&mut w, &CancelWager { now: CREATED_AT + 1_000 }),
        Err(ErrorCode::BothPlayersAlreadyDeposited)
    );
}

#[test]
fn cancel_with_cost_above_stake_is_refused() {
    let mut w = create(5, 6);
    deposit_player1(&mut w, &d1(CREATED_AT + 1)).unwrap();
    let before = w;
    assert_eq!(cancel_wager(&mut w, &CancelWager { now: CREATED_AT + 31 }), Err(ErrorCode::ArithmeticOverflow));
    assert_eq!(w, before);
    assert!(!w.is_settled);
}

#[test]
fn cancel_with_no_deposits_settles_even_when_cost_exceeds_stake() {
    let mut w = create(1, 5);
    let ts = cancel_wager(&mut w, &CancelWager { now: CREATED_AT + 100 }).unwrap();
    assert!(ts.is_empty());
    assert!(w.is_settled);
    assert_eq!(w.winner, None);
}

#[test]
fn settled_wager_refuses_everything() {
    let start = CREATED_AT + 10;
    let mut w = active(STAKE, 0, start);
    declare_winner(&mut w, &DeclareWinner { arbiter: arbiter(), now: start + 1 }, 2).unwrap();
    let settled = w;
    let e = Err(ErrorCode::WagerAlreadySettled);
    assert_eq!(declare_winner(&mut w, &DeclareWinner { arbiter: arbiter(), now: start + 2 }, 1), e);
    assert_eq!(refund(&mut w, &Refund { now: start + 500 }), e);
    assert_eq!(cancel_wager(&mut w, &CancelWager { now: start + 500 }), e);
    assert_eq!(deposit_player1(&mut w, &d1(start + 3)), e);
    assert_eq!(deposit_player2(&mut w, &d2(start + 3)), e);
    assert_eq!(w, settled);
}

#[test]
fn second_settlement_call_fails() {
    let start = CREATED_AT + 10;
    let mut r = active(STAKE, 0, start);
    assert!(refund(&mut r, &Refund { now: start + 200 }).is_ok());
    let after_first = r;
    assert_eq!(refund(&mut r, &Refund { now: start + 201 }), Err(ErrorCode::WagerAlreadySettled));
    assert_eq!(r, after_first);

    let mut c = create(STAKE, 0);
    assert!(cancel_wager(&mut c, &CancelWager { now: CREATED_AT + 40 }).is_ok());
    assert_eq!(cancel_wager(&mut c, &CancelWager { now: CREATED_AT + 41 }), Err(ErrorCode::WagerAlreadySettled));

    let mut d = active(STAKE, 0, start);
    let dw = DeclareWinner { arbiter: arbiter(), now: start + 5 };
    assert!(declare_winner(&mut d, &dw, 1).is_ok());
    assert_eq!(declare_winner(&mut d, &dw, 1), Err(ErrorCode::WagerAlreadySettled));
    assert_eq!(d.winner, Some(1));
}

#[test]
fn extreme_times_do_not_overflow() {
    let ctx = InitializeWager { now: i64::MIN, initialization_cost: 0, bump: 0, vault_bump: 0 };
    let mut w = initialize_wager(&ctx, first_player(), second_player(), arbiter(), fee(), STAKE).unwrap();
    assert!(cancel_wager(&mut w, &CancelWager { now: i64::MAX }).is_ok());
    let mut a = active(STAKE, 0, i64::MAX);
    assert_eq!(
        declare_winner(&mut a, &DeclareWinner { arbiter: arbiter(), now: i64::MIN }, 1).map(|t| t.len()),
        Ok(2)
    );
}
