use vstd::prelude::*;

verus! {

/// Seconds after the second deposit during which the arbiter may declare a winner.
pub const TIMEOUT_SECONDS: i64 = 120;

/// Seconds after creation during which both players are expected to deposit.
pub const DEPOSIT_TIMEOUT_SECONDS: i64 = 30;

/// Share of the distributable pool, in percent, that goes to the winner.
pub const WINNER_PERCENTAGE: u64 = 95;

/// The pool split at settlement: both stakes, less the one-time custody
/// allocation cost. `None` where doubling the stake leaves 64 bits or the
/// cost exceeds the doubled stake.
pub open spec fn distributable_of(wager_amount: u64, cost: u64) -> Option<u64> {
    if 2 * wager_amount > u64::MAX || cost > 2 * wager_amount {
        None
    } else {
        Some((2 * wager_amount - cost) as u64)
    }
}

/// The winner's share of a distributable pool, truncated.
pub open spec fn winner_share(pool: int) -> int {
    pool * WINNER_PERCENTAGE / 100
}

/// Winner's and fee recipient's amounts for a distributable pool: the fee is
/// what the truncated winner's share leaves. `None` where `pool * 95` leaves
/// 64 bits.
pub open spec fn split_of(pool: u64) -> Option<(u64, u64)> {
    if pool * WINNER_PERCENTAGE > u64::MAX {
        None
    } else {
        Some((winner_share(pool as int) as u64, (pool - winner_share(pool as int)) as u64))
    }
}

/// What one player gets back when a cancelled wager is refunded: the stake
/// less the custody allocation cost. `None` where the cost exceeds the stake.
pub open spec fn cancel_refund_of(wager_amount: u64, cost: u64) -> Option<u64> {
    if cost > wager_amount {
        None
    } else {
        Some((wager_amount - cost) as u64)
    }
}

pub fn distributable_pool(wager_amount: u64, cost: u64) -> (r: Option<u64>)
    ensures
        r == distributable_of(wager_amount, cost),
{
    match wager_amount.checked_mul(2) {
        None => None,
        Some(total) => total.checked_sub(cost),
    }
}

pub fn split_pool(pool: u64) -> (r: Option<(u64, u64)>)
    ensures
        r == split_of(pool),
        r matches Some((w, f)) ==> w + f == pool && w <= pool,
{
    match pool.checked_mul(WINNER_PERCENTAGE) {
        None => None,
        Some(scaled) => {
            let winner_amount = scaled / 100;
            assert(winner_amount <= pool);
            Some((winner_amount, pool - winner_amount))
        },
    }
}

pub fn cancel_refund(wager_amount: u64, cost: u64) -> (r: Option<u64>)
    ensures
        r == cancel_refund_of(wager_amount, cost),
{
    wager_amount.checked_sub(cost)
}

} // verus!
