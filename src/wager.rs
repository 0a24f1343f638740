use vstd::prelude::*;
use crate::address::Address;

verus! {

/// A holder of value that a settlement or deposit moves funds between.
/// `Custody` is the wager's own pooled balance.
#[derive(Debug, Clone, Copy, PartialEq, Eq, Structural)]
pub enum Party {
    Player1,
    Player2,
    FeeRecipient,
    Custody,
}

/// One movement of value that an operation asks the ledger to perform.
#[derive(Debug, Clone, Copy, PartialEq, Eq, Structural)]
pub struct Transfer {
    pub from: Party,
    pub to: Party,
    pub amount: u64,
}

/// The escrow record of one two-party bet.
#[derive(Debug, Clone, Copy, PartialEq, Eq)]
pub struct Wager {
    pub player1: Address,
    pub player2: Address,
    pub arbiter: Address,
    pub fee_recipient: Address,
    /// Stake asked of each player.
    pub wager_amount: u64,
    pub player1_deposited: bool,
    pub player2_deposited: bool,
    /// When the wager was created; opens the deposit window.
    pub creation_time: i64,
    /// When the second deposit came in; 0 until then.
    pub start_time: i64,
    /// 1 or 2, set when the arbiter declares a winner.
    pub winner: Option<u8>,
    pub is_settled: bool,
    /// Derivation seeds of the record's and the custody's storage, carried
    /// for the host.
    pub bump: u8,
    pub vault_bump: u8,
    /// One-time cost of allocating custody storage, taken from the pool
    /// before it is split.
    pub initialization_cost: u64,
}

impl Wager {
    /// The record's invariant.
    pub open spec fn wf(self) -> bool {
        &&& self.player1 != self.player2
        &&& self.wager_amount > 0
        &&& !(self.player1_deposited && self.player2_deposited) ==> self.start_time == 0
        &&& self.winner is Some ==> {
            &&& self.is_settled
            &&& self.player1_deposited
            &&& self.player2_deposited
            &&& (self.winner == Some(1u8) || self.winner == Some(2u8))
        }
    }

    /// Whether both stakes are in custody.
    pub open spec fn is_active(self) -> bool {
        self.player1_deposited && self.player2_deposited
    }

    /// Value the players have put into custody.
    pub open spec fn deposited_total(self) -> int {
        (if self.player1_deposited { self.wager_amount as int } else { 0 }) + (
        if self.player2_deposited {
            self.wager_amount as int
        } else {
            0
        })
    }
}

/// Value that a sequence of transfers takes out of custody.
pub open spec fn custody_out(ts: Seq<Transfer>) -> int
    decreases ts.len(),
{
    if ts.len() == 0 {
        0
    } else {
        custody_out(ts.drop_last()) + if ts.last().from == Party::Custody {
            ts.last().amount as int
        } else {
            0
        }
    }
}

/// Value that a sequence of transfers puts into custody.
pub open spec fn custody_in(ts: Seq<Transfer>) -> int
    decreases ts.len(),
{
    if ts.len() == 0 {
        0
    } else {
        custody_in(ts.drop_last()) + if ts.last().to == Party::Custody {
            ts.last().amount as int
        } else {
            0
        }
    }
}

} // verus!
