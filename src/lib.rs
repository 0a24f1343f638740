//! Two-party escrowed wager: a verified state machine over a single wager
//! record, with exact, loss-free fund-distribution arithmetic.
//!
//! Each operation takes the record, the verified caller and the current time
//! from its host, and returns either the transfers the host must perform
//! (committing the new record together with them) or an error that leaves
//! the record untouched.
pub mod accounts;
pub mod address;
pub mod error;
pub mod instructions;
pub mod laws;
pub mod lifecycle;
pub mod payout;
pub mod wager;

pub use accounts::{CancelWager, DeclareWinner, DepositPlayer1, DepositPlayer2, InitializeWager, Refund};
pub use address::Address;
pub use error::ErrorCode;
pub use instructions::{
    cancel_wager, declare_winner, deposit_player1, deposit_player2, initialize_wager, refund,
};
pub use payout::{DEPOSIT_TIMEOUT_SECONDS, TIMEOUT_SECONDS, WINNER_PERCENTAGE};
pub use wager::{Party, Transfer, Wager};
