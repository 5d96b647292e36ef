//! A rock-paper-scissors game played for stakes: rooms are created by title,
//! two distinct players put in a stake and a move each, and the pot goes to
//! the winner of the round.
//!
//! The library holds the game's rules and the contract's bookkeeping over an
//! explicit model of its persistent state; the chain's storage, address
//! codec and message encoding stay with the caller.

pub mod contract;
pub mod error;
pub mod laws;
pub mod msg;
pub mod state;
