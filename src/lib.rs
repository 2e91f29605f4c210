//! Counter and token escrow programs: instruction decoding, account
//! validation and the state transitions of each handler, over plain
//! models of the accounts that the ledger runtime hands to a program.
pub mod account;
pub mod counter;
pub mod escrow;
pub mod hello_world;
