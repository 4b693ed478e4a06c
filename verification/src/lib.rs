//! Verified core of a token escrow program: a maker locks tokens of one mint
//! in a vault owned by a program-derived escrow account and names how many
//! tokens of a second mint it wants back; a taker completes the exchange, or
//! the maker takes the locked tokens back.
pub mod address;
pub mod pda;
pub mod programs;
pub mod state;
pub mod error;
pub mod accounts;
pub mod cpi;
pub mod instructions;
pub mod escrow_contract;
pub mod ledger;
pub mod laws;
pub mod acceptance;
