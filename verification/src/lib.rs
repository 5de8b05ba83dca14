//! Custodial vesting engine: a vault that exchanges a valued token for an escrow
//! claim token one to one, and vesting sessions that release locked escrow
//! tokens linearly over a fixed period.
//!
//! The engine decides and the caller acts: every operation takes the accounts
//! it concerns as plain values, checks who asks, and hands back the state that
//! results, the instructions for the token ledger and the event to report. An
//! operation that is refused changes nothing.
//!
//! - `authority`: who may do what, and the addresses derived from seeds.
//! - `reserve`: the vault's reserves, transfers and the payout of escrow tokens.
//! - `release`: the amount that a session releases at a given second.
//! - `session`: the life of a session, from creation to cancellation or exit.
//! - `instructions`: the operations of the program, built from the above.
//! - `conservation`: that a vault always backs the escrow tokens it has put out.
//! - `token_2022_validations`: which mints the engine accepts.
//! - `vesting_accounts`, `events`, `errors`, `pubkey`: the data.

pub mod authority;
pub mod conservation;
pub mod errors;
pub mod events;
pub mod instructions;
pub mod pubkey;
pub mod release;
pub mod reserve;
pub mod session;
pub mod token_2022_validations;
pub mod vesting_accounts;
