//! The custody ledger of a token exchange: market and order records, the
//! instructions that act on them, and the transitions that apply an
//! instruction to the accounts it names.

pub mod codec;
pub mod error;
pub mod instruction;
pub mod laws;
pub mod processor;
pub mod pubkey;
pub mod state;
pub mod token;
