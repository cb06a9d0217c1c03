//! A minimal bank-account ledger: an append-only transaction log per account,
//! a balance derived by folding that log, a storage port that isolates the
//! domain from its persistence adapter, and the use-case layer that sequences
//! the two.

pub mod bank_account;
pub mod laws;
pub mod memory_adapter;
pub mod port;
pub mod resource;
pub mod use_case;
