//! Escrowed, time-boxed payments for metered sessions between a paying user
//! and an expert, together with the identity registry that records which
//! experts are verified.
//!
//! The crate holds the rules only. A host supplies the current time with each
//! call, authenticates the caller it names, carries out the token transfers
//! that an operation records, and publishes the notifications it logs. Of
//! the host's own types the crate keeps one, the vector, for the lists of
//! booking ids that a contract stores and returns as they are.

pub mod address;
pub mod registry;
pub mod table;
pub mod vault;
