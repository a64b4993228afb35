//! A two-party atomic asset-swap (escrow) protocol for a ledger virtual
//! machine: the record codec, the derived-authority resolver, and the two
//! handlers (open and settle) that validate a caller-supplied positional
//! account list before any asset movement is authorized.
//!
//! The library works on plain account values and returns the token
//! operations to issue; the thin runtime glue that loads accounts and
//! performs the nested token-program calls lives outside it.

pub mod account;
pub mod authority;
pub mod error;
pub mod instruction;
pub mod processor;
pub mod state;
pub mod token;
