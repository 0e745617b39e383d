//! A treasury-and-governance ledger: a fixed-price sale of a program-issued
//! asset against native value, and a registry of voters and time-bounded
//! proposals with one vote per voter.
//!
//! Every sub-account the program controls sits at an address derived from
//! fixed seed labels and the program's identity; authority over it is the
//! derivation proof (the bump), never a private key.

pub mod address;
pub mod error;
pub mod state;
pub mod treasury;
pub mod governance;
