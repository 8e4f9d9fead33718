//! A two-party token escrow: an initializer places asset X in a custody
//! account owned by a program-derived authority and records the amount of
//! asset Y it expects; a taker settles by paying that amount and receiving
//! the custody account's balance, after which the escrow record is destroyed.

pub mod instruction;
pub mod key;
pub mod laws;
pub mod outside;
pub mod processor;
pub mod state;
