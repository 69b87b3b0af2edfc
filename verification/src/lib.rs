//! Account and inventory ledger: typed Product and User records with
//! server-assigned ids and timestamps, name uniqueness, sparse partial
//! updates, and balance mutations (deposit, spend, purchase, transfer) that
//! either complete or leave the store untouched, together with the
//! request-level parsing and the mapping of outcomes to HTTP status codes.
//!
//! Every operation carries a contract over the store's mathematical view
//! (sequences of rows); the embedding program owns transport, durability
//! and serialisation.

pub mod api;
pub mod clock;
pub mod config;
pub mod error;
pub mod models;
pub mod patch;
pub mod settings;
pub mod store;
