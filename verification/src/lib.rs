//! Bids placed in an auction, and the ranking that decides which of two bids
//! currently wins.

pub mod models;
