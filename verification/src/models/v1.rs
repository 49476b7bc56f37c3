//! First version of the auction model.

pub mod bid;
pub mod clock;
pub mod ranking;
pub mod timestamp;
