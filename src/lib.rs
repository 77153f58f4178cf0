//! Authenticity batches, one-time redemption codes and the treasury payout
//! that a redemption triggers, as verified state transitions.
pub mod clock;
pub mod key;
pub mod laws;
pub mod lifecycle;
pub mod records;
pub mod redemption;
