//! The mailbox store: one bounded, expiring first-in-first-out queue of packed
//! messages for each recipient.

pub mod laws;
pub mod model;
pub mod store;
