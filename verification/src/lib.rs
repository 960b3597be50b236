//! The verified core of a contract that keeps one 32-byte re-encryption key.
//!
//! Anyone may replace the key; only the account that initialised the store may
//! clear it. The handlers work on a single-record [`state::Store`] handed to
//! them explicitly, and every transition is specified in [`model`].

pub mod contract;
pub mod error;
pub mod model;
pub mod msg;
pub mod state;
