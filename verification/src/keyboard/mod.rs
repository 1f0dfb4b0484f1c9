//! The keyboards, and what they share.

pub mod common;
pub mod pin;
pub mod passphrase;
