//! Credential checking, session issuance and session validation for an
//! authentication service whose sessions live in an external key-value store.

pub mod clock;
pub mod credentials;
pub mod error;
pub mod service;
pub mod store;
pub mod token;
