//! An encrypted password vault and the session logic of the agent that keeps it open.
//!
//! The vault's payload is sealed with AES-256-GCM under a key derived from the
//! master password with Argon2id. Every function here carries a contract that
//! Verus proves; calls into other crates stand behind small trusted wrappers.

pub mod agent;
pub mod client;
pub mod codec;
pub mod encryption;
pub mod entries;
pub mod errors;
pub mod handlers;
pub mod models;
pub mod payload;
pub mod random;
pub mod secret;
pub mod vault;
