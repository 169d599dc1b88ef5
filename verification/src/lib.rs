//! Sealing a payload to a key that an attestation-gated key service hands out,
//! and opening it again by asking that service once more.
//!
//! The crate holds the rules of that scheme: how a retry policy is validated,
//! in which order key servers are asked and when resolution gives up, how a
//! resolved key is decoded, how the key agent is invoked and its output read,
//! and what the header of a sealed envelope embeds.  Reading streams, running
//! the agent and sleeping between attempts are left to the caller.

pub mod text;

pub mod error;

pub mod retry;

pub mod engine;

pub mod json;

pub mod key;

pub mod config;

pub mod attester;

pub mod envelope;

pub use crate::config::{Config, Initdata, Server};
pub use crate::key::Key;
pub use crate::retry::NumRetries;
