//! Authentication gate and interaction dispatch for a chat-platform webhook.
//!
//! A request is checked against its Ed25519 signature, its JSON body is
//! decoded into a closed set of interactions, each interaction is mapped to
//! an outcome, and each outcome is rendered as the JSON reply the platform
//! expects.
pub mod error;
pub mod handler;
pub mod interaction;
pub mod json;
pub mod registration;
pub mod response;
pub mod signature;
