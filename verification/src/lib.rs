//! Addressing and envelope protocol for agents exchanging events, requests
//! and responses over a topic-based publish/subscribe transport.
//!
//! The library derives topic names from semantic addressing intent
//! (broadcast, multicast, unicast) and message role, and carries messages
//! in a role-tagged JSON envelope whose payload is a separately encoded
//! JSON string.

pub mod addressing;
pub mod codec;
pub mod envelope;
pub mod error;
pub mod ident;
pub mod json;
pub mod message;
pub mod topic;
