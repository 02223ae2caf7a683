//! Secure delivery engine of a peer-to-peer encrypted messenger that talks
//! through an untrusted store-and-forward relay.
//!
//! - [`crypto`] and [`envelope`]: the identity, and the signed, encrypted
//!   envelope that the relay can neither read nor forge.
//! - [`polling`]: how a fetched blob becomes a message, what happens to the
//!   blob, and the poll cadence that follows activity and presence.
//! - [`ipc`] and [`client`]: the two ends of the control channel between the
//!   agent and its one interactive session.
//! - [`registry`], [`storage`], [`mailbox`]: the peers, the records, and the
//!   relay's addresses and replies.
//! - [`app`] and [`layout`]: the state of the interactive front-end.
//! - [`text`]: comparing, trimming and editing texts.
//! - [`primitives`], [`encoding`], [`json`], [`platform`]: what the library
//!   takes from other crates and from the machine, each call behind a
//!   contract that is believed, not proved.

pub mod app;
pub mod client;
pub mod crypto;
pub mod encoding;
pub mod envelope;
pub mod ipc;
pub mod json;
pub mod layout;
pub mod mailbox;
pub mod platform;
pub mod polling;
pub mod primitives;
pub mod registry;
pub mod storage;
pub mod text;
