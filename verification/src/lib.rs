//! Core of a channel-mirroring pipeline: inbound media is classified into a
//! uniform attachment model, attachment bytes are fetched in the background,
//! the pieces are assembled into one ordered outbound message, and that
//! message is fanned out to every endpoint registered for the source channel,
//! tolerating per-item failures throughout.
//!
//! All I/O (the chat platform, the byte fetches, the endpoint sends) lives
//! outside this crate; the types and functions here are the decisions the
//! pipeline makes between those calls.

pub mod assemble;
pub mod attachments;
pub mod dispatch;
pub mod errors;
pub mod mime;
pub mod routes;
pub mod types;
