//! Core of an ephemeral local upload server: a desktop host opens a temporary
//! listener on the local network, a phone browser uploads images to it through
//! a plain web form, and the host is notified as each image arrives.
//!
//! This crate holds the server's logic — lifecycle of the single session,
//! validation and planning of multipart upload parts, aggregate outcome
//! reporting, and asset retrieval decisions — each function with a verified
//! contract. The surrounding I/O (the listener, the multipart stream, the
//! file writes and reads) lives in the embedding program, which hands plain
//! values in and carries the decided actions out.

pub mod errors;
pub mod json;
pub mod lifecycle;
pub mod media;
pub mod routes;
pub mod upload;
