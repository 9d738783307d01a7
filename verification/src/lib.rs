//! Resolves a video-hosting platform's page URLs into playable media
//! stream URLs at a chosen resolution and container format.
//!
//! The crate holds the verified core of the resolver: URL classification,
//! the response-envelope and transport-status decoding, the resolution
//! policy with its credential gate, and the per-resource flow that plans
//! each network call and judges its answer. The calls themselves are the
//! caller's to perform, against the plain request descriptions the flow
//! hands out.

pub mod bilibili;
pub mod codes;
pub mod envelope;
pub mod error;
pub mod numtext;
pub mod source;
pub mod transport;
pub mod urlparts;
