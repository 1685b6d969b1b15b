//! The access-control and consistency core of a small publishing API:
//! signed session tokens, the credential header, ownership-gated edits,
//! idempotent follow and favourite edges, and the mapping of storage
//! constraint failures to field-level validation errors.
//!
//! Nothing in this crate talks to the store. Operations that need it are
//! written as small state machines: each step takes the reply to
//! the previous request and answers with the next request or the final
//! result, so that every decision is verified and the driver only executes.

pub mod config;
pub mod http;
pub mod model;
pub mod store;
pub mod text;
pub mod token;
