//! Helpers for keeping files in a hosted repository in step with locally
//! generated content, together with the small decisions that surround them:
//! credential selection, repository-list mirroring and key-list parsing.
//!
//! Everything here is deterministic logic on plain values.  Network, file and
//! clock access stay with the caller, which feeds results in and carries out
//! the actions handed back.

pub mod auth;
pub mod bytes;
pub mod codec;
pub mod dates;
pub mod diff;
pub mod gateway;
pub mod issues;
pub mod keys;
pub mod messages;
pub mod numbers;
pub mod paths;
pub mod reconcile;
pub mod repos;
pub mod runs;
pub mod search;
pub mod text;
