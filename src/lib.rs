//! Startup reconciliation between a locally bundled web front end and its
//! remotely hosted origin: version comparison, the in-memory credential slot,
//! redirect URL composition and the retry policy for applying a redirect.
pub mod credential;
pub mod manifest;
pub mod redirect;
