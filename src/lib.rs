//! A credential-caching client for a secrets server that logs in through an
//! identity-federation endpoint.
//!
//! The library keeps one session token per role, decides when a cached token
//! may still be presented, builds the requests that the server expects and
//! turns its replies into cache updates, secrets or typed errors. Sending the
//! requests is left to the caller.

pub mod auth;
pub mod json;
pub mod error;
pub mod secret;
pub mod body;
pub mod client;
