//! Token acquisition and streaming ingestion for a live vessel-position feed.
//!
//! The library holds the verified core: validating client credentials,
//! describing the token request, deciding what a token-endpoint response
//! means, and turning the raw chunk events of an open stream into an ordered
//! sequence of text records. The surrounding process (environment loading,
//! the HTTP calls themselves, the async loop) drives these functions from
//! outside.

pub mod errors;
pub mod stream;
pub mod token;
