//! A typed client for the Steam Web API.
//!
//! The library builds the requests for each endpoint, classifies the HTTP
//! outcome, and maps the JSON envelope of each answer onto typed records.
//! Sending the requests is left to the caller.

pub mod errors;
pub mod json;
pub mod client;
pub mod friends;
pub mod games;
