//! Typed client core for the Square commerce API.
//!
//! The crate turns method calls into fully described HTTP requests and turns
//! response text into a response envelope. Resource representations are put
//! together with a consuming builder that refuses incomplete values.

pub mod api;
pub mod builder;
pub mod client;
pub mod errors;
pub mod header;
pub mod objects;
pub mod response;
