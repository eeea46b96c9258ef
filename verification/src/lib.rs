//! The core of a small URL-shortening service: an append-only store of
//! token-to-target mappings, a random alphanumeric token generator,
//! query-string argument extraction, and the router that classifies each
//! request by method and path and shapes its response.

pub mod query;
pub mod router;
pub mod store;
pub mod token;
