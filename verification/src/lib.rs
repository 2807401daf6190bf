//! Client-side error model for a remote AI-service HTTP API, with the
//! classifier that turns an undecodable response body into one normalized
//! error value.

pub mod error;
pub mod json;
pub mod text;
