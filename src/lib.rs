//! A typed client for a recommendation service: query strings, request
//! descriptions and the interpretation of responses, each with a contract.

pub mod text;
pub mod query;
pub mod model;
pub mod error;
pub mod request;
pub mod client;
