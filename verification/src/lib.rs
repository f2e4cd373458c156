//! Client-side transport rules for a JSON-RPC protocol carried over HTTP.

pub mod classify;
pub mod client;
pub mod connect;
pub mod error;
pub mod headers;
pub mod media;
pub mod outcome;
pub mod request;
pub mod session;
pub mod text;
