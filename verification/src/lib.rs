//! A minimal HTTP/1.1 client protocol engine.
//!
//! The crate models requests and responses as plain values, serializes a
//! request into HTTP/1.1 start-line + header + blank-line + body framing,
//! and parses a raw response byte stream into a status code, a header map
//! and a body.  Socket I/O is left to the caller; the engine only decides
//! what bytes to write and what the bytes that came back mean.

pub mod client;
pub mod error;
pub mod headers;
pub mod laws;
pub mod method;
pub mod parse;
pub mod request;
pub mod response;
pub mod serialize;
pub mod text;
pub mod url_parts;
