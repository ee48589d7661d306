//! The error taxonomy: construction errors, transport errors and parse
//! errors, each returned to the immediate caller of the failing operation.

use vstd::prelude::*;

verus! {

/// Errors raised while a request is being constructed.
#[derive(Clone, Copy, Debug, PartialEq, Eq, Structural)]
pub enum RequestError {
    /// The requested timeout is ten seconds or less.
    InvalidTimeout,
    /// The URL text could not be parsed as an absolute URL.
    MalformedUrl,
    /// An unrecognized method token reached `build`.
    InvalidMethod,
}

/// Errors raised while a client configuration is being constructed.
#[derive(Clone, Copy, Debug, PartialEq, Eq, Structural)]
pub enum ClientError {
    /// The version token does not map to a known HTTP version.
    InvalidHttpVersion,
}

/// Errors raised while a request is on the wire.
#[derive(Clone, Copy, Debug, PartialEq, Eq, Structural)]
pub enum TransportError {
    /// The URL lacks a host, so no connection can be opened.
    HostUnresolved,
    /// The connection could not be established.
    ConnectFailed,
    /// The serialized request could not be fully transmitted.
    WriteFailed,
    /// The response stream could not be read.
    ReadFailed,
    /// The per-operation timeout elapsed.
    Timeout,
}

/// Errors raised while a response is being parsed.
#[derive(Clone, Copy, Debug, PartialEq, Eq, Structural)]
pub enum ParseError {
    /// The connection closed before any byte arrived.
    EmptyResponse,
    /// The status line has fewer than three tokens.
    InvalidStatusLine,
    /// The status line's second token is not an unsigned 16-bit integer.
    InvalidStatusCode,
}

/// Any failure this crate reports, grouped by the stage that raised it.
#[derive(Clone, Copy, Debug, PartialEq, Eq, Structural)]
pub enum ErrorKind {
    Request(RequestError),
    Client(ClientError),
    Transport(TransportError),
    Parse(ParseError),
}

} // verus!
