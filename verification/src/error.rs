//! Protocol-level parse failures.

use vstd::prelude::*;

verus! {

/// Failure of request-target validation.
#[derive(Clone, Copy, Debug, PartialEq, Eq, Structural)]
pub enum InvalidUrl {
    /// The target was 65535 bytes or longer.
    TooLong,
    /// A byte outside the accepted character set occurred.
    InvalidUrlCodePoint,
}

/// Failure of request-head parsing: the request line, the headers, the
/// method token or the target were malformed.
#[derive(Clone, Copy, Debug)]
pub enum ProtocolError {
    /// The request-target was rejected.
    InvalidUrl(InvalidUrl),
    /// The method token was rejected.
    InvalidMethod,
    /// The head parser rejected the request line or a header line.
    Parser,
}

} // verus!
