//! The ways an operation can fail.

use vstd::prelude::*;

verus! {

/// Why an address could not be built.
#[derive(Debug, PartialEq)]
pub enum UrlError {
    /// The base and the parameters are more than
    /// [`crate::address::within_limits`] admits.
    Oversize,
    /// The base could not be parsed as an absolute URL; the parser's error.
    Rejected(url::ParseError),
}

/// Why an operation produced no result.
///
/// Every failure keeps its own variant, so a caller can tell a request that
/// was never sent from one the server refused and from a reply that could not
/// be read.
#[derive(Debug, PartialEq)]
pub enum Error {
    /// The authentication provider lacks what the text names; `token` where
    /// it holds no bearer token.
    AuthInitFailed(&'static str),
    /// The address of the request could not be built.
    Url(UrlError),
    /// The request did not reach the server, or its reply did not arrive.
    Transport,
    /// The server answered with a status outside 200..=299.
    Status(u16),
    /// The server answered with success, but the body does not have the
    /// shape the operation expects.
    Decode,
}

} // verus!
