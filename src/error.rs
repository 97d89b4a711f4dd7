//! The failures that the proxy distinguishes.
use vstd::prelude::*;

verus! {

/// What went wrong, by the party at fault.
#[derive(Debug, Clone, Copy, PartialEq, Eq, Structural)]
pub enum ProxyError {
    /// The GET `dns` parameter is missing or is not base64url without padding.
    Decode,
    /// The wire-format message is malformed or carries no question.
    Parse,
    /// The upstream resolver failed or answered with a non-success status.
    Upstream,
    /// The cache store could not be read or written.
    Cache,
    /// The blocklist resource is missing or corrupt.
    Config,
}

} // verus!
