//! Errors reported by the API client.

use vstd::prelude::*;

verus! {

/// Everything an API call can fail with.
///
/// Transport and decode failures come from the collaborators that perform
/// the HTTP exchange and the JSON mapping; the other variants are produced
/// by the client's own logic.
#[derive(Debug, Clone, PartialEq, Eq)]
pub enum Error {
    /// A private call was attempted while no credentials are stored.
    NotLoggedIn,
    /// An order-book depth outside `[0, 50]` was requested.
    DepthOutOfRange(u8),
    /// The network or HTTP layer failed; the text is the transport's own.
    Transport(String),
    /// The response body did not match the expected shape; the text is the
    /// decoder's own.
    Decode(String),
    /// The envelope claimed success but carried no result.
    MissingResult,
    /// The envelope reported failure; the server's message, verbatim.
    Api(String),
    /// A successful single-market summary response carried no summary.
    MissingSummary,
}

} // verus!
