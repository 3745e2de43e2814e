use vstd::prelude::*;

verus! {

/// Failures the gateway reports to callers. Each variant corresponds to one
/// classified rejection of the request; none of them echoes internal detail.
#[derive(Debug, PartialEq, Eq)]
pub enum Error {
    /// An administrative endpoint was called without an `Authorization` header.
    ExpectedAuthHeader,
    /// The `Authorization` header was present but not a valid bearer token.
    BadAuthHeader,
    /// A live-connection request carried no `token` query parameter while
    /// authentication is enabled.
    ExpectedClientAuthHeader,
    /// The presented document token failed verification for the document.
    BadClientAuthHeader,
    /// The request body could not be parsed.
    BadRequest,
    /// The requested document id does not satisfy the naming rule.
    InvalidDocName,
    /// The addressed document was never created.
    NoSuchDocument,
    /// The document store could not be reached for a probe.
    UpstreamConnectionError,
    /// A URL had to be inferred from the request, but no `Host` header came.
    MissingHostHeader,
    /// A configured value could not be used as required.
    ConfigurationError { field: String, value: String },
    /// An invariant the gateway relies on did not hold at runtime.
    InternalError,
}

} // verus!
