use vstd::prelude::*;

use crate::error::Error;
use crate::guard::{check_server_token, is_bearer_header};

verus! {

/// What a probe of the document store came back with, reduced to the four
/// failure categories the gateway distinguishes. The embedding performs the
/// probe and maps the store's error onto these.
#[derive(Debug, Clone, Copy, PartialEq, Eq)]
pub enum StoreProbeOutcome {
    /// The probe succeeded.
    Reachable,
    /// The store could not be reached.
    ConnectionFailed,
    /// The backing container for documents does not exist.
    BucketMissing,
    /// The store refused the credentials.
    NotAuthorized,
    /// Any other failure.
    OtherFailure,
}

/// The caller-facing diagnostic shape of the health check.
#[derive(Debug)]
pub struct CheckStoreResponse {
    pub ok: bool,
    pub error: Option<String>,
}

/// The fixed message each failure category maps to. Internal error detail is
/// deliberately never echoed to the caller.
pub open spec fn store_failure_message(outcome: StoreProbeOutcome) -> Seq<char> {
    match outcome {
        StoreProbeOutcome::Reachable => Seq::<char>::empty(),
        StoreProbeOutcome::ConnectionFailed => "Connection error."@,
        StoreProbeOutcome::BucketMissing => "Bucket does not exist."@,
        StoreProbeOutcome::NotAuthorized => "Not authorized."@,
        StoreProbeOutcome::OtherFailure => "Unknown error."@,
    }
}

/// The Store Health Check workflow.
///
/// Admission control runs first and its rejections propagate unchanged. The
/// probe's outcome is then classified into the diagnostic shape: a successful
/// probe reports `ok` with no message, a failed one reports its category's
/// fixed message and nothing more.
pub fn check_store(
    authority: Option<&y_sweet_core::auth::Authenticator>,
    auth_header: Option<&str>,
    current_time_epoch_millis: u64,
    probe: StoreProbeOutcome,
) -> (r: Result<CheckStoreResponse, Error>)
    ensures
        authority is Some && auth_header is None ==> r == Err::<CheckStoreResponse, Error>(
            Error::ExpectedAuthHeader,
        ),
        (authority is Some && (auth_header matches Some(h) && !is_bearer_header(h@))) ==> r
            == Err::<CheckStoreResponse, Error>(Error::BadAuthHeader),
        authority is None ==> r is Ok,
        r matches Err(e) ==> (e == Error::ExpectedAuthHeader || e == Error::BadAuthHeader),
        r == Err::<CheckStoreResponse, Error>(Error::ExpectedAuthHeader) ==> auth_header is None,
        r == Err::<CheckStoreResponse, Error>(Error::BadAuthHeader) ==> auth_header is Some,
        r matches Ok(resp) ==> {
            &&& resp.ok == (probe == StoreProbeOutcome::Reachable)
            &&& (probe == StoreProbeOutcome::Reachable ==> resp.error is None)
            &&& (probe != StoreProbeOutcome::Reachable ==> (resp.error matches Some(m) && m@
                == store_failure_message(probe)))
        },
{
    check_server_token(authority, auth_header, current_time_epoch_millis)?;
    let response = match probe {
        StoreProbeOutcome::Reachable => CheckStoreResponse { ok: true, error: None },
        StoreProbeOutcome::ConnectionFailed => CheckStoreResponse {
            ok: false,
            error: Some(String::from_str("Connection error.")),
        },
        StoreProbeOutcome::BucketMissing => CheckStoreResponse {
            ok: false,
            error: Some(String::from_str("Bucket does not exist.")),
        },
        StoreProbeOutcome::NotAuthorized => CheckStoreResponse {
            ok: false,
            error: Some(String::from_str("Not authorized.")),
        },
        StoreProbeOutcome::OtherFailure => CheckStoreResponse {
            ok: false,
            error: Some(String::from_str("Unknown error.")),
        },
    };
    Ok(response)
}

} // verus!
