use y_sweet_core::auth::Authenticator;
use y_sweet_gateway::check_store::{check_store, StoreProbeOutcome};
use y_sweet_gateway::error::Error;
use y_sweet_gateway::guard::check_server_token;
use y_sweet_gateway::new_doc::new_doc;

const NOW: u64 = 1_700_000_000_000;

fn authority() -> Authenticator {
    Authenticator::gen_key().unwrap()
}

#[test]
fn disabled_auth_admits_without_headers() {
    assert_eq!(check_server_token(None, None, NOW), Ok(()));
}

#[test]
fn disabled_auth_admits_garbage_headers() {
    assert_eq!(check_server_token(None, Some("complete nonsense"), NOW), Ok(()));
    assert_eq!(check_server_token(None, Some("Bearer junk"), NOW), Ok(()));
}

#[test]
fn enabled_auth_rejects_missing_header() {
    let auth = authority();
    assert_eq!(check_server_token(Some(&auth), None, NOW), Err(Error::ExpectedAuthHeader));
}

#[test]
fn enabled_auth_rejects_non_bearer_header() {
    let auth = authority();
    let token = auth.server_token();
    assert_eq!(
        check_server_token(Some(&auth), Some(&format!("Token {}", token)), NOW),
        Err(Error::BadAuthHeader)
    );
    assert_eq!(
        check_server_token(Some(&auth), Some("bearer lowercase-scheme"), NOW),
        Err(Error::BadAuthHeader)
    );
}

#[test]
fn enabled_auth_rejects_invalid_token() {
    let auth = authority();
    assert_eq!(
        check_server_token(Some(&auth), Some("Bearer not-a-real-token"), NOW),
        Err(Error::BadAuthHeader)
    );
}

#[test]
fn enabled_auth_rejects_foreign_server_token() {
    let auth = authority();
    let other = authority();
    let token = other.server_token();
    assert_eq!(
        check_server_token(Some(&auth), Some(&format!("Bearer {}", token)), NOW),
        Err(Error::BadAuthHeader)
    );
}

#[test]
fn enabled_auth_admits_valid_server_token() {
    let auth = authority();
    let token = auth.server_token();
    assert_eq!(check_server_token(Some(&auth), Some(&format!("Bearer {}", token)), NOW), Ok(()));
}

#[test]
fn new_doc_empty_body_generates_valid_id() {
    let r = new_doc(None, None, NOW, "{}").unwrap();
    assert_eq!(r.doc.len(), 21);
    assert!(y_sweet_gateway::doc_name::validate_doc_name(&r.doc));
    assert!(y_sweet_core::api_types::validate_doc_name(&r.doc));
}

#[test]
fn new_doc_generated_ids_differ() {
    let a = new_doc(None, None, NOW, "{}").unwrap();
    let b = new_doc(None, None, NOW, "{}").unwrap();
    assert!(a.doc != b.doc);
}

#[test]
fn new_doc_keeps_requested_id() {
    let r = new_doc(None, None, NOW, "{\"doc\":\"my-doc\"}").unwrap();
    assert_eq!(r.doc, "my-doc");
}

#[test]
fn new_doc_rejects_invalid_requested_id() {
    let r = new_doc(None, None, NOW, "{\"doc\":\"bad id!\"}");
    assert_eq!(r.unwrap_err(), Error::InvalidDocName);
}

#[test]
fn new_doc_rejects_malformed_body() {
    assert_eq!(new_doc(None, None, NOW, "this is not json").unwrap_err(), Error::BadRequest);
    assert_eq!(new_doc(None, None, NOW, "").unwrap_err(), Error::BadRequest);
    assert_eq!(new_doc(None, None, NOW, "[1,2]").unwrap_err(), Error::BadRequest);
    assert_eq!(new_doc(None, None, NOW, "{\"doc\":5}").unwrap_err(), Error::BadRequest);
}

#[test]
fn new_doc_null_id_counts_as_absent() {
    let r = new_doc(None, None, NOW, "{\"doc\":null}").unwrap();
    assert_eq!(r.doc.len(), 21);
}

#[test]
fn new_doc_enforces_admission() {
    let auth = authority();
    assert_eq!(new_doc(Some(&auth), None, NOW, "{}").unwrap_err(), Error::ExpectedAuthHeader);
    assert_eq!(
        new_doc(Some(&auth), Some("Bearer junk"), NOW, "{}").unwrap_err(),
        Error::BadAuthHeader
    );
    let token = auth.server_token();
    let header = format!("Bearer {}", token);
    let r = new_doc(Some(&auth), Some(&header), NOW, "{\"doc\":\"held-doc\"}").unwrap();
    assert_eq!(r.doc, "held-doc");
}

#[test]
fn check_store_reports_reachable_store() {
    let r = check_store(None, None, NOW, StoreProbeOutcome::Reachable).unwrap();
    assert!(r.ok);
    assert!(r.error.is_none());
}

#[test]
fn check_store_classifies_connection_failure() {
    let r = check_store(None, None, NOW, StoreProbeOutcome::ConnectionFailed).unwrap();
    assert!(!r.ok);
    assert_eq!(r.error.as_deref(), Some("Connection error."));
}

#[test]
fn check_store_classifies_missing_bucket() {
    let r = check_store(None, None, NOW, StoreProbeOutcome::BucketMissing).unwrap();
    assert!(!r.ok);
    assert_eq!(r.error.as_deref(), Some("Bucket does not exist."));
}

#[test]
fn check_store_classifies_refused_credentials() {
    let r = check_store(None, None, NOW, StoreProbeOutcome::NotAuthorized).unwrap();
    assert!(!r.ok);
    assert_eq!(r.error.as_deref(), Some("Not authorized."));
}

#[test]
fn check_store_classifies_unknown_failure() {
    let r = check_store(None, None, NOW, StoreProbeOutcome::OtherFailure).unwrap();
    assert!(!r.ok);
    assert_eq!(r.error.as_deref(), Some("Unknown error."));
}

#[test]
fn check_store_enforces_admission() {
    let auth = authority();
    assert_eq!(
        check_store(Some(&auth), None, NOW, StoreProbeOutcome::Reachable).unwrap_err(),
        Error::ExpectedAuthHeader
    );
    let header = format!("Bearer {}", auth.server_token());
    let r = check_store(Some(&auth), Some(&header), NOW, StoreProbeOutcome::Reachable).unwrap();
    assert!(r.ok);
}
