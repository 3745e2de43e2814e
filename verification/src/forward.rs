use vstd::prelude::*;

use crate::error::Error;

verus! {

/// The deterministic name-to-instance mapping of the actor directory: each
/// document id is owned by the backing instance addressed by exactly that id.
/// Determinism and injectivity of this mapping are what give the backing
/// engine its single-writer guarantee per document.
pub open spec fn instance_for_doc(doc_id: Seq<char>) -> Seq<char> {
    doc_id
}

/// Law: address resolution is consistent — the same document id always
/// resolves to the same backing instance — and keeps distinct documents on
/// distinct instances.
pub proof fn lemma_instance_resolution_consistent(a: Seq<char>, b: Seq<char>)
    ensures
        a == b ==> instance_for_doc(a) == instance_for_doc(b),
        a != b ==> instance_for_doc(a) != instance_for_doc(b),
{
}

/// Resolves the backing instance that owns a document.
pub fn resolve_doc_instance(doc_id: &str) -> (r: String)
    ensures
        r@ == instance_for_doc(doc_id@),
{
    String::from_str(doc_id)
}

/// The forwarding the gateway hands back to its embedding: which backing
/// instance to invoke, and the request path to preserve on the forwarded
/// request, byte for byte. The response comes back unmodified; the gateway's
/// role ends at the handoff.
#[derive(Debug)]
pub struct ForwardAction {
    pub instance: String,
    pub path: String,
}

/// Relies on y_sweet_core::auth::Authenticator::verify_doc_token: whether the
/// presented token is a well-formed, unexpired token whose capability covers
/// exactly this document (or a server token, which covers any). The outcome
/// depends on the opaque key, so nothing is promised of it.
#[verifier::external_body]
fn verify_doc_token(
    authority: &y_sweet_core::auth::Authenticator,
    token: &str,
    doc_id: &str,
    current_time_epoch_millis: u64,
) -> bool {
    authority.verify_doc_token(token, doc_id, current_time_epoch_millis).is_ok()
}

/// The live-connection entry point: plans the forwarding of a request to the
/// single backing instance that owns the document. This is the one workflow
/// that does not use the administrative guard.
///
/// With authentication enabled, the caller must present a `token` query
/// parameter — its absence is `ExpectedClientAuthHeader` — and the token must
/// verify against this document id at the current time; any verification
/// failure is `BadClientAuthHeader`. With authentication disabled, every
/// request is forwarded.
pub fn forward_to_doc_instance(
    authority: Option<&y_sweet_core::auth::Authenticator>,
    token: Option<&str>,
    current_time_epoch_millis: u64,
    doc_id: &str,
    path: &str,
) -> (r: Result<ForwardAction, Error>)
    ensures
        r matches Ok(action) ==> action.instance@ == instance_for_doc(doc_id@) && action.path@
            == path@,
        authority is None ==> r is Ok,
        authority is Some && token is None ==> r == Err::<ForwardAction, Error>(
            Error::ExpectedClientAuthHeader,
        ),
        r == Err::<ForwardAction, Error>(Error::ExpectedClientAuthHeader) ==> token is None,
        r is Err ==> authority is Some,
        r is Err ==> r == Err::<ForwardAction, Error>(Error::ExpectedClientAuthHeader) || r
            == Err::<ForwardAction, Error>(Error::BadClientAuthHeader),
{
    if let Some(authority) = authority {
        let token = match token {
            Some(token) => token,
            None => {
                return Err(Error::ExpectedClientAuthHeader);
            },
        };
        if !verify_doc_token(authority, token, doc_id, current_time_epoch_millis) {
            return Err(Error::BadClientAuthHeader);
        }
    }
    Ok(ForwardAction { instance: resolve_doc_instance(doc_id), path: String::from_str(path) })
}

} // verus!
