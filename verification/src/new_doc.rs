use vstd::prelude::*;

use crate::doc_name::{generate_doc_id, valid_doc_name, validate_doc_name};
use crate::error::Error;
use crate::guard::{check_server_token, is_bearer_header};

verus! {

/// Confirmation of a created document: the final id is its sole content.
#[derive(Debug)]
pub struct NewDocResponse {
    pub doc: String,
}

/// What parsing a creation request's body yields: the optional requested id,
/// or a malformed-body error. Parsing is a function of the body text alone.
pub uninterp spec fn parsed_doc_request(body: Seq<char>) -> Result<Option<Seq<char>>, ()>;

/// Relies on serde_json::from_str and serde_json::Map::get: reads the request
/// body as a JSON object whose optional field "doc" holds a string. A missing
/// or null field yields no requested id; a body that is not a JSON object, or
/// whose "doc" field is neither a string nor null, is malformed.
#[verifier::external_body]
fn parse_doc_creation_request(body: &str) -> (r: Result<Option<String>, ()>)
    ensures
        match r {
            Ok(requested) => parsed_doc_request(body@) == Ok::<Option<Seq<char>>, ()>(
                requested.deep_view(),
            ),
            Err(_) => parsed_doc_request(body@) is Err,
        },
{
    match serde_json::from_str::<serde_json::Value>(body) {
        Ok(serde_json::Value::Object(fields)) => match fields.get("doc") {
            None => Ok(None),
            Some(serde_json::Value::Null) => Ok(None),
            Some(serde_json::Value::String(requested)) => Ok(Some(requested.clone())),
            Some(_) => Err(()),
        },
        Ok(_) => Err(()),
        Err(_) => Err(()),
    }
}

/// Picks the id a creation request settles on: the caller's requested id when
/// one was supplied, the generated one otherwise.
pub open spec fn chosen_doc_id(requested: Option<Seq<char>>, generated: Seq<char>) -> Seq<char> {
    match requested {
        Some(d) => d,
        None => generated,
    }
}

/// Settles the id for a creation request, given the parsed body and a fresh
/// generated id. A malformed body is rejected as `BadRequest`; the settled id
/// is then held to the naming rule — even a generated one, as a defensive
/// invariant — and rejected as `InvalidDocName` when it fails.
pub fn decide_doc_id(parsed: Result<Option<String>, ()>, generated: String) -> (r: Result<
    String,
    Error,
>)
    ensures
        parsed is Err ==> r == Err::<String, Error>(Error::BadRequest),
        parsed matches Ok(requested) ==> {
            let chosen = chosen_doc_id(requested.deep_view(), generated@);
            if valid_doc_name(chosen) {
                r matches Ok(id) && id@ == chosen
            } else {
                r == Err::<String, Error>(Error::InvalidDocName)
            }
        },
        r matches Ok(id) ==> valid_doc_name(id@),
{
    let doc_id = match parsed {
        Err(_) => {
            return Err(Error::BadRequest);
        },
        Ok(Some(requested)) => requested,
        Ok(None) => generated,
    };
    if !validate_doc_name(doc_id.as_str()) {
        return Err(Error::InvalidDocName);
    }
    Ok(doc_id)
}

/// The New-Document workflow, up to the point where the settled id is handed
/// to the document store for first-time initialization.
///
/// Admission control runs first and its rejections propagate unchanged. The
/// body is then parsed for an optional requested id; when none is supplied a
/// fresh random id is generated. The settled id always passes the naming
/// rule. Initializing the document under the returned id — and failing the
/// request if that initialization fails — is the embedding's step.
pub fn new_doc(
    authority: Option<&y_sweet_core::auth::Authenticator>,
    auth_header: Option<&str>,
    current_time_epoch_millis: u64,
    body: &str,
) -> (r: Result<NewDocResponse, Error>)
    ensures
        authority is Some && auth_header is None ==> r == Err::<NewDocResponse, Error>(
            Error::ExpectedAuthHeader,
        ),
        (authority is Some && (auth_header matches Some(h) && !is_bearer_header(h@))) ==> r
            == Err::<NewDocResponse, Error>(Error::BadAuthHeader),
        authority is None ==> !(r == Err::<NewDocResponse, Error>(Error::ExpectedAuthHeader) || r
            == Err::<NewDocResponse, Error>(Error::BadAuthHeader)),
        r matches Ok(resp) ==> valid_doc_name(resp.doc@),
        r matches Err(e) ==> (e == Error::ExpectedAuthHeader || e == Error::BadAuthHeader || e
            == Error::BadRequest || e == Error::InvalidDocName),
        r == Err::<NewDocResponse, Error>(Error::ExpectedAuthHeader) ==> auth_header is None,
        r == Err::<NewDocResponse, Error>(Error::BadAuthHeader) ==> auth_header is Some,
        !(r == Err::<NewDocResponse, Error>(Error::ExpectedAuthHeader) || r == Err::<
            NewDocResponse,
            Error,
        >(Error::BadAuthHeader)) ==> match parsed_doc_request(body@) {
            Err(_) => r == Err::<NewDocResponse, Error>(Error::BadRequest),
            Ok(requested) => match requested {
                Some(d) => if valid_doc_name(d) {
                    r matches Ok(resp) && resp.doc@ == d
                } else {
                    r == Err::<NewDocResponse, Error>(Error::InvalidDocName)
                },
                None => r matches Ok(resp) && resp.doc@.len() == 21,
            },
        },
{
    check_server_token(authority, auth_header, current_time_epoch_millis)?;
    let parsed = parse_doc_creation_request(body);
    let generated = generate_doc_id();
    let doc_id = decide_doc_id(parsed, generated)?;
    Ok(NewDocResponse { doc: doc_id })
}

} // verus!
