use vstd::prelude::*;

use crate::error::Error;
use crate::guard::{check_server_token, is_bearer_header};
use crate::text::{has_prefix, str_eq};

verus! {

/// How long a minted document token stays valid, in milliseconds.
pub const DOC_TOKEN_VALIDITY_MILLIS: u64 = 60 * 60 * 1000;

/// The connection descriptor handed back to a caller: the URL of the
/// document's live-connection endpoint, the document id, and — when
/// authentication is enabled — a token scoped to that document.
#[derive(Debug)]
pub struct ClientToken {
    pub url: String,
    pub doc: String,
    pub token: Option<String>,
}

/// The fixed path suffix of the live-connection endpoint.
pub open spec fn live_connection_path() -> Seq<char> {
    "/doc/ws"@
}

/// The canonical storage key under which a document's data is persisted;
/// the existence probe for a document asks the store about this key.
pub fn doc_storage_key(doc_id: &str) -> (r: String)
    ensures
        r@ == doc_id@ + "/data.ysweet"@,
{
    String::from_str(doc_id).concat("/data.ysweet")
}

/// What parsing a configured URL prefix yields: its scheme and its full
/// normalized serialization. URL parsing is a function of the text alone.
pub uninterp spec fn parsed_url_parts(s: Seq<char>) -> Option<(Seq<char>, Seq<char>)>;

/// Relies on url::Url::parse, Url::scheme and Url's serialization: parses an
/// absolute URL and hands back its scheme together with the whole normalized
/// serialization, which by the URL standard starts with the scheme followed
/// by a colon.
#[verifier::external_body]
fn split_url_prefix(s: &str) -> (r: Option<(String, String)>)
    ensures
        r.deep_view() == parsed_url_parts(s@),
        r matches Some(parts) ==> has_prefix(parts.1@, parts.0@ + ":"@),
{
    match url::Url::parse(s) {
        Ok(u) => Some((u.scheme().to_string(), u.to_string())),
        Err(_) => None,
    }
}

/// The live-connection scheme that stands in for a configured one: `ws`
/// replaces `http`, `wss` replaces `https`, anything else is refused.
pub fn pick_ws_scheme(scheme: &str) -> (r: Option<&'static str>)
    ensures
        scheme@ == "http"@ ==> (r matches Some(s) && s@ == "ws"@),
        scheme@ == "https"@ ==> (r matches Some(s) && s@ == "wss"@),
        (scheme@ != "http"@ && scheme@ != "https"@) ==> r is None,
{
    if str_eq(scheme, "http") {
        proof {
            reveal_strlit("http");
            reveal_strlit("https");
            assert("http"@.len() == 4);
            assert("https"@.len() == 5);
            assert(scheme@ != "https"@);
        }
        Some("ws")
    } else if str_eq(scheme, "https") {
        Some("wss")
    } else {
        None
    }
}

/// A configured prefix can be rewritten: it parses, and its scheme is `http`
/// or `https`.
pub open spec fn prefix_is_rewritable(prefix: Seq<char>) -> bool {
    parsed_url_parts(prefix) matches Some(parts) && (parts.0 == "http"@ || parts.0 == "https"@)
}

/// `u` is the connection URL the prefix rewrites to: the serialization with
/// `http` swapped for `ws` (or `https` for `wss`), the live-connection path
/// appended.
pub open spec fn prefix_rewrites_to(prefix: Seq<char>, u: Seq<char>) -> bool {
    parsed_url_parts(prefix) matches Some(parts) && ((parts.0 == "http"@ && u == "ws"@
        + parts.1.skip(parts.0.len() as int) + live_connection_path()) || (parts.0 == "https"@ && u
        == "wss"@ + parts.1.skip(parts.0.len() as int) + live_connection_path()))
}

fn url_prefix_config_error(url_prefix: &str) -> (e: Error)
    ensures
        e matches Error::ConfigurationError { field, value } && field@ == "url_prefix"@ && value@
            == url_prefix@,
{
    Error::ConfigurationError {
        field: String::from_str("url_prefix"),
        value: String::from_str(url_prefix),
    }
}

/// Rewrites the explicitly configured URL prefix into the live-connection
/// URL: `http` becomes `ws`, `https` becomes `wss`, any other scheme — or a
/// prefix that does not parse — is a configuration error; the fixed
/// live-connection path is appended.
pub fn rewrite_url_prefix(url_prefix: &str) -> (r: Result<String, Error>)
    ensures
        prefix_is_rewritable(url_prefix@) ==> (r matches Ok(u) && prefix_rewrites_to(
            url_prefix@,
            u@,
        )),
        !prefix_is_rewritable(url_prefix@) ==> (r matches Err(e) && (e matches
            Error::ConfigurationError { field, value } && field@ == "url_prefix"@ && value@
            == url_prefix@)),
        r matches Ok(u) ==> (has_prefix(u@, "wss:"@) <==> (parsed_url_parts(
            url_prefix@,
        ) matches Some(parts) && parts.0 == "https"@)),
{
    let parts = match split_url_prefix(url_prefix) {
        None => {
            return Err(url_prefix_config_error(url_prefix));
        },
        Some(parts) => parts,
    };
    let (scheme, serialized) = parts;
    proof {
        assert(parsed_url_parts(url_prefix@) == Some((scheme@, serialized@)));
    }
    let new_scheme = match pick_ws_scheme(scheme.as_str()) {
        None => {
            return Err(url_prefix_config_error(url_prefix));
        },
        Some(new_scheme) => new_scheme,
    };
    let scheme_len = scheme.as_str().unicode_len();
    let total_len = serialized.as_str().unicode_len();
    let rest = serialized.as_str().substring_char(scheme_len, total_len);
    let rewritten = String::from_str(new_scheme).concat(rest).concat("/doc/ws");
    proof {
        reveal_strlit("http");
        reveal_strlit("https");
        reveal_strlit("ws");
        reveal_strlit("wss");
        reveal_strlit("wss:");
        reveal_strlit(":");
        let rest_seq = serialized@.skip(scheme@.len() as int);
        assert(serialized@.subrange(0, scheme@.len() as int + 1) == scheme@ + ":"@);
        assert((scheme@ + ":"@)[scheme@.len() as int] == ":"@[0]);
        assert(serialized@[scheme@.len() as int] == ':');
        assert(rest_seq[0] == ':');
        assert(rewritten@ =~= new_scheme@ + rest_seq + live_connection_path());
        if scheme@ == "https"@ {
            assert(new_scheme@ == "wss"@);
            assert(rewritten@.subrange(0, 4) =~= "wss:"@);
            assert(has_prefix(rewritten@, "wss:"@));
        } else {
            assert(scheme@ == "http"@);
            assert(new_scheme@ == "ws"@);
            assert(rewritten@[2] == ':');
            if has_prefix(rewritten@, "wss:"@) {
                assert(rewritten@.subrange(0, 4)[2] == rewritten@[2]);
                assert("wss:"@[2] == 's');
                assert(false);
            }
        }
    }
    Ok(rewritten)
}

/// The platform sets this header to the request protocol; only the exact
/// value `https` counts as secure — anything else, including its absence,
/// does not.
pub open spec fn is_secure_request(x_forwarded_proto: Option<Seq<char>>) -> bool {
    x_forwarded_proto matches Some(p) && p == "https"@
}

/// The connection URL inferred from the request itself.
pub open spec fn inferred_connection_url(host: Seq<char>, secure: bool) -> Seq<char> {
    (if secure {
        "wss://"@
    } else {
        "ws://"@
    }) + host + live_connection_path()
}

/// Composes the live-connection URL from the request's own `Host` header and
/// the forwarded protocol: `wss` exactly when the request came over `https`.
pub fn infer_connection_url(host: &str, x_forwarded_proto: Option<&str>) -> (r: String)
    ensures
        r@ == inferred_connection_url(
            host@,
            is_secure_request(x_forwarded_proto.deep_view()),
        ),
{
    let secure = match x_forwarded_proto {
        Some(p) => str_eq(p, "https"),
        None => false,
    };
    let scheme = if secure {
        "wss://"
    } else {
        "ws://"
    };
    String::from_str(scheme).concat(host).concat("/doc/ws")
}

/// Law: the inferred connection URL carries the secure scheme `wss` exactly
/// when the request itself was secure; otherwise it carries `ws`.
pub proof fn lemma_inferred_scheme_secure(host: Seq<char>, secure: bool)
    ensures
        has_prefix(inferred_connection_url(host, secure), "wss:"@) <==> secure,
{
    reveal_strlit("wss://");
    reveal_strlit("ws://");
    reveal_strlit("wss:");
    assert("wss://"@.len() == 6);
    assert("ws://"@.len() == 5);
    assert("wss:"@.len() == 4);
    let u = inferred_connection_url(host, secure);
    if secure {
        assert(u.subrange(0, 4) =~= "wss:"@);
    } else {
        assert(u[2] == ':');
        if has_prefix(u, "wss:"@) {
            assert(u.subrange(0, 4)[2] == u[2]);
            assert("wss:"@[2] == 's');
            assert(false);
        }
    }
}

/// Relies on y_sweet_core::auth::Authenticator::gen_doc_token: mints a bearer
/// token whose capability is scoped to exactly `doc_id`, with full
/// authorization, expiring at the given time. The token's text depends on the
/// authority's opaque key, so nothing is promised of it.
#[verifier::external_body]
fn gen_doc_token(
    authority: &y_sweet_core::auth::Authenticator,
    doc_id: &str,
    expiration_time_epoch_millis: u64,
) -> String {
    authority.gen_doc_token(
        doc_id,
        y_sweet_core::api_types::Authorization::Full,
        y_sweet_core::auth::ExpirationTimeEpochMillis(expiration_time_epoch_millis),
    )
}

/// When a token minted now stops being valid; pinned at the far end of the
/// clock rather than wrapping around.
pub fn token_expiration(current_time_epoch_millis: u64) -> (r: u64)
    ensures
        r == if current_time_epoch_millis + DOC_TOKEN_VALIDITY_MILLIS <= u64::MAX {
            current_time_epoch_millis + DOC_TOKEN_VALIDITY_MILLIS
        } else {
            u64::MAX as int
        },
{
    if current_time_epoch_millis <= u64::MAX - DOC_TOKEN_VALIDITY_MILLIS {
        current_time_epoch_millis + DOC_TOKEN_VALIDITY_MILLIS
    } else {
        u64::MAX
    }
}

/// The per-document auth endpoint: issues a connection descriptor for a
/// document that was created earlier.
///
/// Admission control (administrative token) runs first and its rejections
/// propagate unchanged. The document must exist in the store — the embedding
/// probes the canonical storage key and hands in the outcome; a failed probe
/// is an upstream connectivity error, an absent document is `NoSuchDocument`.
/// A document token is minted exactly when authentication is enabled. The URL
/// comes from the configured prefix when there is one, and is otherwise
/// inferred from the `Host` header — whose absence is fatal — and the
/// forwarded protocol.
pub fn auth_doc(
    authority: Option<&y_sweet_core::auth::Authenticator>,
    auth_header: Option<&str>,
    current_time_epoch_millis: u64,
    doc_id: &str,
    probe: Result<bool, ()>,
    url_prefix: Option<&str>,
    host: Option<&str>,
    x_forwarded_proto: Option<&str>,
) -> (r: Result<ClientToken, Error>)
    ensures
        authority is Some && auth_header is None ==> r == Err::<ClientToken, Error>(
            Error::ExpectedAuthHeader,
        ),
        (authority is Some && (auth_header matches Some(h) && !is_bearer_header(h@))) ==> r
            == Err::<ClientToken, Error>(Error::BadAuthHeader),
        authority is None ==> !(r == Err::<ClientToken, Error>(Error::ExpectedAuthHeader) || r
            == Err::<ClientToken, Error>(Error::BadAuthHeader)),
        r == Err::<ClientToken, Error>(Error::UpstreamConnectionError) ==> probe is Err,
        r == Err::<ClientToken, Error>(Error::NoSuchDocument) ==> probe == Ok::<bool, ()>(false),
        authority is None && probe is Err ==> r == Err::<ClientToken, Error>(
            Error::UpstreamConnectionError,
        ),
        authority is None && probe == Ok::<bool, ()>(false) ==> r == Err::<ClientToken, Error>(
            Error::NoSuchDocument,
        ),
        r matches Ok(ct) ==> probe == Ok::<bool, ()>(true),
        r matches Ok(ct) ==> ct.doc@ == doc_id@,
        r matches Ok(ct) ==> (ct.token is Some <==> authority is Some),
        r matches Ok(ct) ==> match url_prefix {
            Some(p) => prefix_rewrites_to(p@, ct.url@),
            None => host matches Some(h) && ct.url@ == inferred_connection_url(
                h@,
                is_secure_request(x_forwarded_proto.deep_view()),
            ),
        },
        r == Err::<ClientToken, Error>(Error::ExpectedAuthHeader) ==> auth_header is None,
        r == Err::<ClientToken, Error>(Error::BadAuthHeader) ==> auth_header is Some,
        r == Err::<ClientToken, Error>(Error::MissingHostHeader) ==> url_prefix is None && host
            is None && probe == Ok::<bool, ()>(true),
        (authority is None && probe == Ok::<bool, ()>(true) && url_prefix is None && host is None)
            ==> r == Err::<ClientToken, Error>(Error::MissingHostHeader),
        r matches Err(e) ==> (e matches Error::ConfigurationError { field, value } ==> (
        url_prefix matches Some(p) && !prefix_is_rewritable(p@) && field@ == "url_prefix"@
            && value@ == p@ && probe == Ok::<bool, ()>(true))),
        r matches Err(e) ==> (e == Error::ExpectedAuthHeader || e == Error::BadAuthHeader || e
            == Error::UpstreamConnectionError || e == Error::NoSuchDocument || e
            == Error::MissingHostHeader || e matches Error::ConfigurationError { .. }),
{
    check_server_token(authority, auth_header, current_time_epoch_millis)?;
    let exists = match probe {
        Ok(exists) => exists,
        Err(_) => {
            return Err(Error::UpstreamConnectionError);
        },
    };
    if !exists {
        return Err(Error::NoSuchDocument);
    }
    let token = match authority {
        Some(authority) => Some(
            gen_doc_token(authority, doc_id, token_expiration(current_time_epoch_millis)),
        ),
        None => None,
    };
    let url = match url_prefix {
        Some(prefix) => rewrite_url_prefix(prefix)?,
        None => {
            let host = match host {
                Some(host) => host,
                None => {
                    return Err(Error::MissingHostHeader);
                },
            };
            infer_connection_url(host, x_forwarded_proto)
        },
    };
    Ok(ClientToken { url, doc: String::from_str(doc_id), token })
}

} // verus!
