use vstd::prelude::*;

use crate::text::{contains_char, ends_with_str, starts_with_str, str_eq};

verus! {

/// The workflow a request is dispatched to, decided by method and path alone.
#[derive(Debug, PartialEq, Eq)]
pub enum Route {
    /// `GET /`: the plain greeting.
    Home,
    /// `GET /check_store`: the store health check.
    CheckStore,
    /// `POST /doc/new`: the new-document workflow.
    NewDoc,
    /// `POST /doc/:doc_id/auth`: the per-document auth endpoint.
    AuthDoc { doc_id: String },
    /// `GET /doc/ws/:doc_id`: the live-connection entry point.
    ForwardDoc { doc_id: String },
    /// Anything else.
    NotFound,
}

/// The plain greeting served at the root path.
pub fn home_greeting() -> (r: &'static str)
    ensures
        r@ == "Y-Sweet!"@,
{
    "Y-Sweet!"
}

/// A path segment: non-empty and free of separators.
pub open spec fn is_path_segment(s: Seq<char>) -> bool {
    s.len() > 0 && forall|i: int| 0 <= i < s.len() ==> s[i] != '/'
}

/// `path` addresses the per-document auth endpoint for document `doc_id`.
pub open spec fn is_auth_doc_path(path: Seq<char>, doc_id: Seq<char>) -> bool {
    path == "/doc/"@ + doc_id + "/auth"@ && is_path_segment(doc_id)
}

/// `path` addresses the live-connection endpoint for document `doc_id`.
pub open spec fn is_forward_doc_path(path: Seq<char>, doc_id: Seq<char>) -> bool {
    path == "/doc/ws/"@ + doc_id && is_path_segment(doc_id)
}

/// Extracts the document id from a live-connection path, when the path has
/// that shape.
fn match_forward_doc_path(path: &str) -> (r: Option<String>)
    ensures
        r matches Some(d) ==> is_forward_doc_path(path@, d@),
        r is None ==> forall|d: Seq<char>| !is_forward_doc_path(path@, d),
{
    let len = path.unicode_len();
    if !starts_with_str(path, "/doc/ws/") {
        proof {
            reveal_strlit("/doc/ws/");
            assert forall|d: Seq<char>| !is_forward_doc_path(path@, d) by {
                if is_forward_doc_path(path@, d) {
                    assert(path@.subrange(0, 8) =~= "/doc/ws/"@);
                }
            }
        }
        return None;
    }
    proof {
        reveal_strlit("/doc/ws/");
    }
    let rest = path.substring_char(8, len);
    proof {
        assert forall|d: Seq<char>| is_forward_doc_path(path@, d) implies d == rest@ by {
            assert(d =~= path@.subrange(8, path@.len() as int));
        }
    }
    if rest.unicode_len() == 0 {
        return None;
    }
    if contains_char(rest, '/') {
        return None;
    }
    proof {
        assert(path@ =~= "/doc/ws/"@ + rest@);
    }
    Some(String::from_str(rest))
}

/// Extracts the document id from a per-document auth path, when the path has
/// that shape.
fn match_auth_doc_path(path: &str) -> (r: Option<String>)
    ensures
        r matches Some(d) ==> is_auth_doc_path(path@, d@),
        r is None ==> forall|d: Seq<char>| !is_auth_doc_path(path@, d),
{
    let len = path.unicode_len();
    if !starts_with_str(path, "/doc/") {
        proof {
            reveal_strlit("/doc/");
            assert forall|d: Seq<char>| !is_auth_doc_path(path@, d) by {
                if is_auth_doc_path(path@, d) {
                    assert(path@.subrange(0, 5) =~= "/doc/"@);
                }
            }
        }
        return None;
    }
    if !ends_with_str(path, "/auth") {
        proof {
            reveal_strlit("/doc/");
            reveal_strlit("/auth");
            assert forall|d: Seq<char>| !is_auth_doc_path(path@, d) by {
                if is_auth_doc_path(path@, d) {
                    assert(path@.subrange(path@.len() - 5, path@.len() as int) =~= "/auth"@);
                }
            }
        }
        return None;
    }
    if len < 11 {
        proof {
            reveal_strlit("/doc/");
            reveal_strlit("/auth");
            assert forall|d: Seq<char>| !is_auth_doc_path(path@, d) by {
                if is_auth_doc_path(path@, d) {
                    assert(path@.len() >= 11);
                }
            }
        }
        return None;
    }
    proof {
        reveal_strlit("/doc/");
        reveal_strlit("/auth");
    }
    let middle = path.substring_char(5, len - 5);
    proof {
        assert forall|d: Seq<char>| is_auth_doc_path(path@, d) implies d == middle@ by {
            assert(d =~= path@.subrange(5, path@.len() - 5));
        }
    }
    if contains_char(middle, '/') {
        return None;
    }
    proof {
        assert(path@ =~= "/doc/"@ + middle@ + "/auth"@);
    }
    Some(String::from_str(middle))
}

/// Classifies an inbound request into the workflow that owns it. Every
/// request is handled by exactly one workflow; anything outside the five
/// registered method-and-path shapes falls through to `NotFound`.
pub fn router(method: &str, path: &str) -> (r: Route)
    ensures
        method@ == "GET"@ && path@ == "/"@ ==> r == Route::Home,
        method@ == "GET"@ && path@ == "/check_store"@ ==> r == Route::CheckStore,
        method@ == "POST"@ && path@ == "/doc/new"@ ==> r == Route::NewDoc,
        r matches Route::AuthDoc { doc_id } ==> method@ == "POST"@ && is_auth_doc_path(
            path@,
            doc_id@,
        ),
        r matches Route::ForwardDoc { doc_id } ==> method@ == "GET"@ && is_forward_doc_path(
            path@,
            doc_id@,
        ),
        (method@ == "POST"@ && exists|d: Seq<char>| is_auth_doc_path(path@, d)) ==> r matches
            Route::AuthDoc { doc_id },
        (method@ == "GET"@ && exists|d: Seq<char>| is_forward_doc_path(path@, d)) ==> r matches
            Route::ForwardDoc { doc_id },
        r == Route::Home ==> method@ == "GET"@ && path@ == "/"@,
        r == Route::CheckStore ==> method@ == "GET"@ && path@ == "/check_store"@,
        r == Route::NewDoc ==> method@ == "POST"@ && path@ == "/doc/new"@,
        r == Route::NotFound ==> {
            &&& !(method@ == "GET"@ && path@ == "/"@)
            &&& !(method@ == "GET"@ && path@ == "/check_store"@)
            &&& !(method@ == "POST"@ && path@ == "/doc/new"@)
            &&& !(method@ == "POST"@ && exists|d: Seq<char>| is_auth_doc_path(path@, d))
            &&& !(method@ == "GET"@ && exists|d: Seq<char>| is_forward_doc_path(path@, d))
        },
        ({
            &&& !(method@ == "GET"@ && path@ == "/"@)
            &&& !(method@ == "GET"@ && path@ == "/check_store"@)
            &&& !(method@ == "POST"@ && path@ == "/doc/new"@)
            &&& !(method@ == "POST"@ && exists|d: Seq<char>| is_auth_doc_path(path@, d))
            &&& !(method@ == "GET"@ && exists|d: Seq<char>| is_forward_doc_path(path@, d))
        }) ==> r == Route::NotFound,
{
    proof {
        reveal_strlit("GET");
        reveal_strlit("POST");
        reveal_strlit("/");
        reveal_strlit("/check_store");
        reveal_strlit("/doc/new");
        assert("GET"@.len() == 3);
        assert("POST"@.len() == 4);
        assert("GET"@ != "POST"@);
        assert("/"@.len() == 1);
        assert("/check_store"@.len() == 12);
        assert("/check_store"@[5] == 'k');
        assert("/doc/new"@.len() == 8);
    }
    if str_eq(method, "GET") {
        if str_eq(path, "/") {
            proof {
                reveal_strlit("/");
                reveal_strlit("/doc/ws/");
                assert forall|d: Seq<char>| !is_forward_doc_path(path@, d) by {
                    if is_forward_doc_path(path@, d) {
                        assert(path@.len() >= 9);
                    }
                }
            }
            return Route::Home;
        }
        if str_eq(path, "/check_store") {
            proof {
                reveal_strlit("/check_store");
                reveal_strlit("/doc/ws/");
                assert forall|d: Seq<char>| !is_forward_doc_path(path@, d) by {
                    if is_forward_doc_path(path@, d) {
                        assert(("/doc/ws/"@ + d)[5] == 'w');
                        assert(path@[5] == 'k');
                    }
                }
            }
            return Route::CheckStore;
        }
        if let Some(doc_id) = match_forward_doc_path(path) {
            return Route::ForwardDoc { doc_id };
        }
        return Route::NotFound;
    }
    if str_eq(method, "POST") {
        if str_eq(path, "/doc/new") {
            proof {
                reveal_strlit("/doc/new");
                reveal_strlit("/doc/");
                reveal_strlit("/auth");
                assert forall|d: Seq<char>| !is_auth_doc_path(path@, d) by {
                    if is_auth_doc_path(path@, d) {
                        assert(path@.len() >= 11);
                    }
                }
            }
            return Route::NewDoc;
        }
        if let Some(doc_id) = match_auth_doc_path(path) {
            return Route::AuthDoc { doc_id };
        }
        return Route::NotFound;
    }
    Route::NotFound
}

} // verus!
