use y_sweet_gateway::doc_name::{generate_doc_id, validate_doc_name};
use y_sweet_gateway::routes::{router, Route};

#[test]
fn root_routes_to_greeting() {
    assert_eq!(router("GET", "/"), Route::Home);
    assert_eq!(y_sweet_gateway::routes::home_greeting(), "Y-Sweet!");
}

#[test]
fn check_store_route() {
    assert_eq!(router("GET", "/check_store"), Route::CheckStore);
    assert_eq!(router("POST", "/check_store"), Route::NotFound);
}

#[test]
fn new_doc_route() {
    assert_eq!(router("POST", "/doc/new"), Route::NewDoc);
    assert_eq!(router("GET", "/doc/new"), Route::NotFound);
}

#[test]
fn auth_doc_route_extracts_id() {
    assert_eq!(router("POST", "/doc/my-doc/auth"), Route::AuthDoc { doc_id: "my-doc".to_string() });
    assert_eq!(router("GET", "/doc/my-doc/auth"), Route::NotFound);
}

#[test]
fn auth_doc_route_needs_single_segment() {
    assert_eq!(router("POST", "/doc//auth"), Route::NotFound);
    assert_eq!(router("POST", "/doc/a/b/auth"), Route::NotFound);
    assert_eq!(router("POST", "/doc/auth"), Route::NotFound);
}

#[test]
fn forward_route_extracts_id() {
    assert_eq!(router("GET", "/doc/ws/my-doc"), Route::ForwardDoc { doc_id: "my-doc".to_string() });
    assert_eq!(router("POST", "/doc/ws/my-doc"), Route::NotFound);
}

#[test]
fn forward_route_needs_single_segment() {
    assert_eq!(router("GET", "/doc/ws/"), Route::NotFound);
    assert_eq!(router("GET", "/doc/ws/a/b"), Route::NotFound);
}

#[test]
fn unknown_method_and_path_fall_through() {
    assert_eq!(router("DELETE", "/"), Route::NotFound);
    assert_eq!(router("GET", "/nowhere"), Route::NotFound);
}

#[test]
fn doc_names_must_be_nonempty() {
    assert!(!validate_doc_name(""));
}

#[test]
fn doc_names_accept_the_safe_alphabet() {
    assert!(validate_doc_name("ok-name_123"));
    assert!(validate_doc_name("A"));
}

#[test]
fn doc_names_reject_other_characters() {
    assert!(!validate_doc_name("bad id!"));
    assert!(!validate_doc_name("slash/inside"));
    assert!(!validate_doc_name("caf\u{e9}"));
}

#[test]
fn doc_name_rule_agrees_with_store_validator() {
    for candidate in ["", "ok-name_123", "bad id!", "A", "under_score", "tr\u{e9}ma", "a.b"] {
        assert_eq!(
            validate_doc_name(candidate),
            y_sweet_core::api_types::validate_doc_name(candidate),
        );
    }
}

#[test]
fn generated_ids_pass_both_validators() {
    let id = generate_doc_id();
    assert_eq!(id.len(), 21);
    assert!(validate_doc_name(&id));
    assert!(y_sweet_core::api_types::validate_doc_name(&id));
}
