use reqscope::builder::{
    auth_choice_from_index, auth_label, build_credential, build_request, build_url, method_carries_body,
    method_from_index, method_label, parse_pairs, AuthChoice, Credential, Method, RequestInputs,
};

#[test]
fn params_append_query_to_plain_url() {
    let url = build_url("http://x/y", "a:1, b:2");
    assert_eq!(url, "http://x/y?a=1&b=2");
}

#[test]
fn params_extend_existing_query() {
    let url = build_url("http://x/y?q=1", "a:1");
    assert_eq!(url, "http://x/y?q=1&a=1");
}

#[test]
fn blank_params_leave_url_alone() {
    assert_eq!(build_url("http://x/y", ""), "http://x/y");
    assert_eq!(build_url("http://x/y", "   "), "http://x/y");
}

#[test]
fn malformed_params_are_dropped() {
    // A non-blank params text with no valid pair still opens a query string,
    // and pairs without a colon vanish from it.
    assert_eq!(build_url("http://x/y", "abc"), "http://x/y?");
    assert_eq!(build_url("http://x/y", "abc, a:1"), "http://x/y?a=1");
}

#[test]
fn header_pairs_are_trimmed_and_filtered() {
    let hs = parse_pairs("Content-Type: application/json , X-Tag:v, junk");
    assert_eq!(hs.len(), 2);
    assert_eq!(hs[0].name, "Content-Type");
    assert_eq!(hs[0].value, "application/json");
    assert_eq!(hs[1].name, "X-Tag");
    assert_eq!(hs[1].value, "v");
}

#[test]
fn empty_header_text_yields_no_pairs() {
    assert_eq!(parse_pairs("").len(), 0);
}

#[test]
fn value_keeps_later_colons() {
    let hs = parse_pairs("Host: example.com:8080");
    assert_eq!(hs.len(), 1);
    assert_eq!(hs[0].name, "Host");
    assert_eq!(hs[0].value, "example.com:8080");
}

#[test]
fn basic_auth_splits_user_and_password() {
    match build_credential(AuthChoice::Basic, "bob:secret") {
        Credential::BasicAuth { user, password } => {
            assert_eq!(user, "bob");
            assert_eq!(password, "secret");
        }
        _ => panic!("expected a basic credential"),
    }
}

#[test]
fn malformed_basic_auth_attaches_nothing() {
    match build_credential(AuthChoice::Basic, "malformed") {
        Credential::NoCredential => {}
        _ => panic!("expected no credential"),
    }
}

#[test]
fn bearer_token_is_trimmed() {
    match build_credential(AuthChoice::Bearer, "  tok  ") {
        Credential::BearerToken { token } => assert_eq!(token, "tok"),
        _ => panic!("expected a bearer credential"),
    }
}

#[test]
fn no_auth_attaches_nothing() {
    match build_credential(AuthChoice::NoAuth, "bob:secret") {
        Credential::NoCredential => {}
        _ => panic!("expected no credential"),
    }
}

#[test]
fn method_indices_and_labels_line_up() {
    assert_eq!(method_label(method_from_index(0)), "GET");
    assert_eq!(method_label(method_from_index(1)), "POST");
    assert_eq!(method_label(method_from_index(2)), "PUT");
    assert_eq!(method_label(method_from_index(3)), "DELETE");
    assert_eq!(method_label(method_from_index(4)), "PATCH");
    // The defensive fallback for an index the bounded selector never yields.
    assert_eq!(method_label(method_from_index(9)), "GET");
    assert_eq!(auth_label(auth_choice_from_index(0)), "None");
    assert_eq!(auth_label(auth_choice_from_index(1)), "Bearer");
    assert_eq!(auth_label(auth_choice_from_index(2)), "Basic");
}

#[test]
fn only_post_put_patch_carry_a_body() {
    assert!(method_carries_body(Method::Post));
    assert!(method_carries_body(Method::Put));
    assert!(method_carries_body(Method::Patch));
    assert!(!method_carries_body(Method::Get));
    assert!(!method_carries_body(Method::Delete));
}

fn inputs(method: Method, body: &str) -> RequestInputs {
    RequestInputs {
        method,
        url: String::from("http://x/y"),
        params: String::from("a:1"),
        headers: String::from("k: v"),
        body: String::from(body),
        auth_choice: AuthChoice::Bearer,
        auth_text: String::from("tok"),
    }
}

#[test]
fn build_request_assembles_every_part() {
    let r = build_request(&inputs(Method::Post, "payload"));
    assert_eq!(r.url, "http://x/y?a=1");
    assert_eq!(r.headers.len(), 1);
    assert_eq!(r.headers[0].name, "k");
    assert_eq!(r.headers[0].value, "v");
    match &r.credential {
        Credential::BearerToken { token } => assert_eq!(token, "tok"),
        _ => panic!("expected a bearer credential"),
    }
    assert_eq!(r.body.as_deref(), Some("payload"));
}

#[test]
fn get_never_carries_a_body() {
    let r = build_request(&inputs(Method::Get, "payload"));
    assert!(r.body.is_none());
    let r = build_request(&inputs(Method::Post, ""));
    assert!(r.body.is_none());
}
