use recordbase::client::{AuthError, Client, ErrorResponse, ValidationError};
use recordbase::error::ApiError;
use recordbase::httpc::ScriptTransport;

fn script(responses: Vec<(u16, &str)>) -> ScriptTransport {
    ScriptTransport::new(responses.into_iter().map(|(s, b)| (s, b.to_string())).collect())
}

#[test]
fn new_client_is_anonymous() {
    let c = Client::new("http://localhost:8090");
    assert_eq!(c.base_url, "http://localhost:8090");
    assert_eq!(c.auth_token, None);
}

#[test]
fn auth_success_produces_authenticated_client() {
    let c = Client::new("http://localhost:8090");
    let mut t = script(vec![(200, r#"{"token":"abc"}"#)]);
    let c2 = c.auth_with_password(&mut t, "users", "ada", "secret").unwrap();
    assert_eq!(c2.auth_token, Some("abc".to_string()));
    assert_eq!(c2.base_url, "http://localhost:8090");
    // the anonymous client is untouched
    assert_eq!(c.auth_token, None);
    // the login request itself
    let req = &t.sent[0];
    assert_eq!(req.url, "http://localhost:8090/api/collections/users/auth-with-password");
    assert_eq!(req.headers, vec![("Content-Type".to_string(), "application/json".to_string())]);
    assert_eq!(req.body.as_deref(), Some(r#"{"identity":"ada","password":"secret"}"#));
}

#[test]
fn authenticated_requests_carry_the_raw_token() {
    let c = Client::new("http://base");
    let mut t = script(vec![(200, r#"{"token":"abc"}"#)]);
    let c2 = c.auth_with_password(&mut t, "users", "ada", "pw").unwrap();
    let mut t2 = script(vec![(
        200,
        r#"{"page":1,"perPage":100,"totalItems":0,"items":[]}"#,
    )]);
    c2.records("posts").list().call(&mut t2).unwrap();
    let sent = &t2.sent[0];
    assert!(sent
        .headers
        .iter()
        .any(|(k, v)| k == "Authorization" && v == "abc"));
}

#[test]
fn anonymous_requests_carry_no_authorization_header() {
    let c = Client::new("http://base");
    let mut t = script(vec![(
        200,
        r#"{"page":1,"perPage":100,"totalItems":0,"items":[]}"#,
    )]);
    c.records("posts").list().call(&mut t).unwrap();
    assert!(t.sent[0].headers.iter().all(|(k, _)| k != "Authorization"));
}

#[test]
fn auth_validation_failure_carries_the_field_errors() {
    let c = Client::new("http://base");
    let body = r#"{"data":{"password":{"code":"validation_required","message":"Missing required value."}},"message":"Failed to authenticate.","status":400}"#;
    let mut t = script(vec![(400, body)]);
    let err = c
        .auth_with_password(&mut t, "users", "ada", "")
        .unwrap_err();
    match err {
        AuthError::Validation(er) => {
            assert_eq!(er.message, "Failed to authenticate.");
            assert_eq!(er.status, 400);
            assert_eq!(er.data.len(), 1);
            assert_eq!(er.data[0].0, "password");
            assert_eq!(er.data[0].1.code, "validation_required");
            assert_eq!(er.data[0].1.message, "Missing required value.");
        },
        other => panic!("expected a validation failure, got {:?}", other),
    }
}

#[test]
fn auth_unexpected_status_is_reported_in_text() {
    let c = Client::new("http://base");
    let mut t = script(vec![(503, "down")]);
    let err = c
        .auth_with_password(&mut t, "users", "ada", "pw")
        .unwrap_err();
    match err {
        AuthError::Other(m) => assert_eq!(m, "Unexpected status 503 with body: down"),
        other => panic!("expected Other, got {:?}", other),
    }
}

#[test]
fn auth_transport_failure_is_never_swallowed() {
    let c = Client::new("http://base");
    let mut t = script(vec![]);
    let err = c
        .auth_with_password(&mut t, "users", "ada", "pw")
        .unwrap_err();
    assert!(matches!(err, AuthError::Other(_)));
}

#[test]
fn auth_success_with_bad_body_fails() {
    let c = Client::new("http://base");
    let mut t = script(vec![(200, r#"{"nope":1}"#)]);
    let err = c
        .auth_with_password(&mut t, "users", "ada", "pw")
        .unwrap_err();
    match err {
        AuthError::Other(m) => assert_eq!(m, ".: missing field `token`"),
        other => panic!("expected Other, got {:?}", other),
    }
}

#[test]
fn health_check_decodes_the_answer() {
    let c = Client::new("http://base");
    let mut t = script(vec![(200, r#"{"code":200,"message":"API is healthy."}"#)]);
    let h = c.health_check(&mut t).unwrap();
    assert_eq!(h.code, 200);
    assert_eq!(h.message, "API is healthy.");
    assert_eq!(t.sent[0].url, "http://base/api/health");
}

#[test]
fn health_check_reports_the_broken_field() {
    let c = Client::new("http://base");
    let mut t = script(vec![(200, r#"{"code":true,"message":"x"}"#)]);
    match c.health_check(&mut t).unwrap_err() {
        ApiError::Decode { path, message, .. } => {
            assert_eq!(path, "code");
            assert_eq!(message, "expected an integer");
        },
        other => panic!("expected Decode, got {:?}", other),
    }
}

#[test]
fn auth_error_tagged_text_round_trips_validation() {
    let e = AuthError::Validation(ErrorResponse {
        data: vec![(
            "email".to_string(),
            ValidationError { code: "bad".to_string(), message: "no".to_string() },
        )],
        message: "failed".to_string(),
        status: 400,
    });
    let s = e.to_tagged_string();
    let e2 = AuthError::from_tagged_str(&s);
    assert_eq!(e2, e);
}

#[test]
fn auth_error_tagged_text_round_trips_other() {
    let e = AuthError::Other("connection refused".to_string());
    let s = e.to_tagged_string();
    assert_eq!(AuthError::from_tagged_str(&s), e);
}

#[test]
fn unreadable_tagged_text_comes_back_whole_as_other() {
    let e = AuthError::from_tagged_str("not json at all");
    assert_eq!(e, AuthError::Other("not json at all".to_string()));
}

#[test]
fn health_check_reports_non_success_statuses() {
    let c = Client::new("http://base");
    let mut t = script(vec![(503, "down")]);
    match c.health_check(&mut t).unwrap_err() {
        ApiError::Http { status, url, body_snippet } => {
            assert_eq!(status, 503);
            assert_eq!(url, "http://base/api/health");
            assert_eq!(body_snippet, "down");
        },
        other => panic!("expected Http, got {:?}", other),
    }
}
