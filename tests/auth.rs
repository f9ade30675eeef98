use rraw::auth::{
    default_response, AnonymousAuthenticator, Authenticator, CodeAuthenticator,
    PasswordAuthenticator, TokenAuthenticator, TokenResponseData,
};
use rraw::error::{Error, ErrorKind, HTTPError, InternalError};
use rraw::json::Json;
use rraw::request::{basic_authorization, basic_header, trim_code, Headers};

fn token_doc(access: &str, expires_in: u64, refresh: Option<&str>) -> Json {
    let mut m = vec![
        ("access_token".to_string(), Json::Str(access.to_string())),
        ("expires_in".to_string(), Json::UInt(expires_in)),
        ("scope".to_string(), Json::Str("*".to_string())),
        ("token_type".to_string(), Json::Str("bearer".to_string())),
    ];
    if let Some(r) = refresh {
        m.push(("refresh_token".to_string(), Json::Str(r.to_string())));
    }
    Json::Object(m)
}

fn password() -> Authenticator {
    Authenticator::Password(PasswordAuthenticator::new("id", "secret", "user", "pass"))
}

#[test]
fn password_grant_expiry_and_refresh() {
    let mut a = password();
    assert!(a.complete_login(200, &token_doc("tok1", 3600, None), 0).unwrap());
    match &a {
        Authenticator::Password(p) => {
            assert_eq!(p.expiration_time, Some(3_600_000));
            assert_eq!(p.token.as_deref(), Some("tok1"));
        }
        _ => panic!(),
    }
    assert!(!a.needs_refresh_at(3_599_999));
    assert!(a.needs_refresh_at(3_600_000));
    assert!(a.complete_refresh(200, &token_doc("tok2", 3600, None), 3_600_000).unwrap());
    match &a {
        Authenticator::Password(p) => {
            assert_eq!(p.expiration_time, Some(3_600_000 + 3_600_000));
            assert_eq!(p.token.as_deref(), Some("tok2"));
        }
        _ => panic!(),
    }
}

#[test]
fn expiry_window_is_half_open() {
    let mut a = Authenticator::Token(TokenAuthenticator::new("id", "", "rt"));
    a.complete_login(200, &token_doc("t", 10, None), 1000).unwrap();
    assert!(!a.needs_refresh_at(1000));
    assert!(!a.needs_refresh_at(10_999));
    assert!(a.needs_refresh_at(11_000));
    assert!(a.needs_refresh_at(50_000));
}

#[test]
fn revoke_with_only_access_token() {
    let mut a = Authenticator::Code(CodeAuthenticator::new("id", "s", "code", "http://x"));
    a.complete_login(200, &token_doc("acc", 60, None), 5).unwrap();
    let req = a.logout_request("ua").unwrap();
    assert_eq!(req.body, "token=acc&token_type_hint=access_token");
    assert_eq!(req.url, "https://www.reddit.com/api/v1/revoke_token");
    assert_eq!(req.authorization, None);
    a.complete_logout(200).unwrap();
    match &a {
        Authenticator::Code(c) => {
            assert_eq!(c.token, None);
            assert_eq!(c.expiration_time, None);
            assert_eq!(c.refresh_token, None);
        }
        _ => panic!(),
    }
    assert!(a.logout_request("ua").is_none());
}

#[test]
fn revoke_prefers_refresh_token() {
    let mut a = Authenticator::Code(CodeAuthenticator::new("id", "s", "code", "http://x"));
    a.complete_login(200, &token_doc("acc", 60, Some("ref")), 5).unwrap();
    assert_eq!(a.get_refresh_token(), Some("ref".to_string()));
    let req = a.logout_request("ua").unwrap();
    assert_eq!(req.body, "token=ref&token_type_hint=refresh_token");
}

#[test]
fn anonymous_never_refreshes() {
    let mut a = Authenticator::Anonymous(AnonymousAuthenticator::new());
    for t in [0u64, 1, 1_000_000, u64::MAX] {
        assert!(!a.needs_refresh_at(t));
    }
    assert!(a.login_request("ua").unwrap().is_none());
    for _ in 0..3 {
        assert!(a.complete_login(500, &Json::Null, 7).unwrap());
        assert!(a.complete_logout(500).is_ok());
    }
    assert!(a.logout_request("ua").is_none());
    assert!(!a.needs_token_refresh());
    assert!(!a.oauth());
    let mut h = Headers::new();
    a.headers(&mut h);
    assert!(h.entries.is_empty());
    assert!(matches!(a.refresh_request("ua"), Err(Error::Other(_))));
}

#[test]
fn refresh_twice_stays_valid() {
    let mut a = Authenticator::Token(TokenAuthenticator::new("id", "", "rt"));
    a.complete_refresh(200, &token_doc("a1", 3600, None), 100).unwrap();
    a.complete_refresh(200, &token_doc("a2", 3600, None), 100).unwrap();
    match &a {
        Authenticator::Token(t) => {
            assert_eq!(t.token.as_deref(), Some("a2"));
            assert_eq!(t.expiration_time, Some(3_600_100));
            assert_eq!(t.refresh_token, "rt");
        }
        _ => panic!(),
    }
    assert!(!a.needs_refresh_at(100));
}

#[test]
fn failed_login_keeps_state() {
    let mut a = password();
    let e = a.complete_login(404, &token_doc("x", 1, None), 0).unwrap_err();
    assert_eq!(e, Error::HTTPError(HTTPError::NotFound));
    let e = a.complete_login(503, &token_doc("x", 1, None), 0).unwrap_err();
    assert_eq!(e, Error::HTTPError(HTTPError::Other(503)));
    let missing = Json::Object(vec![("access_token".to_string(), Json::Str("x".to_string()))]);
    let e = a.complete_login(200, &missing, 0).unwrap_err();
    assert_eq!(e, Error::InternalError(InternalError::MissingField("expires_in".to_string())));
    match &a {
        Authenticator::Password(p) => {
            assert_eq!(p.token, None);
            assert_eq!(p.expiration_time, None);
        }
        _ => panic!(),
    }
    assert!(a.needs_refresh_at(0));
}

#[test]
fn token_answer_decoding() {
    let t = TokenResponseData::from_json(&token_doc("abc", 60, Some("r"))).unwrap();
    assert_eq!(t.access_token, "abc");
    assert_eq!(t.expires_in, 60);
    assert_eq!(t.scope, "*");
    assert_eq!(t.token_type, "bearer");
    assert_eq!(t.refresh_token, "r");
    let t = TokenResponseData::from_json(&token_doc("abc", 60, None)).unwrap();
    assert_eq!(t.refresh_token, default_response());
    assert_eq!(default_response(), "");
    let bad = Json::Object(vec![
        ("access_token".to_string(), Json::Str("a".to_string())),
        ("expires_in".to_string(), Json::Str("60".to_string())),
    ]);
    let e = TokenResponseData::from_json(&bad).unwrap_err();
    assert_eq!(e, Error::InternalError(InternalError::InvalidType("expires_in".to_string())));
    assert_eq!(e.kind(), ErrorKind::Decode);
    let e = TokenResponseData::from_json(&Json::Null).unwrap_err();
    assert_eq!(e, Error::InternalError(InternalError::NotAnObject));
}

#[test]
fn login_requests_by_grant() {
    let r = password().login_request("agent/1").unwrap().unwrap();
    assert_eq!(r.url, "https://www.reddit.com/api/v1/access_token");
    assert_eq!(r.body, "grant_type=password&username=user&password=pass");
    assert_eq!(r.authorization.as_deref(), Some("Basic aWQ6c2VjcmV0"));
    assert_eq!(r.user_agent, "agent/1");
    assert_eq!(r.content_type, "application/x-www-form-urlencoded");

    let code = Authenticator::Code(CodeAuthenticator::new("cid", "", "abc#_#_", "http://localhost"));
    let r = code.login_request("ua").unwrap().unwrap();
    assert_eq!(
        r.body,
        "grant_type=authorization_code&code=abc&redirect_uri=http://localhost"
    );
    assert_eq!(r.authorization.as_deref(), Some("Basic Y2lkOg=="));

    let tok = Authenticator::Token(TokenAuthenticator::new("cid", "sec", "rtok"));
    let r = tok.login_request("ua").unwrap().unwrap();
    assert_eq!(r.body, "grant_type=refresh_token&refresh_token=rtok");
    let r = tok.refresh_request("ua").unwrap();
    assert_eq!(r.body, "grant_type=refresh_token&refresh_token=rtok");
}

#[test]
fn code_refresh_uses_refresh_token() {
    let mut a = Authenticator::Code(CodeAuthenticator::new("id", "s", "code", "u"));
    assert!(matches!(a.refresh_request("ua"), Err(Error::Other(_))));
    assert!(!a.needs_refresh_at(0));
    a.complete_login(200, &token_doc("acc", 60, Some("ref")), 0).unwrap();
    let r = a.refresh_request("ua").unwrap();
    assert_eq!(r.body, "grant_type=refresh_token&refresh_token=ref");
    a.complete_refresh(200, &token_doc("acc2", 60, Some("other")), 10).unwrap();
    assert_eq!(a.get_refresh_token(), Some("ref".to_string()));
}

#[test]
fn refresh_without_capability_is_refused() {
    let mut a = Authenticator::Code(CodeAuthenticator::new("id", "s", "code", "u"));
    let e = a.complete_refresh(200, &token_doc("x", 60, None), 0).unwrap_err();
    assert_eq!(e.kind(), ErrorKind::Domain);
}

#[test]
fn bearer_header_when_token_held() {
    let mut a = password();
    let mut h = Headers::new();
    a.headers(&mut h);
    assert!(h.entries.is_empty());
    a.complete_login(200, &token_doc("zz", 1, None), 0).unwrap();
    h.insert("user-agent", "ua".to_string());
    a.headers(&mut h);
    a.headers(&mut h);
    assert_eq!(
        h.entries,
        vec![
            ("user-agent".to_string(), "ua".to_string()),
            ("authorization".to_string(), "Bearer zz".to_string()),
        ]
    );
}

#[test]
fn token_logout_clears_refresh_token() {
    let mut a = Authenticator::Token(TokenAuthenticator::new("id", "", "rt"));
    let req = a.logout_request("ua").unwrap();
    assert_eq!(req.body, "token=rt&token_type_hint=refresh_token");
    assert_eq!(a.complete_logout(401).unwrap_err(), Error::HTTPError(HTTPError::Other(401)));
    a.complete_logout(204).unwrap();
    match &a {
        Authenticator::Token(t) => assert_eq!(t.refresh_token, ""),
        _ => panic!(),
    }
    assert!(a.logout_request("ua").is_none());
    assert!(!a.needs_refresh_at(0));
}

#[test]
fn basic_header_encodes_credentials() {
    assert_eq!(basic_header("id", "secret"), "aWQ6c2VjcmV0");
    assert_eq!(basic_header("", ""), "Og==");
    assert_eq!(basic_authorization("a", "b").unwrap(), "Basic YTpi");
}

#[test]
fn trims_trailing_fragments() {
    assert_eq!(trim_code("abc#_"), "abc");
    assert_eq!(trim_code("abc#_#_"), "abc");
    assert_eq!(trim_code("ab#_c"), "ab#_c");
    assert_eq!(trim_code("#_"), "");
    assert_eq!(trim_code("abc#"), "abc#");
}

#[test]
fn authorization_url_is_built() {
    let url = CodeAuthenticator::generate_authorization_url(
        "cid",
        "http://localhost:8080",
        "xyz",
        "permanent",
        vec!["identity", "read", "history"],
    );
    assert_eq!(
        url,
        "https://www.reddit.com/api/v1/authorize?client_id=cid&response_type=code&state=xyz&redirect_uri=http://localhost:8080&duration=permanent&scope=identity,read,history"
    );
    let url = CodeAuthenticator::generate_authorization_url("c", "r", "s", "d", vec![]);
    assert!(url.ends_with("&scope="));
}

#[test]
fn code_grant_becomes_token_grant() {
    let c = CodeAuthenticator::new("id", "s", "code", "u");
    assert!(matches!(c.into_token_authenticator(), Err(Error::Other(_))));
    let mut a = Authenticator::Code(CodeAuthenticator::new("id", "s", "code", "u"));
    a.complete_login(200, &token_doc("acc", 60, Some("ref")), 0).unwrap();
    match a {
        Authenticator::Code(c) => {
            let t = c.into_token_authenticator().unwrap();
            assert_eq!(t.refresh_token, "ref");
            assert_eq!(t.token.as_deref(), Some("acc"));
            assert_eq!(t.client_id, "id");
        }
        _ => panic!(),
    }
}

#[test]
fn constructors_start_without_token() {
    let p = PasswordAuthenticator::new("a", "b", "c", "d");
    assert_eq!(p.token, None);
    assert_eq!(p.username, "c");
    let t = TokenAuthenticator::new("a", "b", "c");
    assert_eq!(t.refresh_token, "c");
    assert_eq!(t.expiration_time, None);
    let _ = AnonymousAuthenticator::new();
}

#[test]
fn password_logout_revokes_access_token() {
    let mut a = password();
    assert!(a.logout_request("ua").is_none());
    a.complete_login(200, &token_doc("tok", 60, None), 0).unwrap();
    let req = a.logout_request("ua").unwrap();
    assert_eq!(req.body, "token=tok&token_type_hint=access_token");
    a.complete_logout(200).unwrap();
    match &a {
        Authenticator::Password(p) => {
            assert_eq!(p.token, None);
            assert_eq!(p.expiration_time, None);
            assert_eq!(p.username, "user");
        }
        _ => panic!(),
    }
}
