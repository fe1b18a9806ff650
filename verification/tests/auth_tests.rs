use reddit_auth::auth::{
    AnonymousAuthenticator, Authenticator, PasswordAuthenticator, RevokeOutcome, TokenData,
    TokenExchangeOutcome,
};
use reddit_auth::headers::Headers;
use reddit_auth::AuthError;

fn logged_in(now: u64) -> PasswordAuthenticator {
    let mut p = PasswordAuthenticator::new("cid", "csec", "alice", "pw1");
    let outcome = TokenExchangeOutcome::Response {
        status: 200,
        token: Some(TokenData { access_token: "tok123".to_string(), expires_in: 3600 }),
    };
    let r = p.apply_login(now, outcome);
    assert_eq!(r, Ok(true));
    p
}

#[test]
fn anonymous_login_always_true() {
    let mut a = AnonymousAuthenticator::new();
    for now in [0u64, 5, 1_000_000] {
        assert!(a.login_request("agent").is_none());
        let r = a.apply_login(now, TokenExchangeOutcome::Transport);
        assert_eq!(r, Ok(true));
        let r = a.apply_login(now, TokenExchangeOutcome::NoExchange);
        assert_eq!(r, Ok(true));
        assert!(!a.needs_token_refresh(now));
        assert!(!a.oauth());
    }
    assert!(matches!(a.logout_request("agent"), Ok(None)));
    assert_eq!(a.apply_logout(RevokeOutcome::Transport), Ok(()));
    assert!(!a.needs_token_refresh(u64::MAX));
}

#[test]
fn anonymous_headers_leave_set_unchanged() {
    let a = AnonymousAuthenticator::new();
    let mut h = Headers::new();
    h.insert("x-existing", "value".to_string());
    h.insert("accept", "application/json".to_string());
    assert_eq!(a.headers(&mut h), Ok(()));
    assert_eq!(h.len(), 2);
    assert_eq!(h.entries()[0].0, "x-existing");
    assert_eq!(h.entries()[0].1, "value");
    assert_eq!(h.entries()[1].0, "accept");
    assert_eq!(h.entries()[1].1, "application/json");
}

#[test]
fn password_login_stores_token_and_expiry() {
    let now: u64 = 50_000;
    let p = logged_in(now);
    assert_eq!(p.token.as_deref(), Some("tok123"));
    assert_eq!(p.expiration_time, Some(50_000u128 + 3_600_000));
    assert!(p.oauth());
}

#[test]
fn password_login_request_shape() {
    let p = PasswordAuthenticator::new("cid", "csec", "alice", "pw1");
    let req = p.login_request("my-agent/1.0").expect("password grant needs an exchange");
    assert_eq!(req.url, "https://www.reddit.com/api/v1/access_token");
    assert_eq!(
        req.body.as_slice(),
        b"grant_type=password&username=alice&password=pw1".as_slice()
    );
    let entries = req.headers.entries();
    assert_eq!(entries.len(), 3);
    assert_eq!(entries[0].0, "authorization");
    assert_eq!(entries[0].1, "Basic Y2lkOmNzZWM=");
    assert_eq!(entries[1].0, "user-agent");
    assert_eq!(entries[1].1, "my-agent/1.0");
    assert_eq!(entries[2].0, "content-type");
    assert_eq!(entries[2].1, "application/x-www-form-urlencoded");
}

#[test]
fn password_login_request_percent_encodes_credentials() {
    let p = PasswordAuthenticator::new("cid", "csec", "al ice", "p&w=1");
    let req = p.login_request("agent").unwrap();
    assert_eq!(
        req.body.as_slice(),
        b"grant_type=password&username=al%20ice&password=p%26w%3D1".as_slice()
    );
}

#[test]
fn password_headers_inject_bearer_token() {
    let p = logged_in(50_000);
    let mut h = Headers::new();
    assert_eq!(p.headers(&mut h), Ok(()));
    assert_eq!(h.len(), 1);
    assert_eq!(h.entries()[0].0, "authorization");
    assert_eq!(h.entries()[0].1, "Bearer tok123");
}

#[test]
fn password_headers_without_token_fail_typed() {
    let p = PasswordAuthenticator::new("cid", "csec", "alice", "pw1");
    let mut h = Headers::new();
    assert_eq!(p.headers(&mut h), Err(AuthError::Precondition));
    assert!(h.is_empty());
}

#[test]
fn refresh_threshold_is_inclusive_on_expiry() {
    let p = logged_in(50_000);
    let expiry: u64 = 50_000 + 3_600_000;
    assert!(!p.needs_token_refresh(expiry - 1));
    assert!(p.needs_token_refresh(expiry));
    assert!(p.needs_token_refresh(expiry + 1));
}

#[test]
fn refresh_needed_before_any_login() {
    let p = PasswordAuthenticator::new("cid", "csec", "alice", "pw1");
    assert!(p.needs_token_refresh(0));
    assert!(p.needs_token_refresh(u64::MAX));
}

#[test]
fn relogin_overwrites_token_and_expiry() {
    let mut p = logged_in(1_000);
    let outcome = TokenExchangeOutcome::Response {
        status: 200,
        token: Some(TokenData { access_token: "tok456".to_string(), expires_in: 60 }),
    };
    assert_eq!(p.apply_login(2_000, outcome), Ok(true));
    assert_eq!(p.token.as_deref(), Some("tok456"));
    assert_eq!(p.expiration_time, Some(2_000u128 + 60_000));
}

#[test]
fn login_transport_failure_leaves_state() {
    let mut p = PasswordAuthenticator::new("cid", "csec", "alice", "pw1");
    assert_eq!(p.apply_login(7, TokenExchangeOutcome::Transport), Err(AuthError::Transport));
    assert_eq!(p.token, None);
    assert_eq!(p.expiration_time, None);
}

#[test]
fn login_http_error_leaves_state() {
    let mut p = logged_in(1_000);
    let outcome = TokenExchangeOutcome::Response {
        status: 401,
        token: Some(TokenData { access_token: "bad".to_string(), expires_in: 1 }),
    };
    assert_eq!(p.apply_login(5_000, outcome), Err(AuthError::HttpStatus(401)));
    assert_eq!(p.token.as_deref(), Some("tok123"));
    assert_eq!(p.expiration_time, Some(1_000u128 + 3_600_000));
}

#[test]
fn login_undecodable_body_is_decode_error() {
    let mut p = PasswordAuthenticator::new("cid", "csec", "alice", "pw1");
    let outcome = TokenExchangeOutcome::Response { status: 200, token: None };
    assert_eq!(p.apply_login(7, outcome), Err(AuthError::Decode));
    assert_eq!(p.token, None);
    assert_eq!(p.expiration_time, None);
}

#[test]
fn logout_request_shape_and_asymmetry() {
    let p = logged_in(50_000);
    let req = p.logout_request("my-agent/1.0").unwrap().expect("revocation needs a call");
    assert_eq!(req.url, "https://www.reddit.com/api/v1/revoke_token");
    assert_eq!(req.body.as_slice(), b"token=tok123".as_slice());
    let entries = req.headers.entries();
    // no Basic-authorization header on revocation, by design
    assert_eq!(entries.len(), 2);
    assert_eq!(entries[0].0, "user-agent");
    assert_eq!(entries[0].1, "my-agent/1.0");
    assert_eq!(entries[1].0, "content-type");
    assert_eq!(entries[1].1, "application/x-www-form-urlencoded");
}

#[test]
fn logout_without_token_is_precondition_error() {
    let p = PasswordAuthenticator::new("cid", "csec", "alice", "pw1");
    assert!(matches!(p.logout_request("agent"), Err(AuthError::Precondition)));
}

#[test]
fn logout_http_error_keeps_token() {
    let mut p = logged_in(50_000);
    assert_eq!(p.apply_logout(RevokeOutcome::Status(500)), Err(AuthError::HttpStatus(500)));
    assert_eq!(p.token.as_deref(), Some("tok123"));
    assert_eq!(p.expiration_time, Some(50_000u128 + 3_600_000));
}

#[test]
fn logout_transport_failure_keeps_token() {
    let mut p = logged_in(50_000);
    assert_eq!(p.apply_logout(RevokeOutcome::Transport), Err(AuthError::Transport));
    assert_eq!(p.token.as_deref(), Some("tok123"));
}

#[test]
fn logout_success_clears_both() {
    let mut p = logged_in(50_000);
    assert_eq!(p.apply_logout(RevokeOutcome::Status(204)), Ok(()));
    assert_eq!(p.token, None);
    assert_eq!(p.expiration_time, None);
}

#[test]
fn token_and_expiry_always_paired() {
    let mut p = PasswordAuthenticator::new("cid", "csec", "alice", "pw1");
    let check = |p: &PasswordAuthenticator| {
        assert_eq!(p.token.is_some(), p.expiration_time.is_some());
    };
    check(&p);
    let _ = p.apply_login(1, TokenExchangeOutcome::Transport);
    check(&p);
    let _ = p.apply_login(
        2,
        TokenExchangeOutcome::Response {
            status: 200,
            token: Some(TokenData { access_token: "t".to_string(), expires_in: 10 }),
        },
    );
    check(&p);
    let _ = p.apply_logout(RevokeOutcome::Status(503));
    check(&p);
    let _ = p.apply_logout(RevokeOutcome::Status(200));
    check(&p);
}

#[test]
fn describe_names_no_credential() {
    let mut p = PasswordAuthenticator::new("cid", "csec", "alice", "pw1");
    assert_eq!(p.describe(), "[PasswordAuthenticator] Token Defined: false Expires At 0");
    let _ = p.apply_login(
        50_000,
        TokenExchangeOutcome::Response {
            status: 200,
            token: Some(TokenData { access_token: "tok123".to_string(), expires_in: 3600 }),
        },
    );
    assert_eq!(p.describe(), "[PasswordAuthenticator] Token Defined: true Expires At 3650000");
    let a = AnonymousAuthenticator::new();
    assert_eq!(a.describe(), "[AnonymousAuthenticator]");
}

#[test]
fn password_headers_replace_existing_authorization() {
    let p = logged_in(50_000);
    let mut h = Headers::new();
    h.insert("authorization", "Bearer stale".to_string());
    h.insert("accept", "application/json".to_string());
    assert_eq!(p.headers(&mut h), Ok(()));
    // exactly one authorization pair, freshly valued; the other pair kept
    assert_eq!(h.len(), 2);
    assert_eq!(h.entries()[0].0, "accept");
    assert_eq!(h.entries()[0].1, "application/json");
    assert_eq!(h.entries()[1].0, "authorization");
    assert_eq!(h.entries()[1].1, "Bearer tok123");
}

#[test]
fn headers_insert_is_keyed() {
    let mut h = Headers::new();
    h.insert("a", "1".to_string());
    h.insert("b", "2".to_string());
    h.insert("a", "3".to_string());
    assert_eq!(h.len(), 2);
    assert_eq!(h.entries()[0].0, "b");
    assert_eq!(h.entries()[0].1, "2");
    assert_eq!(h.entries()[1].0, "a");
    assert_eq!(h.entries()[1].1, "3");
}

#[test]
fn password_login_without_exchange_is_precondition_error() {
    let mut p = logged_in(50_000);
    assert_eq!(p.apply_login(60_000, TokenExchangeOutcome::NoExchange), Err(AuthError::Precondition));
    assert_eq!(p.token.as_deref(), Some("tok123"));
    assert_eq!(p.expiration_time, Some(50_000u128 + 3_600_000));
}
