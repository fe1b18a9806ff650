//! The authentication strategies and their token lifecycle.
//!
//! Each strategy is a state machine.  It describes the HTTP request it
//! needs (`login_request`, `logout_request`) and consumes the outcome of
//! that request as a plain value (`apply_login`, `apply_logout`), so every
//! decision — status handling, token/expiry bookkeeping, header injection,
//! refresh detection — is verified, while the network round trip itself is
//! the caller's business.

use vstd::prelude::*;

use crate::encode::append_percent_encoded;
use crate::encode::append_str_bytes;
use crate::encode::base64_encode;
use crate::encode::base64_of;
use crate::encode::append_decimal;
use crate::encode::decimal_digits;
use crate::encode::lemma_encode_utf8_concat;
use crate::encode::lemma_encode_utf8_single_len;
use crate::encode::percent_encoded;
use crate::error::spec_status_success;
use crate::error::status_success;
use crate::error::AuthError;
use crate::headers::Headers;
use crate::headers::inject_all;
use crate::headers::set_header;

verus! {

use vstd::string::StringSliceAdditionalSpecFns;
use vstd::string::StringExecFns;
use vstd::utf8::encode_utf8;

/// An HTTP POST a strategy asks the transport layer to perform.
pub struct HttpRequest {
    /// Absolute URL of the endpoint.
    pub url: String,
    /// Headers to send.
    pub headers: Headers,
    /// `application/x-www-form-urlencoded` body, as bytes.
    pub body: Vec<u8>,
}

/// Decoded fields of a successful token-exchange response body.
pub struct TokenData {
    /// The bearer token issued by the platform.
    pub access_token: String,
    /// Token lifetime in seconds.
    pub expires_in: u64,
}

/// What came back from the token-exchange endpoint, as plain values.
pub enum TokenExchangeOutcome {
    /// No exchange was performed, because the strategy asked for none.
    NoExchange,
    /// The request never completed (DNS, connection, timeout).
    Transport,
    /// The endpoint answered with `status`; `token` holds the decoded body
    /// fields, or `None` when the body did not decode as expected.
    Response { status: u16, token: Option<TokenData> },
}

/// What came back from the token-revocation endpoint.
pub enum RevokeOutcome {
    /// The request never completed.
    Transport,
    /// The endpoint answered with this status.
    Status(u16),
}

/// Mathematical picture of an HTTP request a strategy asks for.
pub struct RequestModel {
    pub url: Seq<char>,
    pub headers: Seq<(Seq<char>, Seq<char>)>,
    pub body: Seq<u8>,
}

/// The request equals its model field by field.
pub open spec fn req_matches(r: HttpRequest, m: RequestModel) -> bool {
    r.url@ == m.url && r.headers@ == m.headers && r.body@ == m.body
}

/// An optional request equals an optional model.
pub open spec fn opt_req_matches(r: Option<HttpRequest>, m: Option<RequestModel>) -> bool {
    match (r, m) {
        (Option::Some(req), Option::Some(mm)) => req_matches(req, mm),
        (Option::None, Option::None) => true,
        _ => false,
    }
}

/// A request-or-error equals a model-or-error.
pub open spec fn res_req_matches(
    r: Result<Option<HttpRequest>, AuthError>,
    m: Result<Option<RequestModel>, AuthError>,
) -> bool {
    match (r, m) {
        (Result::Ok(ro), Result::Ok(mo)) => opt_req_matches(ro, mo),
        (Result::Err(e1), Result::Err(e2)) => e1 == e2,
        _ => false,
    }
}

/// The platform's token-exchange endpoint.
pub open spec fn token_endpoint() -> Seq<char> {
    "https://www.reddit.com/api/v1/access_token"@
}

/// The platform's token-revocation endpoint.
pub open spec fn revoke_endpoint() -> Seq<char> {
    "https://www.reddit.com/api/v1/revoke_token"@
}

/// Content type of both endpoint bodies.
pub open spec fn form_content_type() -> Seq<char> {
    "application/x-www-form-urlencoded"@
}

/// Body of the password-grant exchange.  The literal user credentials are
/// percent-encoded before interpolation.
pub open spec fn login_body(username: Seq<char>, password: Seq<char>) -> Seq<u8> {
    encode_utf8("grant_type=password&username="@) + percent_encoded(encode_utf8(username))
        + encode_utf8("&password="@) + percent_encoded(encode_utf8(password))
}

/// Absolute expiry, in milliseconds since the epoch, of a token obtained
/// at `now` (milliseconds) that lives `expires_in` seconds.
pub open spec fn expiry_after(now: u64, expires_in: u64) -> u128 {
    ((now as u128) + (expires_in as u128) * 1000) as u128
}

/// The capability every authentication strategy implements: describe the
/// network exchanges needed to log in and out, fold their outcomes into
/// the session state, inject auth headers, and report refresh need.
pub trait Authenticator: Sized {
    /// Internal well-formedness of the strategy state.
    spec fn inv(&self) -> bool;

    /// The bearer token currently held, if any.
    spec fn spec_token(&self) -> Option<Seq<char>>;

    /// Absolute expiry (milliseconds since the epoch) of the held token.
    spec fn spec_expiry(&self) -> Option<u128>;

    /// Whether the strategy uses the OAuth bearer-token flow.
    spec fn spec_oauth(&self) -> bool;

    /// Whether the token must be (re)acquired before a call at `now`.
    spec fn spec_needs_refresh(&self, now: u64) -> bool;

    /// Whether header injection is possible in the current state.
    spec fn can_inject(&self) -> bool;

    /// The header pairs the strategy injects.
    spec fn injected(&self) -> Seq<(Seq<char>, Seq<char>)>;

    /// The token-exchange request the strategy needs, if any.
    spec fn login_request_model(&self, user_agent: Seq<char>) -> Option<RequestModel>;

    /// The revocation request the strategy needs, if any.
    spec fn logout_request_model(&self, user_agent: Seq<char>) -> Result<
        Option<RequestModel>,
        AuthError,
    >;

    /// Next state and result when the exchange outcome is folded in.
    spec fn login_step(&self, now: u64, outcome: TokenExchangeOutcome) -> (Self, Result<
        bool,
        AuthError,
    >);

    /// Next state and result when the revocation outcome is folded in.
    spec fn logout_step(&self, outcome: RevokeOutcome) -> (Self, Result<(), AuthError>);

    /// Whether the strategy requires the bearer-token flow.
    fn oauth(&self) -> (r: bool)
        ensures
            r == self.spec_oauth(),
    ;

    /// True when no valid token is held at `now`, or the held one expired.
    fn needs_token_refresh(&self, now: u64) -> (r: bool)
        requires
            self.inv(),
        ensures
            r == self.spec_needs_refresh(now),
    ;

    /// Appends the strategy's auth headers to a caller-owned collection.
    /// Fails with `AuthError::Precondition`, leaving the collection
    /// unchanged, when injection needs a token and none is held.
    fn headers(&self, headers: &mut Headers) -> (r: Result<(), AuthError>)
        requires
            self.inv(),
        ensures
            r is Ok <==> self.can_inject(),
            r is Ok ==> final(headers)@ == inject_all(old(headers)@, self.injected()),
            r is Err ==> final(headers)@ == old(headers)@ && r == Result::<
                (),
                AuthError,
            >::Err(AuthError::Precondition),
    ;

    /// The token-exchange request to perform, or `None` when the strategy
    /// can log in without any network call.
    fn login_request(&self, user_agent: &str) -> (r: Option<HttpRequest>)
        requires
            self.inv(),
        ensures
            opt_req_matches(r, self.login_request_model(user_agent@)),
    ;

    /// Folds the outcome of the exchange into the state: returns `Ok(true)`
    /// and stores token and expiry on success, surfaces the error and
    /// leaves the state unchanged otherwise.
    fn apply_login(&mut self, now: u64, outcome: TokenExchangeOutcome) -> (r: Result<
        bool,
        AuthError,
    >)
        requires
            old(self).inv(),
        ensures
            final(self).inv(),
            *final(self) == old(self).login_step(now, outcome).0,
            r == old(self).login_step(now, outcome).1,
    ;

    /// The revocation request to perform (`Ok(None)` when no network call
    /// is needed), or `AuthError::Precondition` when a token is required
    /// and none is held.
    fn logout_request(&self, user_agent: &str) -> (r: Result<Option<HttpRequest>, AuthError>)
        requires
            self.inv(),
        ensures
            res_req_matches(r, self.logout_request_model(user_agent@)),
    ;

    /// Folds the outcome of the revocation into the state: clears token
    /// and expiry exactly on success, surfaces the error and leaves the
    /// state unchanged otherwise.
    fn apply_logout(&mut self, outcome: RevokeOutcome) -> (r: Result<(), AuthError>)
        requires
            old(self).inv(),
        ensures
            final(self).inv(),
            *final(self) == old(self).logout_step(outcome).0,
            r == old(self).logout_step(outcome).1,
    ;
}

/// The no-op strategy: always logged in, injects nothing, never expires.
#[derive(Clone, Copy, Debug, PartialEq, Eq, Structural)]
pub struct AnonymousAuthenticator;

impl AnonymousAuthenticator {
    /// Creates the anonymous strategy.
    pub fn new() -> (r: AnonymousAuthenticator)
        ensures
            r.inv(),
    {
        AnonymousAuthenticator
    }

    /// One-line description of the strategy, for diagnostics.
    pub fn describe(&self) -> (r: String)
        ensures
            r@ == "[AnonymousAuthenticator]"@,
    {
        "[AnonymousAuthenticator]".to_owned()
    }
}

impl Authenticator for AnonymousAuthenticator {
    open spec fn inv(&self) -> bool {
        true
    }

    open spec fn spec_token(&self) -> Option<Seq<char>> {
        Option::None
    }

    open spec fn spec_expiry(&self) -> Option<u128> {
        Option::None
    }

    open spec fn spec_oauth(&self) -> bool {
        false
    }

    open spec fn spec_needs_refresh(&self, now: u64) -> bool {
        false
    }

    open spec fn can_inject(&self) -> bool {
        true
    }

    open spec fn injected(&self) -> Seq<(Seq<char>, Seq<char>)> {
        Seq::empty()
    }

    open spec fn login_request_model(&self, user_agent: Seq<char>) -> Option<RequestModel> {
        Option::None
    }

    open spec fn logout_request_model(&self, user_agent: Seq<char>) -> Result<
        Option<RequestModel>,
        AuthError,
    > {
        Result::Ok(Option::None)
    }

    open spec fn login_step(&self, now: u64, outcome: TokenExchangeOutcome) -> (Self, Result<
        bool,
        AuthError,
    >) {
        (*self, Result::Ok(true))
    }

    open spec fn logout_step(&self, outcome: RevokeOutcome) -> (Self, Result<(), AuthError>) {
        (*self, Result::Ok(()))
    }

    fn oauth(&self) -> (r: bool) {
        false
    }

    fn needs_token_refresh(&self, now: u64) -> (r: bool) {
        false
    }

    fn headers(&self, headers: &mut Headers) -> (r: Result<(), AuthError>) {
        proof {
            assert(inject_all(headers@, self.injected()) == headers@);
        }
        Result::Ok(())
    }

    fn login_request(&self, user_agent: &str) -> (r: Option<HttpRequest>) {
        Option::None
    }

    fn apply_login(&mut self, now: u64, outcome: TokenExchangeOutcome) -> (r: Result<
        bool,
        AuthError,
    >) {
        Result::Ok(true)
    }

    fn logout_request(&self, user_agent: &str) -> (r: Result<Option<HttpRequest>, AuthError>) {
        Result::Ok(Option::None)
    }

    fn apply_logout(&mut self, outcome: RevokeOutcome) -> (r: Result<(), AuthError>) {
        Result::Ok(())
    }
}

/// The OAuth password-grant strategy: owns the application and user
/// credentials, the current bearer token and its expiry.
#[derive(Clone)]
#[verifier::ext_equal]
pub struct PasswordAuthenticator {
    /// Current bearer token, if logged in.
    pub token: Option<String>,
    /// Absolute expiry of `token`, milliseconds since the epoch.
    pub expiration_time: Option<u128>,
    client_id: String,
    client_secret: String,
    username: String,
    password: String,
}

impl PasswordAuthenticator {
    /// Token and expiry are set together and cleared together.
    pub closed spec fn token_expiry_paired(&self) -> bool {
        (self.token is Some) <==> (self.expiration_time is Some)
    }

    /// The application id this strategy was built with.
    pub closed spec fn spec_client_id(&self) -> Seq<char> {
        self.client_id@
    }

    /// The application secret this strategy was built with.
    pub closed spec fn spec_client_secret(&self) -> Seq<char> {
        self.client_secret@
    }

    /// The user name this strategy was built with.
    pub closed spec fn spec_username(&self) -> Seq<char> {
        self.username@
    }

    /// The password this strategy was built with.
    pub closed spec fn spec_password(&self) -> Seq<char> {
        self.password@
    }

    /// Creates a strategy that has not logged in yet.  The length bound on
    /// the application credentials keeps the Basic-authorization encoding
    /// within `usize` on every platform.
    pub fn new(client_id: &str, client_secret: &str, username: &str, password: &str) -> (r:
        PasswordAuthenticator)
        requires
            client_id.spec_bytes().len() + client_secret.spec_bytes().len() <= 0x0800_0000,
        ensures
            r.inv(),
            r.spec_token() is None,
            r.spec_expiry() is None,
            r.spec_client_id() == client_id@,
            r.spec_client_secret() == client_secret@,
            r.spec_username() == username@,
            r.spec_password() == password@,
    {
        PasswordAuthenticator {
            token: Option::None,
            expiration_time: Option::None,
            client_id: client_id.to_owned(),
            client_secret: client_secret.to_owned(),
            username: username.to_owned(),
            password: password.to_owned(),
        }
    }

    /// What `describe` renders: whether a token is held, and the expiry
    /// (zero when none is stored).  No credential appears in it.
    pub closed spec fn spec_describe(&self) -> Seq<char> {
        "[PasswordAuthenticator] Token Defined: "@ + (if self.token is Some {
            "true"@
        } else {
            "false"@
        }) + " Expires At "@ + decimal_digits(
            match self.expiration_time {
                Option::Some(t) => t,
                Option::None => 0,
            },
        )
    }

    /// One-line description of the strategy state, for diagnostics; it
    /// names no credential.
    pub fn describe(&self) -> (r: String)
        ensures
            r@ == self.spec_describe(),
    {
        let mut s = "[PasswordAuthenticator] Token Defined: ".to_owned();
        match &self.token {
            Option::Some(_) => s.append("true"),
            Option::None => s.append("false"),
        }
        s.append(" Expires At ");
        let e: u128 = match self.expiration_time {
            Option::Some(t) => t,
            Option::None => 0,
        };
        append_decimal(&mut s, e);
        s
    }
}

impl Authenticator for PasswordAuthenticator {
    closed spec fn inv(&self) -> bool {
        self.token_expiry_paired() && encode_utf8(self.client_id@).len() + encode_utf8(
            self.client_secret@,
        ).len() <= 0x0800_0000
    }

    closed spec fn spec_token(&self) -> Option<Seq<char>> {
        match self.token {
            Option::Some(t) => Option::Some(t@),
            Option::None => Option::None,
        }
    }

    closed spec fn spec_expiry(&self) -> Option<u128> {
        self.expiration_time
    }

    open spec fn spec_oauth(&self) -> bool {
        true
    }

    closed spec fn spec_needs_refresh(&self, now: u64) -> bool {
        match self.expiration_time {
            Option::None => true,
            Option::Some(t) => (now as u128) >= t,
        }
    }

    closed spec fn can_inject(&self) -> bool {
        self.token is Some
    }

    closed spec fn injected(&self) -> Seq<(Seq<char>, Seq<char>)> {
        match self.token {
            Option::Some(t) => seq![("authorization"@, "Bearer "@ + t@)],
            Option::None => Seq::empty(),
        }
    }

    closed spec fn login_request_model(&self, user_agent: Seq<char>) -> Option<RequestModel> {
        Option::Some(
            RequestModel {
                url: token_endpoint(),
                headers: seq![
                    (
                        "authorization"@,
                        "Basic "@ + base64_of(
                            encode_utf8(self.client_id@ + ":"@ + self.client_secret@),
                        ),
                    ),
                    ("user-agent"@, user_agent),
                    ("content-type"@, form_content_type()),
                ],
                body: login_body(self.username@, self.password@),
            },
        )
    }

    closed spec fn logout_request_model(&self, user_agent: Seq<char>) -> Result<
        Option<RequestModel>,
        AuthError,
    > {
        match self.token {
            Option::None => Result::Err(AuthError::Precondition),
            Option::Some(t) => Result::Ok(
                Option::Some(
                    RequestModel {
                        url: revoke_endpoint(),
                        headers: seq![
                            ("user-agent"@, user_agent),
                            ("content-type"@, form_content_type()),
                        ],
                        body: encode_utf8("token="@) + encode_utf8(t@),
                    },
                ),
            ),
        }
    }

    closed spec fn login_step(&self, now: u64, outcome: TokenExchangeOutcome) -> (Self, Result<
        bool,
        AuthError,
    >) {
        match outcome {
            TokenExchangeOutcome::NoExchange => (*self, Result::Err(AuthError::Precondition)),
            TokenExchangeOutcome::Transport => (*self, Result::Err(AuthError::Transport)),
            TokenExchangeOutcome::Response { status, token } => {
                if !spec_status_success(status) {
                    (*self, Result::Err(AuthError::HttpStatus(status)))
                } else {
                    match token {
                        Option::None => (*self, Result::Err(AuthError::Decode)),
                        Option::Some(td) => (
                            PasswordAuthenticator {
                                token: Option::Some(td.access_token),
                                expiration_time: Option::Some(expiry_after(now, td.expires_in)),
                                client_id: self.client_id,
                                client_secret: self.client_secret,
                                username: self.username,
                                password: self.password,
                            },
                            Result::Ok(true),
                        ),
                    }
                }
            },
        }
    }

    closed spec fn logout_step(&self, outcome: RevokeOutcome) -> (Self, Result<(), AuthError>) {
        match outcome {
            RevokeOutcome::Transport => (*self, Result::Err(AuthError::Transport)),
            RevokeOutcome::Status(status) => {
                if spec_status_success(status) {
                    (
                        PasswordAuthenticator {
                            token: Option::None,
                            expiration_time: Option::None,
                            client_id: self.client_id,
                            client_secret: self.client_secret,
                            username: self.username,
                            password: self.password,
                        },
                        Result::Ok(()),
                    )
                } else {
                    (*self, Result::Err(AuthError::HttpStatus(status)))
                }
            },
        }
    }

    fn oauth(&self) -> (r: bool) {
        true
    }

    fn needs_token_refresh(&self, now: u64) -> (r: bool) {
        match self.expiration_time {
            Option::None => true,
            Option::Some(t) => (now as u128) >= t,
        }
    }

    fn headers(&self, headers: &mut Headers) -> (r: Result<(), AuthError>) {
        match &self.token {
            Option::None => Result::Err(AuthError::Precondition),
            Option::Some(t) => {
                let mut value = "Bearer ".to_owned();
                value.append(t.as_str());
                proof {
                    assert(value@ == "Bearer "@ + t@);
                }
                let ghost v = value@;
                headers.insert("authorization", value);
                proof {
                    let inj = self.injected();
                    assert(inj[0] == ("authorization"@, v));
                    assert(inj.drop_first() =~= Seq::<(Seq<char>, Seq<char>)>::empty());
                    assert(inject_all(old(headers)@, inj) == inject_all(
                        set_header(old(headers)@, "authorization"@, v),
                        inj.drop_first(),
                    ));
                    assert(headers@ == inject_all(old(headers)@, inj));
                }
                Result::Ok(())
            },
        }
    }

    fn login_request(&self, user_agent: &str) -> (r: Option<HttpRequest>) {
        let mut creds = self.client_id.clone();
        creds.append(":");
        creds.append(self.client_secret.as_str());
        proof {
            lemma_encode_utf8_concat(self.client_id@, ":"@);
            lemma_encode_utf8_concat(self.client_id@ + ":"@, self.client_secret@);
            reveal_strlit(":");
            lemma_encode_utf8_single_len(":"@);
        }
        let b64 = base64_encode(creds.as_str());
        let mut value = "Basic ".to_owned();
        value.append(b64.as_str());

        let mut hs = Headers::new();
        hs.push_pair("authorization", value);
        hs.push_pair("user-agent", user_agent.to_owned());
        hs.push_pair("content-type", "application/x-www-form-urlencoded".to_owned());

        let mut body: Vec<u8> = Vec::new();
        append_str_bytes(&mut body, "grant_type=password&username=");
        append_percent_encoded(&mut body, self.username.as_str());
        append_str_bytes(&mut body, "&password=");
        append_percent_encoded(&mut body, self.password.as_str());

        let url = "https://www.reddit.com/api/v1/access_token".to_owned();
        let req = HttpRequest { url, headers: hs, body };
        proof {
            let m = self.login_request_model(user_agent@)->Some_0;
            assert(req.headers@ =~= m.headers);
            assert(req.body@ =~= m.body);
        }
        Option::Some(req)
    }

    fn apply_login(&mut self, now: u64, outcome: TokenExchangeOutcome) -> (r: Result<
        bool,
        AuthError,
    >) {
        match outcome {
            TokenExchangeOutcome::NoExchange => Result::Err(AuthError::Precondition),
            TokenExchangeOutcome::Transport => Result::Err(AuthError::Transport),
            TokenExchangeOutcome::Response { status, token } => {
                if !status_success(status) {
                    Result::Err(AuthError::HttpStatus(status))
                } else {
                    match token {
                        Option::None => Result::Err(AuthError::Decode),
                        Option::Some(td) => {
                            let expiry: u128 = (now as u128) + (td.expires_in as u128) * 1000;
                            self.token = Option::Some(td.access_token);
                            self.expiration_time = Option::Some(expiry);
                            Result::Ok(true)
                        },
                    }
                }
            },
        }
    }

    fn logout_request(&self, user_agent: &str) -> (r: Result<Option<HttpRequest>, AuthError>) {
        match &self.token {
            Option::None => Result::Err(AuthError::Precondition),
            Option::Some(t) => {
                let mut hs = Headers::new();
                hs.push_pair("user-agent", user_agent.to_owned());
                hs.push_pair("content-type", "application/x-www-form-urlencoded".to_owned());

                let mut body: Vec<u8> = Vec::new();
                append_str_bytes(&mut body, "token=");
                append_str_bytes(&mut body, t.as_str());

                let url = "https://www.reddit.com/api/v1/revoke_token".to_owned();
                let req = HttpRequest { url, headers: hs, body };
                proof {
                    let m = self.logout_request_model(user_agent@)->Ok_0->Some_0;
                    assert(req.headers@ =~= m.headers);
                    assert(req.body@ =~= m.body);
                }
                Result::Ok(Option::Some(req))
            },
        }
    }

    fn apply_logout(&mut self, outcome: RevokeOutcome) -> (r: Result<(), AuthError>) {
        match outcome {
            RevokeOutcome::Transport => Result::Err(AuthError::Transport),
            RevokeOutcome::Status(status) => {
                if status_success(status) {
                    self.token = Option::None;
                    self.expiration_time = Option::None;
                    Result::Ok(())
                } else {
                    Result::Err(AuthError::HttpStatus(status))
                }
            },
        }
    }
}

/// Anonymous sessions are always logged in and never stale: whatever came
/// before, a login step returns `Ok(true)` and leaves the state as it was,
/// and refresh is never needed.
pub proof fn lemma_anonymous_idempotent(
    a: AnonymousAuthenticator,
    now: u64,
    outcome: TokenExchangeOutcome,
)
    ensures
        a.login_step(now, outcome).1 == Result::<bool, AuthError>::Ok(true),
        a.login_step(now, outcome).0 == a,
        !a.spec_needs_refresh(now),
{
}

/// Token and expiry are set together and cleared together: the pairing
/// holds of a fresh strategy by construction and is preserved by every
/// login and logout step, so it holds in every reachable state.
pub proof fn lemma_token_expiry_paired(
    s: PasswordAuthenticator,
    now: u64,
    login_outcome: TokenExchangeOutcome,
    revoke_outcome: RevokeOutcome,
)
    requires
        s.inv(),
    ensures
        (s.spec_token() is Some) <==> (s.spec_expiry() is Some),
        s.login_step(now, login_outcome).0.inv(),
        s.logout_step(revoke_outcome).0.inv(),
{
}

/// With a stored expiry `T`, the token is fresh strictly before `T` and
/// stale from `T` on: the boundary instant itself already needs refresh.
pub proof fn lemma_refresh_threshold(s: PasswordAuthenticator, now: u64, expiry: u128)
    requires
        s.spec_expiry() == Option::Some(expiry),
    ensures
        (now as u128) < expiry ==> !s.spec_needs_refresh(now),
        (now as u128) >= expiry ==> s.spec_needs_refresh(now),
{
}

/// Without a stored expiry there is no valid token, so refresh is always
/// needed, whatever the current time.
pub proof fn lemma_refresh_without_expiry(s: PasswordAuthenticator, now: u64)
    requires
        s.spec_expiry() is None,
    ensures
        s.spec_needs_refresh(now),
{
}

/// A password-grant strategy injects exactly one header: `authorization`
/// with the bearer token, and only while a token is held.
pub proof fn lemma_injected_bearer(s: PasswordAuthenticator)
    ensures
        s.can_inject() <==> s.spec_token() is Some,
        s.spec_token() is Some ==> s.injected() == seq![
            ("authorization"@, "Bearer "@ + s.spec_token()->Some_0),
        ],
{
}

/// Login is all-or-nothing: on a transport failure, a non-success status
/// or an undecodable body the error surfaces and the state is unchanged;
/// on success the returned token and its computed expiry are stored and
/// the call reports `true`.
pub proof fn lemma_login_all_or_nothing(
    s: PasswordAuthenticator,
    now: u64,
    outcome: TokenExchangeOutcome,
)
    ensures
        ({
            let (next, r) = s.login_step(now, outcome);
            match outcome {
                TokenExchangeOutcome::NoExchange => next == s && r == Result::<
                    bool,
                    AuthError,
                >::Err(AuthError::Precondition),
                TokenExchangeOutcome::Transport => next == s && r == Result::<
                    bool,
                    AuthError,
                >::Err(AuthError::Transport),
                TokenExchangeOutcome::Response { status, token } => if !spec_status_success(
                    status,
                ) {
                    next == s && r == Result::<bool, AuthError>::Err(
                        AuthError::HttpStatus(status),
                    )
                } else {
                    match token {
                        Option::None => next == s && r == Result::<bool, AuthError>::Err(
                            AuthError::Decode,
                        ),
                        Option::Some(td) => r == Result::<bool, AuthError>::Ok(true)
                            && next.spec_token() == Option::Some(td.access_token@)
                            && next.spec_expiry() == Option::Some(
                            expiry_after(now, td.expires_in),
                        ) && next.spec_username() == s.spec_username()
                            && next.spec_password() == s.spec_password()
                            && next.spec_client_id() == s.spec_client_id()
                            && next.spec_client_secret() == s.spec_client_secret(),
                    }
                },
            }
        }),
{
}

/// A successful exchange at `now` with lifetime `expires_in` seconds
/// stores the returned token and sets the expiry to exactly
/// `now + expires_in * 1000` milliseconds, which never lies before `now`.
pub proof fn lemma_login_sets_future_expiry(
    s: PasswordAuthenticator,
    now: u64,
    status: u16,
    td: TokenData,
)
    requires
        spec_status_success(status),
    ensures
        ({
            let outcome = TokenExchangeOutcome::Response {
                status,
                token: Option::Some(TokenData { access_token: td.access_token, expires_in: td.expires_in }),
            };
            let (next, r) = s.login_step(now, outcome);
            r == Result::<bool, AuthError>::Ok(true) && next.spec_token() == Option::Some(
                td.access_token@,
            ) && next.spec_expiry() == Option::Some(expiry_after(now, td.expires_in))
                && expiry_after(now, td.expires_in) >= now as u128
        }),
{
}

/// A flow that refreshes and then injects while holding exclusive access
/// to the strategy injects exactly the token that refresh obtained: after
/// a successful login step nothing but the fresh bearer header is offered.
pub proof fn lemma_fresh_token_injected(
    s: PasswordAuthenticator,
    now: u64,
    status: u16,
    td: TokenData,
)
    requires
        spec_status_success(status),
    ensures
        ({
            let outcome = TokenExchangeOutcome::Response {
                status,
                token: Option::Some(TokenData { access_token: td.access_token, expires_in: td.expires_in }),
            };
            let next = s.login_step(now, outcome).0;
            next.can_inject() && next.injected() == seq![
                ("authorization"@, "Bearer "@ + td.access_token@),
            ]
        }),
{
}

/// Revocation is all-or-nothing: on a transport failure or a non-success
/// status the error surfaces and the state is unchanged; on success both
/// token and expiry become absent.
pub proof fn lemma_logout_all_or_nothing(s: PasswordAuthenticator, outcome: RevokeOutcome)
    ensures
        ({
            let (next, r) = s.logout_step(outcome);
            match outcome {
                RevokeOutcome::Transport => next == s && r == Result::<(), AuthError>::Err(
                    AuthError::Transport,
                ),
                RevokeOutcome::Status(status) => if spec_status_success(status) {
                    next.spec_token() is None && next.spec_expiry() is None && r == Result::<
                        (),
                        AuthError,
                    >::Ok(()) && next.spec_client_id() == s.spec_client_id()
                        && next.spec_client_secret() == s.spec_client_secret()
                        && next.spec_username() == s.spec_username()
                        && next.spec_password() == s.spec_password()
                } else {
                    next == s && r == Result::<(), AuthError>::Err(AuthError::HttpStatus(status))
                },
            }
        }),
{
}


/// A password-grant strategy always asks for an exchange request: a POST
/// to the token endpoint carrying the Basic header over the application
/// credentials, the caller's user agent, the form content type, and the
/// grant body with the percent-encoded user credentials.
pub proof fn lemma_login_request_model(s: PasswordAuthenticator, user_agent: Seq<char>)
    ensures
        ({
            let m = s.login_request_model(user_agent);
            m is Some && {
                let mm = m->Some_0;
                mm.url == token_endpoint() && mm.headers == seq![
                    (
                        "authorization"@,
                        "Basic "@ + base64_of(
                            encode_utf8(s.spec_client_id() + ":"@ + s.spec_client_secret()),
                        ),
                    ),
                    ("user-agent"@, user_agent),
                    ("content-type"@, form_content_type()),
                ] && mm.body == login_body(s.spec_username(), s.spec_password())
            }
        }),
{
}

/// A password-grant strategy's revocation request: the typed precondition
/// error without a token; with one, a POST to the revocation endpoint
/// whose body names the token and whose headers carry no authorization —
/// only the user agent and the form content type.
pub proof fn lemma_logout_request_model(s: PasswordAuthenticator, user_agent: Seq<char>)
    ensures
        s.spec_token() is None ==> s.logout_request_model(user_agent) == Result::<
            Option<RequestModel>,
            AuthError,
        >::Err(AuthError::Precondition),
        s.spec_token() matches Option::Some(t) ==> ({
            let m = s.logout_request_model(user_agent);
            m is Ok && m->Ok_0 is Some && {
                let mm = m->Ok_0->Some_0;
                mm.url == revoke_endpoint() && mm.headers == seq![
                    ("user-agent"@, user_agent),
                    ("content-type"@, form_content_type()),
                ] && mm.body == encode_utf8("token="@) + encode_utf8(t)
            }
        }),
{
}

/// What the description renders: whether a token is held and the decimal
/// expiry (zero when none is stored); no credential appears in it.
pub proof fn lemma_describe(s: PasswordAuthenticator)
    ensures
        s.spec_describe() == "[PasswordAuthenticator] Token Defined: "@ + (if s.spec_token()
            is Some {
            "true"@
        } else {
            "false"@
        }) + " Expires At "@ + decimal_digits(
            match s.spec_expiry() {
                Option::Some(t) => t,
                Option::None => 0,
            },
        ),
{
}

} // verus!
