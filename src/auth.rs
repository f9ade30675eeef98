//! The four OAuth2 grants and their token state machines.
use vstd::prelude::*;
use vstd::string::*;

use crate::error::{check_status, http_error_of, is_success, Error};
use crate::request::{
    basic_authorization, basic_value, build_code_body, build_password_body, build_refresh_body,
    build_revoke_body, code_body, credentials_fit, is_token_request, password_body, refresh_body,
    revoke_body, token_request, Headers, TokenRequest, ACCESS_TOKEN_URL, REVOKE_TOKEN_URL,
};
use crate::json::{
    member, opt_str_fault, opt_str_value, read_opt_str, read_str, read_u64, str_fault, str_value,
    u64_fault, u64_value, Json,
};
use crate::responses::{flaw_error, Flaw};

verus! {

/// What the token endpoint answers.
#[derive(Debug)]
pub struct TokenResponseData {
    pub access_token: String,
    /// Seconds until the token expires.
    pub expires_in: u64,
    pub scope: String,
    pub token_type: String,
    /// Empty when the answer carries none.
    pub refresh_token: String,
}

/// The refresh token of an answer when none is sent: empty.
pub fn default_response() -> (r: String)
    ensures
        r@ == Seq::<char>::empty(),
{
    String::new()
}

/// The first flaw of a token answer, in the order access_token, expires_in,
/// scope, token_type, refresh_token (which may be absent or null).
pub open spec fn token_flaw(doc: Json) -> Option<Flaw> {
    if !(doc is Object) {
        Some(Flaw::NotAnObject)
    } else if str_fault(member(doc, "access_token"@)) is Some {
        Some(Flaw::Field(str_fault(member(doc, "access_token"@))->0, "access_token"@))
    } else if u64_fault(member(doc, "expires_in"@)) is Some {
        Some(Flaw::Field(u64_fault(member(doc, "expires_in"@))->0, "expires_in"@))
    } else if str_fault(member(doc, "scope"@)) is Some {
        Some(Flaw::Field(str_fault(member(doc, "scope"@))->0, "scope"@))
    } else if str_fault(member(doc, "token_type"@)) is Some {
        Some(Flaw::Field(str_fault(member(doc, "token_type"@))->0, "token_type"@))
    } else if opt_str_fault(member(doc, "refresh_token"@)) is Some {
        Some(Flaw::Field(opt_str_fault(member(doc, "refresh_token"@))->0, "refresh_token"@))
    } else {
        None
    }
}

/// The access token of a well-formed answer.
pub open spec fn access_token_of(doc: Json) -> String {
    str_value(member(doc, "access_token"@))
}

/// The lifetime in seconds of a well-formed answer.
pub open spec fn expires_in_of(doc: Json) -> u64 {
    u64_value(member(doc, "expires_in"@))
}

/// The refresh token of an answer, when it carries a non-empty one.
pub open spec fn new_refresh_token(doc: Json) -> Option<String> {
    match opt_str_value(member(doc, "refresh_token"@)) {
        Some(s) => if s@.len() > 0 {
            Some(s)
        } else {
            None
        },
        None => None,
    }
}

impl TokenResponseData {
    /// Reads a token answer; a missing or mistyped member is a decode error.
    pub fn from_json(doc: &Json) -> (r: Result<TokenResponseData, Error>)
        ensures
            token_flaw(*doc) matches Some(f) ==> (r is Err && flaw_error(r->Err_0, f)),
            token_flaw(*doc) is None ==> (r matches Ok(t) && {
                &&& t.access_token == access_token_of(*doc)
                &&& t.expires_in == expires_in_of(*doc)
                &&& t.scope == str_value(member(*doc, "scope"@))
                &&& t.token_type == str_value(member(*doc, "token_type"@))
                &&& match opt_str_value(member(*doc, "refresh_token"@)) {
                    Some(s) => t.refresh_token == s,
                    None => t.refresh_token@.len() == 0,
                }
            }),
    {
        let fields = match doc {
            Json::Object(f) => f,
            _ => {
                return Err(Error::InternalError(crate::error::InternalError::NotAnObject));
            },
        };
        let access_token = match read_str(fields, "access_token") {
            Ok(v) => v,
            Err(e) => {
                return Err(e);
            },
        };
        let expires_in = match read_u64(fields, "expires_in") {
            Ok(v) => v,
            Err(e) => {
                return Err(e);
            },
        };
        let scope = match read_str(fields, "scope") {
            Ok(v) => v,
            Err(e) => {
                return Err(e);
            },
        };
        let token_type = match read_str(fields, "token_type") {
            Ok(v) => v,
            Err(e) => {
                return Err(e);
            },
        };
        let refresh_token = match read_opt_str(fields, "refresh_token") {
            Ok(Some(v)) => v,
            Ok(None) => default_response(),
            Err(e) => {
                return Err(e);
            },
        };
        Ok(TokenResponseData { access_token, expires_in, scope, token_type, refresh_token })
    }
}

/// The expiry instant, in epoch milliseconds, of a token granted at `now`
/// that lives `expires_in` seconds.
pub open spec fn expiry(now: u64, expires_in: u64) -> u128 {
    (now + expires_in * 1000) as u128
}

/// Computes `expiry`; it cannot overflow.
pub fn expiration_after(now: u64, expires_in: u64) -> (r: u128)
    ensures
        r == expiry(now, expires_in),
{
    now as u128 + (expires_in as u128) * 1000
}

/// Relies on `std::time::SystemTime::now`: the milliseconds since the Unix
/// epoch, 0 for a clock set before it. Nothing is promised of the value.
#[verifier::external_body]
fn now_millis() -> (r: u64) {
    std::time::SystemTime::now().duration_since(std::time::UNIX_EPOCH).map(|d| d.as_millis() as u64).unwrap_or(0)
}

/// No credentials: public endpoints only.
#[derive(Clone, Copy, Default)]
pub struct AnonymousAuthenticator;

impl AnonymousAuthenticator {
    /// The anonymous authenticator.
    pub fn new() -> (r: AnonymousAuthenticator) {
        AnonymousAuthenticator
    }
}

/// The password grant for a script application.
pub struct PasswordAuthenticator {
    pub token: Option<String>,
    /// Epoch milliseconds at which the token expires.
    pub expiration_time: Option<u128>,
    pub client_id: String,
    pub client_secret: String,
    pub username: String,
    pub password: String,
}

impl PasswordAuthenticator {
    /// A password authenticator that has no token yet.
    pub fn new(client_id: &str, client_secret: &str, username: &str, password: &str) -> (r:
        PasswordAuthenticator)
        ensures
            r.token is None,
            r.expiration_time is None,
            r.client_id@ == client_id@,
            r.client_secret@ == client_secret@,
            r.username@ == username@,
            r.password@ == password@,
    {
        PasswordAuthenticator {
            token: None,
            expiration_time: None,
            client_id: client_id.to_owned(),
            client_secret: client_secret.to_owned(),
            username: username.to_owned(),
            password: password.to_owned(),
        }
    }
}

/// The authorization-code grant.
pub struct CodeAuthenticator {
    pub token: Option<String>,
    /// Epoch milliseconds at which the token expires.
    pub expiration_time: Option<u128>,
    pub refresh_token: Option<String>,
    pub client_id: String,
    /// Empty for installed applications.
    pub client_secret: String,
    pub authorization_code: String,
    pub redirect_uri: String,
}

/// `parts` joined by commas.
pub open spec fn join_commas(parts: Seq<&str>) -> Seq<char>
    decreases parts.len(),
{
    if parts.len() == 0 {
        Seq::empty()
    } else if parts.len() == 1 {
        parts[0]@
    } else {
        join_commas(parts.drop_last()) + ","@ + parts.last()@
    }
}

/// The page that asks the user to authorize an application.
pub open spec fn authorization_url(
    client_id: Seq<char>,
    redirect_uri: Seq<char>,
    state: Seq<char>,
    duration: Seq<char>,
    scope: Seq<&str>,
) -> Seq<char> {
    "https://www.reddit.com/api/v1/authorize?client_id="@ + client_id
        + "&response_type=code&state="@ + state + "&redirect_uri="@ + redirect_uri
        + "&duration="@ + duration + "&scope="@ + join_commas(scope)
}

impl CodeAuthenticator {
    /// A code authenticator that has no token yet.
    pub fn new(client_id: &str, client_secret: &str, authorization_code: &str, redirect_uri: &str) -> (r:
        CodeAuthenticator)
        ensures
            r.token is None,
            r.expiration_time is None,
            r.refresh_token is None,
            r.client_id@ == client_id@,
            r.client_secret@ == client_secret@,
            r.authorization_code@ == authorization_code@,
            r.redirect_uri@ == redirect_uri@,
    {
        CodeAuthenticator {
            token: None,
            expiration_time: None,
            refresh_token: None,
            client_id: client_id.to_owned(),
            client_secret: client_secret.to_owned(),
            authorization_code: authorization_code.to_owned(),
            redirect_uri: redirect_uri.to_owned(),
        }
    }

    /// The authorization page URL; the values are not checked.
    pub fn generate_authorization_url(
        client_id: &str,
        redirect_uri: &str,
        state: &str,
        duration: &str,
        scope: Vec<&str>,
    ) -> (r: String)
        ensures
            r@ == authorization_url(client_id@, redirect_uri@, state@, duration@, scope@),
    {
        let mut joined = String::new();
        let mut i: usize = 0;
        while i < scope.len()
            invariant
                i <= scope@.len(),
                joined@ == join_commas(scope@.subrange(0, i as int)),
            decreases scope@.len() - i,
        {
            assert(scope@.subrange(0, i + 1).drop_last() =~= scope@.subrange(0, i as int));
            if i > 0 {
                joined.append(",");
            } else {
                assert(scope@.subrange(0, 1) =~= seq![scope@[0]]);
            }
            joined.append(scope[i]);
            i = i + 1;
        }
        assert(scope@.subrange(0, scope@.len() as int) =~= scope@);
        let mut r = "https://www.reddit.com/api/v1/authorize?client_id=".to_owned();
        r.append(client_id);
        r.append("&response_type=code&state=");
        r.append(state);
        r.append("&redirect_uri=");
        r.append(redirect_uri);
        r.append("&duration=");
        r.append(duration);
        r.append("&scope=");
        r.append(joined.as_str());
        r
    }

    /// The refresh-token authenticator that continues this session; refused
    /// when no refresh token was granted.
    pub fn into_token_authenticator(self) -> (r: Result<TokenAuthenticator, Error>)
        ensures
            self.refresh_token is None ==> r matches Err(Error::Other(_)),
            self.refresh_token matches Some(t) ==> r == Ok::<TokenAuthenticator, Error>(
                TokenAuthenticator {
                    token: self.token,
                    expiration_time: self.expiration_time,
                    refresh_token: t,
                    client_id: self.client_id,
                    client_secret: self.client_secret,
                },
            ),
    {
        match self.refresh_token {
            None => Err(Error::Other("No Refresh Token Provided".to_owned())),
            Some(t) => Ok(
                TokenAuthenticator {
                    token: self.token,
                    expiration_time: self.expiration_time,
                    refresh_token: t,
                    client_id: self.client_id,
                    client_secret: self.client_secret,
                },
            ),
        }
    }
}

/// The refresh-token grant, from a stored refresh token.
pub struct TokenAuthenticator {
    pub token: Option<String>,
    /// Epoch milliseconds at which the token expires.
    pub expiration_time: Option<u128>,
    /// Empty once revoked.
    pub refresh_token: String,
    pub client_id: String,
    /// Empty for installed applications.
    pub client_secret: String,
}

impl TokenAuthenticator {
    /// A refresh-token authenticator that has no access token yet.
    pub fn new(client_id: &str, client_secret: &str, refresh_token: &str) -> (r: TokenAuthenticator)
        ensures
            r.token is None,
            r.expiration_time is None,
            r.refresh_token@ == refresh_token@,
            r.client_id@ == client_id@,
            r.client_secret@ == client_secret@,
    {
        TokenAuthenticator {
            token: None,
            expiration_time: None,
            refresh_token: refresh_token.to_owned(),
            client_id: client_id.to_owned(),
            client_secret: client_secret.to_owned(),
        }
    }
}

/// The authenticators that act for a user, as the user-only endpoints
/// require.
pub trait Authorized {}

impl Authorized for PasswordAuthenticator {}

impl Authorized for CodeAuthenticator {}

impl Authorized for TokenAuthenticator {}

/// One authenticator of any grant; the grant set is fixed by the protocol.
pub enum Authenticator {
    Anonymous(AnonymousAuthenticator),
    Password(PasswordAuthenticator),
    Code(CodeAuthenticator),
    Token(TokenAuthenticator),
}

/// The header value that carries `token`.
pub open spec fn bearer(token: Seq<char>) -> Seq<char> {
    "Bearer "@ + token
}

impl Authenticator {
    /// The access token held, if any.
    pub open spec fn access_token(&self) -> Option<String> {
        match self {
            Authenticator::Anonymous(_) => None,
            Authenticator::Password(a) => a.token,
            Authenticator::Code(a) => a.token,
            Authenticator::Token(a) => a.token,
        }
    }

    /// When the access token expires, if known.
    pub open spec fn expiration(&self) -> Option<u128> {
        match self {
            Authenticator::Anonymous(_) => None,
            Authenticator::Password(a) => a.expiration_time,
            Authenticator::Code(a) => a.expiration_time,
            Authenticator::Token(a) => a.expiration_time,
        }
    }

    /// Whether this authenticator can obtain a new token by itself: the
    /// password grant by logging in again, the others with a non-empty
    /// refresh token.
    pub open spec fn can_refresh(&self) -> bool {
        match self {
            Authenticator::Anonymous(_) => false,
            Authenticator::Password(_) => true,
            Authenticator::Code(a) => a.refresh_token matches Some(t) && t@.len() > 0,
            Authenticator::Token(a) => a.refresh_token@.len() > 0,
        }
    }

    /// A token and its expiry are held together or not at all.
    pub open spec fn wf(&self) -> bool {
        self.access_token() is Some <==> self.expiration() is Some
    }

    /// Whether a refresh is due at `now`: the authenticator can refresh, and
    /// its expiry is unknown or has been reached.
    pub open spec fn spec_needs_refresh(&self, now: u64) -> bool {
        self.can_refresh() && match self.expiration() {
            None => true,
            Some(e) => now >= e,
        }
    }

    /// The token held has expired at `now`.
    pub open spec fn is_expired(&self, now: u64) -> bool {
        self.expiration() matches Some(e) && now >= e
    }

    /// The client id and secret, for the grants that have them.
    pub open spec fn client(&self) -> (Seq<char>, Seq<char>) {
        match self {
            Authenticator::Anonymous(_) => (Seq::empty(), Seq::empty()),
            Authenticator::Password(a) => (a.client_id@, a.client_secret@),
            Authenticator::Code(a) => (a.client_id@, a.client_secret@),
            Authenticator::Token(a) => (a.client_id@, a.client_secret@),
        }
    }

    /// The body of the login grant exchange.
    pub open spec fn login_body(&self) -> Seq<char> {
        match self {
            Authenticator::Anonymous(_) => Seq::empty(),
            Authenticator::Password(a) => password_body(a.username@, a.password@),
            Authenticator::Code(a) => code_body(a.authorization_code@, a.redirect_uri@),
            Authenticator::Token(a) => refresh_body(a.refresh_token@),
        }
    }

    /// The body of the refresh exchange: the password grant logs in again,
    /// the others send their refresh token.
    pub open spec fn refresh_body(&self) -> Seq<char> {
        match self {
            Authenticator::Code(a) => refresh_body(a.refresh_token->0@),
            _ => self.login_body(),
        }
    }

    /// The token that logout revokes and its hint, preferring the refresh
    /// token; `None` when there is nothing to revoke.
    pub open spec fn revoke_target(&self) -> Option<(Seq<char>, Seq<char>)> {
        match self {
            Authenticator::Anonymous(_) => None,
            Authenticator::Code(a) => if a.refresh_token matches Some(t) && t@.len() > 0 {
                Some((a.refresh_token->0@, "refresh_token"@))
            } else if a.token is Some {
                Some((a.token->0@, "access_token"@))
            } else {
                None
            },
            Authenticator::Token(a) => if a.refresh_token@.len() > 0 {
                Some((a.refresh_token@, "refresh_token"@))
            } else if a.token is Some {
                Some((a.token->0@, "access_token"@))
            } else {
                None
            },
            Authenticator::Password(a) => if a.token is Some {
                Some((a.token->0@, "access_token"@))
            } else {
                None
            },
        }
    }

    /// This authenticator holding `token`, expiring at `exp`; a code grant
    /// also keeps `refresh` when one is given.
    pub open spec fn with_token(self, token: String, exp: u128, refresh: Option<String>) -> Authenticator {
        match self {
            Authenticator::Anonymous(a) => Authenticator::Anonymous(a),
            Authenticator::Password(a) => Authenticator::Password(
                PasswordAuthenticator { token: Some(token), expiration_time: Some(exp), ..a },
            ),
            Authenticator::Code(a) => Authenticator::Code(
                CodeAuthenticator {
                    token: Some(token),
                    expiration_time: Some(exp),
                    refresh_token: if refresh is Some {
                        refresh
                    } else {
                        a.refresh_token
                    },
                    ..a
                },
            ),
            Authenticator::Token(a) => Authenticator::Token(
                TokenAuthenticator { token: Some(token), expiration_time: Some(exp), ..a },
            ),
        }
    }

    /// The state after a successful login at `now` with answer `doc`.
    pub open spec fn logged_in(self, doc: Json, now: u64) -> Authenticator {
        self.with_token(access_token_of(doc), expiry(now, expires_in_of(doc)), new_refresh_token(doc))
    }

    /// The state after a successful refresh at `now` with answer `doc`; the
    /// refresh token already held is kept.
    pub open spec fn refreshed(self, doc: Json, now: u64) -> Authenticator {
        self.with_token(access_token_of(doc), expiry(now, expires_in_of(doc)), None)
    }

    /// `new` is `old` with its token, expiry and refresh token cleared.
    pub open spec fn is_logged_out(old: Authenticator, new: Authenticator) -> bool {
        match (old, new) {
            (Authenticator::Anonymous(_), Authenticator::Anonymous(_)) => true,
            (Authenticator::Password(a), Authenticator::Password(b)) => b == PasswordAuthenticator {
                token: None,
                expiration_time: None,
                ..a
            },
            (Authenticator::Code(a), Authenticator::Code(b)) => b == CodeAuthenticator {
                token: None,
                expiration_time: None,
                refresh_token: None,
                ..a
            },
            (Authenticator::Token(a), Authenticator::Token(b)) => {
                &&& b.token is None
                &&& b.expiration_time is None
                &&& b.refresh_token@.len() == 0
                &&& b.client_id == a.client_id
                &&& b.client_secret == a.client_secret
            },
            _ => false,
        }
    }

    /// Whether OAuth endpoints can be used: all grants but the anonymous one.
    pub fn oauth(&self) -> (r: bool)
        ensures
            r == !(self is Anonymous),
    {
        match self {
            Authenticator::Anonymous(_) => false,
            _ => true,
        }
    }

    /// Whether a refresh is due at `now` (epoch milliseconds).
    pub fn needs_refresh_at(&self, now: u64) -> (r: bool)
        ensures
            r == self.spec_needs_refresh(now),
    {
        let exp = match self {
            Authenticator::Anonymous(_) => {
                return false;
            },
            Authenticator::Password(a) => a.expiration_time,
            Authenticator::Code(a) => {
                match &a.refresh_token {
                    Some(t) => if t.as_str().is_empty() {
                        return false;
                    },
                    None => {
                        return false;
                    },
                }
                a.expiration_time
            },
            Authenticator::Token(a) => {
                if a.refresh_token.as_str().is_empty() {
                    return false;
                }
                a.expiration_time
            },
        };
        match exp {
            None => true,
            Some(e) => now as u128 >= e,
        }
    }

    /// `TokenExpired` when the token has expired at `now` and this
    /// authenticator cannot renew it; otherwise the token is usable.
    pub fn check_fresh(&self, now: u64) -> (r: Result<(), Error>)
        ensures
            self.is_expired(now) && !self.can_refresh() ==> r == Err::<(), Error>(
                Error::TokenExpired,
            ),
            !(self.is_expired(now) && !self.can_refresh()) ==> r == Ok::<(), Error>(()),
    {
        let exp = match self {
            Authenticator::Anonymous(_) => None,
            Authenticator::Password(a) => a.expiration_time,
            Authenticator::Code(a) => a.expiration_time,
            Authenticator::Token(a) => a.expiration_time,
        };
        let expired = match exp {
            Some(e) => now as u128 >= e,
            None => false,
        };
        let capable = match self {
            Authenticator::Anonymous(_) => false,
            Authenticator::Password(_) => true,
            Authenticator::Code(a) => match &a.refresh_token {
                Some(t) => !t.as_str().is_empty(),
                None => false,
            },
            Authenticator::Token(a) => !a.refresh_token.as_str().is_empty(),
        };
        if expired && !capable {
            Err(Error::TokenExpired)
        } else {
            Ok(())
        }
    }

    /// Whether a refresh is due now, by the system clock.
    pub fn needs_token_refresh(&self) -> (r: bool)
        ensures
            exists|now: u64| r == self.spec_needs_refresh(now),
            !self.can_refresh() ==> !r,
            self.can_refresh() && self.expiration() is None ==> r,
    {
        let now = now_millis();
        let r = self.needs_refresh_at(now);
        assert(r == self.spec_needs_refresh(now));
        r
    }

    /// The refresh token held, if any.
    pub fn get_refresh_token(&self) -> (r: Option<String>)
        ensures
            r == match self {
                Authenticator::Code(a) => a.refresh_token,
                Authenticator::Token(a) => Some(a.refresh_token),
                _ => None::<String>,
            },
    {
        match self {
            Authenticator::Code(a) => match &a.refresh_token {
                Some(t) => Some(t.clone()),
                None => None,
            },
            Authenticator::Token(a) => Some(a.refresh_token.clone()),
            _ => None,
        }
    }

    /// Adds `Authorization: Bearer <token>` when a token is held; otherwise
    /// leaves the headers as they are.
    pub fn headers(&self, headers: &mut Headers)
        ensures
            self.access_token() matches Some(t) ==> {
                &&& final(headers).get("authorization"@) == Some(bearer(t@))
                &&& forall|n: Seq<char>|
                    n != "authorization"@ ==> final(headers).get(n) == old(headers).get(n)
            },
            self.access_token() is None ==> *final(headers) == *old(headers),
    {
        let token = match self {
            Authenticator::Anonymous(_) => None,
            Authenticator::Password(a) => a.token.as_ref(),
            Authenticator::Code(a) => a.token.as_ref(),
            Authenticator::Token(a) => a.token.as_ref(),
        };
        if let Some(t) = token {
            let mut value = "Bearer ".to_owned();
            value.append(t.as_str());
            headers.insert("authorization", value);
        }
    }

    /// The client credentials, borrowed.
    fn client_credentials(&self) -> (r: (&str, &str))
        requires
            !(self is Anonymous),
        ensures
            (r.0@, r.1@) == self.client(),
    {
        match self {
            Authenticator::Password(a) => (a.client_id.as_str(), a.client_secret.as_str()),
            Authenticator::Code(a) => (a.client_id.as_str(), a.client_secret.as_str()),
            Authenticator::Token(a) => (a.client_id.as_str(), a.client_secret.as_str()),
            Authenticator::Anonymous(_) => ("", ""),
        }
    }

    /// The grant exchange that logs in; `None` for the anonymous
    /// authenticator, which has nothing to exchange.
    pub fn login_request(&self, user_agent: &str) -> (r: Result<Option<TokenRequest>, Error>)
        ensures
            self is Anonymous ==> r == Ok::<Option<TokenRequest>, Error>(None),
            !(self is Anonymous) && !credentials_fit(self.client().0, self.client().1) ==> r matches Err(
                Error::Other(_),
            ),
            !(self is Anonymous) && credentials_fit(self.client().0, self.client().1) ==> (r matches Ok(
                Some(req),
            ) && is_token_request(
                req,
                ACCESS_TOKEN_URL@,
                Some(basic_value(self.client().0, self.client().1)),
                user_agent@,
                self.login_body(),
            )),
    {
        if let Authenticator::Anonymous(_) = self {
            return Ok(None);
        }
        let (id, secret) = self.client_credentials();
        let basic = match basic_authorization(id, secret) {
            Ok(v) => v,
            Err(e) => {
                return Err(e);
            },
        };
        let body = match self {
            Authenticator::Password(a) => build_password_body(a.username.as_str(), a.password.as_str()),
            Authenticator::Code(a) => build_code_body(
                a.authorization_code.as_str(),
                a.redirect_uri.as_str(),
            ),
            Authenticator::Token(a) => build_refresh_body(a.refresh_token.as_str()),
            Authenticator::Anonymous(_) => String::new(),
        };
        Ok(Some(token_request(ACCESS_TOKEN_URL, Some(basic), user_agent, body)))
    }

    /// The exchange that renews the token; refused when this authenticator
    /// cannot refresh.
    pub fn refresh_request(&self, user_agent: &str) -> (r: Result<TokenRequest, Error>)
        ensures
            !self.can_refresh() ==> r matches Err(Error::Other(_)),
            self.can_refresh() && !credentials_fit(self.client().0, self.client().1) ==> r matches Err(
                Error::Other(_),
            ),
            self.can_refresh() && credentials_fit(self.client().0, self.client().1) ==> (r matches Ok(
                req,
            ) && is_token_request(
                req,
                ACCESS_TOKEN_URL@,
                Some(basic_value(self.client().0, self.client().1)),
                user_agent@,
                self.refresh_body(),
            )),
    {
        let body = match self {
            Authenticator::Anonymous(_) => {
                return Err(Error::Other("this authenticator cannot refresh a token".to_owned()));
            },
            Authenticator::Password(a) => build_password_body(a.username.as_str(), a.password.as_str()),
            Authenticator::Code(a) => match &a.refresh_token {
                Some(t) => {
                    if t.as_str().is_empty() {
                        return Err(
                            Error::Other("this authenticator cannot refresh a token".to_owned()),
                        );
                    }
                    build_refresh_body(t.as_str())
                },
                None => {
                    return Err(Error::Other("this authenticator cannot refresh a token".to_owned()));
                },
            },
            Authenticator::Token(a) => {
                if a.refresh_token.as_str().is_empty() {
                    return Err(Error::Other("this authenticator cannot refresh a token".to_owned()));
                }
                build_refresh_body(a.refresh_token.as_str())
            },
        };
        let (id, secret) = self.client_credentials();
        let basic = match basic_authorization(id, secret) {
            Ok(v) => v,
            Err(e) => {
                return Err(e);
            },
        };
        Ok(token_request(ACCESS_TOKEN_URL, Some(basic), user_agent, body))
    }

    /// The revocation to send on logout, preferring the refresh token;
    /// `None` when there is nothing to revoke.
    pub fn logout_request(&self, user_agent: &str) -> (r: Option<TokenRequest>)
        ensures
            self.revoke_target() is None ==> r is None,
            self.revoke_target() matches Some(t) ==> (r matches Some(req) && is_token_request(
                req,
                REVOKE_TOKEN_URL@,
                None,
                user_agent@,
                revoke_body(t.0, t.1),
            )),
    {
        let target: Option<(&str, &str)> = match self {
            Authenticator::Anonymous(_) => None,
            Authenticator::Code(a) => match (&a.refresh_token, &a.token) {
                (Some(rt), _) if !rt.as_str().is_empty() => Some((rt.as_str(), "refresh_token")),
                (_, Some(t)) => Some((t.as_str(), "access_token")),
                _ => None,
            },
            Authenticator::Token(a) => if !a.refresh_token.as_str().is_empty() {
                Some((a.refresh_token.as_str(), "refresh_token"))
            } else {
                match &a.token {
                    Some(t) => Some((t.as_str(), "access_token")),
                    None => None,
                }
            },
            Authenticator::Password(a) => match &a.token {
                Some(t) => Some((t.as_str(), "access_token")),
                None => None,
            },
        };
        match target {
            None => None,
            Some((token, hint)) => Some(
                token_request(REVOKE_TOKEN_URL, None, user_agent, build_revoke_body(token, hint)),
            ),
        }
    }

    /// Takes in a new token, expiring at `exp`; a code grant also takes a
    /// non-empty `refresh`.
    fn set_token(&mut self, token: String, exp: u128, refresh: Option<String>)
        ensures
            *final(self) == old(self).with_token(token, exp, refresh),
    {
        match self {
            Authenticator::Anonymous(_) => {},
            Authenticator::Password(a) => {
                a.token = Some(token);
                a.expiration_time = Some(exp);
            },
            Authenticator::Code(a) => {
                a.token = Some(token);
                a.expiration_time = Some(exp);
                if refresh.is_some() {
                    a.refresh_token = refresh;
                }
            },
            Authenticator::Token(a) => {
                a.token = Some(token);
                a.expiration_time = Some(exp);
            },
        }
    }

    /// Completes a login with the token endpoint's status and answer,
    /// received at `now` (epoch milliseconds). A failed status or a malformed
    /// answer leaves the state as it was.
    pub fn complete_login(&mut self, status: u16, doc: &Json, now: u64) -> (r: Result<bool, Error>)
        ensures
            *old(self) is Anonymous ==> r == Ok::<bool, Error>(true) && *final(self) == *old(self),
            !(*old(self) is Anonymous) && !is_success(status) ==> r == Err::<bool, Error>(
                Error::HTTPError(http_error_of(status)),
            ) && *final(self) == *old(self),
            !(*old(self) is Anonymous) && is_success(status) && token_flaw(*doc) is Some ==> r is Err
                && flaw_error(r->Err_0, token_flaw(*doc)->0) && *final(self) == *old(self),
            !(*old(self) is Anonymous) && is_success(status) && token_flaw(*doc) is None ==> r
                == Ok::<bool, Error>(true) && *final(self) == old(self).logged_in(*doc, now),
    {
        if let Authenticator::Anonymous(_) = self {
            return Ok(true);
        }
        if let Err(e) = check_status(status) {
            return Err(e);
        }
        let data = match TokenResponseData::from_json(doc) {
            Ok(d) => d,
            Err(e) => {
                return Err(e);
            },
        };
        let exp = expiration_after(now, data.expires_in);
        let refresh = if data.refresh_token.as_str().is_empty() {
            None
        } else {
            Some(data.refresh_token)
        };
        self.set_token(data.access_token, exp, refresh);
        Ok(true)
    }

    /// Completes a refresh with the token endpoint's status and answer,
    /// received at `now`. Refused, with the state kept, when this
    /// authenticator cannot refresh; a failed status or a malformed answer
    /// also keeps the state.
    pub fn complete_refresh(&mut self, status: u16, doc: &Json, now: u64) -> (r: Result<bool, Error>)
        ensures
            !old(self).can_refresh() ==> (r matches Err(Error::Other(_))) && *final(self) == *old(
                self,
            ),
            old(self).can_refresh() && !is_success(status) ==> r == Err::<bool, Error>(
                Error::HTTPError(http_error_of(status)),
            ) && *final(self) == *old(self),
            old(self).can_refresh() && is_success(status) && token_flaw(*doc) is Some ==> r is Err
                && flaw_error(r->Err_0, token_flaw(*doc)->0) && *final(self) == *old(self),
            old(self).can_refresh() && is_success(status) && token_flaw(*doc) is None ==> r
                == Ok::<bool, Error>(true) && *final(self) == old(self).refreshed(*doc, now),
    {
        let capable = match self {
            Authenticator::Anonymous(_) => false,
            Authenticator::Password(_) => true,
            Authenticator::Code(a) => match &a.refresh_token {
                Some(t) => !t.as_str().is_empty(),
                None => false,
            },
            Authenticator::Token(a) => !a.refresh_token.as_str().is_empty(),
        };
        if !capable {
            return Err(Error::Other("this authenticator cannot refresh a token".to_owned()));
        }
        if let Err(e) = check_status(status) {
            return Err(e);
        }
        let data = match TokenResponseData::from_json(doc) {
            Ok(d) => d,
            Err(e) => {
                return Err(e);
            },
        };
        let exp = expiration_after(now, data.expires_in);
        self.set_token(data.access_token, exp, None);
        Ok(true)
    }

    /// Completes a logout with the revocation's status: on success the
    /// token, its expiry and the refresh token are cleared; otherwise the
    /// state is kept. The anonymous authenticator has nothing to clear.
    pub fn complete_logout(&mut self, status: u16) -> (r: Result<(), Error>)
        ensures
            *old(self) is Anonymous ==> r == Ok::<(), Error>(()) && *final(self) == *old(self),
            !(*old(self) is Anonymous) && !is_success(status) ==> r == Err::<(), Error>(
                Error::HTTPError(http_error_of(status)),
            ) && *final(self) == *old(self),
            !(*old(self) is Anonymous) && is_success(status) ==> r == Ok::<(), Error>(())
                && Authenticator::is_logged_out(*old(self), *final(self)),
    {
        if let Authenticator::Anonymous(_) = self {
            return Ok(());
        }
        if let Err(e) = check_status(status) {
            return Err(e);
        }
        match self {
            Authenticator::Anonymous(_) => {},
            Authenticator::Password(a) => {
                a.token = None;
                a.expiration_time = None;
            },
            Authenticator::Code(a) => {
                a.token = None;
                a.expiration_time = None;
                a.refresh_token = None;
            },
            Authenticator::Token(a) => {
                a.token = None;
                a.expiration_time = None;
                a.refresh_token = String::new();
            },
        }
        Ok(())
    }
}

/// After a login at `login_at` whose answer lives `expires_in_of(doc)`
/// seconds, a refresh is due at exactly the instants from
/// `login_at + expires_in * 1000` on, provided the new state can refresh.
pub proof fn lemma_expiry_monotonic(a: Authenticator, doc: Json, login_at: u64, t: u64)
    requires
        token_flaw(doc) is None,
        a.logged_in(doc, login_at).can_refresh(),
    ensures
        a.logged_in(doc, login_at).spec_needs_refresh(t) <==> t >= login_at + expires_in_of(doc)
            * 1000,
{
}

/// Two refreshes in a row, each with a well-formed answer of positive
/// lifetime, leave a well-formed state that holds an unexpired token after
/// each, of the same grant and client, and still able to refresh.
pub proof fn lemma_refresh_twice(a: Authenticator, doc1: Json, t1: u64, doc2: Json, t2: u64)
    requires
        a.wf(),
        a.can_refresh(),
        token_flaw(doc1) is None,
        token_flaw(doc2) is None,
        expires_in_of(doc1) > 0,
        expires_in_of(doc2) > 0,
    ensures
        a.refreshed(doc1, t1).wf(),
        a.refreshed(doc1, t1).access_token() is Some,
        !a.refreshed(doc1, t1).spec_needs_refresh(t1),
        a.refreshed(doc1, t1).can_refresh(),
        a.refreshed(doc1, t1).refreshed(doc2, t2).wf(),
        a.refreshed(doc1, t1).refreshed(doc2, t2).access_token() is Some,
        !a.refreshed(doc1, t1).refreshed(doc2, t2).spec_needs_refresh(t2),
        a.refreshed(doc1, t1).refreshed(doc2, t2).can_refresh(),
        a.refreshed(doc1, t1).refreshed(doc2, t2).client() == a.client(),
{
}

/// The anonymous authenticator never needs a refresh, and logging in or out
/// changes nothing, whatever the answer and the time.
pub proof fn lemma_anonymous_never_refreshes(a: AnonymousAuthenticator, doc: Json, now: u64)
    ensures
        !Authenticator::Anonymous(a).spec_needs_refresh(now),
        !Authenticator::Anonymous(a).can_refresh(),
        Authenticator::Anonymous(a).logged_in(doc, now) == Authenticator::Anonymous(a),
        Authenticator::Anonymous(a).revoke_target() is None,
        Authenticator::is_logged_out(Authenticator::Anonymous(a), Authenticator::Anonymous(a)),
{
}

/// Logging in, refreshing and logging out keep a token and its expiry
/// together.
pub proof fn lemma_transitions_keep_wf(a: Authenticator, b: Authenticator, doc: Json, now: u64)
    requires
        a.wf(),
    ensures
        a.logged_in(doc, now).wf(),
        a.refreshed(doc, now).wf(),
        Authenticator::is_logged_out(a, b) ==> b.wf(),
{
}

} // verus!
