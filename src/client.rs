//! The session: one authenticator owned outright, and the decisions of the
//! request pipeline (refresh first when due, then build and send).
use vstd::prelude::*;
use vstd::string::*;

use crate::auth::{access_token_of, bearer, expires_in_of, token_flaw, Authenticator};
use crate::error::{check_status, http_error_of, is_success, Error};
use crate::json::Json;
use crate::request::{
    basic_value, credentials_fit, is_token_request, Headers, TokenRequest, ACCESS_TOKEN_URL,
};
use crate::responses::flaw_error;

verus! {

/// The host of OAuth endpoints.
pub const OAUTH_HOST: &'static str = "https://oauth.reddit.com";

/// The host of public, unauthenticated endpoints.
pub const API_HOST: &'static str = "https://api.reddit.com";

/// The absolute URL of `dest`: on the OAuth host when OAuth is required or
/// supported, else on the public host.
pub open spec fn url_for(dest: Seq<char>, oauth_required: bool, oauth_supported: bool) -> Seq<char> {
    if oauth_required || oauth_supported {
        OAUTH_HOST@ + dest
    } else {
        API_HOST@ + dest
    }
}

/// The HTTP method of a resource call.
#[derive(Debug, Clone, Copy, PartialEq, Eq, Structural)]
pub enum Method {
    Get,
    Post,
}

/// A resource call, as plain values.
pub struct HttpRequest {
    pub method: Method,
    pub url: String,
    pub headers: Headers,
    pub body: Option<String>,
}

/// What the pipeline does next for a request.
pub enum Step {
    /// Renew the token with this exchange, then ask again.
    Refresh(TokenRequest),
    /// Send this call.
    Send(HttpRequest),
}

/// A session with the API.
pub struct Client {
    pub auth: Authenticator,
    pub user_agent: String,
}

impl Client {
    /// Whether OAuth endpoints can be used; false only for the anonymous
    /// authenticator.
    pub open spec fn supports_oauth(&self) -> bool {
        !(self.auth is Anonymous)
    }

    /// `req` is the call for `dest` that this session sends: the URL by host
    /// selection, the user agent, the bearer token when one is held, and no
    /// other header.
    pub open spec fn sends(
        &self,
        req: HttpRequest,
        method: Method,
        dest: Seq<char>,
        oauth_required: bool,
        body: Option<Seq<char>>,
    ) -> bool {
        &&& req.method == method
        &&& req.url@ == url_for(dest, oauth_required, self.supports_oauth())
        &&& req.headers.get("user-agent"@) == Some(self.user_agent@)
        &&& req.headers.get("authorization"@) == match self.auth.access_token() {
            Some(t) => Some(bearer(t@)),
            None => None,
        }
        &&& forall|n: Seq<char>|
            n != "user-agent"@ && n != "authorization"@ ==> req.headers.get(n) is None
        &&& match body {
            Some(b) => req.body matches Some(x) && x@ == b,
            None => req.body is None,
        }
    }

    /// A session over `auth`, sending `user_agent`.
    pub fn new(auth: Authenticator, user_agent: &str) -> (r: Client)
        ensures
            r.auth == auth,
            r.user_agent@ == user_agent@,
    {
        Client { auth, user_agent: user_agent.to_owned() }
    }

    /// Whether OAuth endpoints can be used.
    pub fn oauth(&self) -> (r: bool)
        ensures
            r == self.supports_oauth(),
    {
        self.auth.oauth()
    }

    /// The refresh token held, if any.
    pub fn refresh_token(&self) -> (r: Option<String>)
        ensures
            r == match self.auth {
                Authenticator::Code(a) => a.refresh_token,
                Authenticator::Token(a) => Some(a.refresh_token),
                _ => None::<String>,
            },
    {
        self.auth.get_refresh_token()
    }

    /// The absolute URL of `dest`. Asking for OAuth through an authenticator
    /// that cannot support it is a contract violation, not an error.
    pub fn build_url(&self, dest: &str, oauth_required: bool, oauth_supported: bool) -> (r: String)
        requires
            oauth_required ==> oauth_supported,
        ensures
            r@ == url_for(dest@, oauth_required, oauth_supported),
    {
        let mut url = if oauth_required || oauth_supported {
            OAUTH_HOST.to_owned()
        } else {
            API_HOST.to_owned()
        };
        url.append(dest);
        url
    }

    /// Builds the call for `dest` with the headers of the current token.
    pub fn prepare(&self, method: Method, dest: &str, oauth_required: bool, body: Option<&str>) -> (r:
        HttpRequest)
        requires
            oauth_required ==> self.supports_oauth(),
        ensures
            self.sends(
                r,
                method,
                dest@,
                oauth_required,
                match body {
                    Some(b) => Some(b@),
                    None => None,
                },
            ),
    {
        let url = self.build_url(dest, oauth_required, self.auth.oauth());
        proof {
            reveal_strlit("authorization");
            reveal_strlit("user-agent");
            assert("authorization"@.len() != "user-agent"@.len());
        }
        let mut headers = Headers::new();
        headers.insert("user-agent", self.user_agent.clone());
        self.auth.headers(&mut headers);
        let body = match body {
            Some(b) => Some(b.to_owned()),
            None => None,
        };
        HttpRequest { method, url, headers, body }
    }

    /// The next step of a request at `now`: a refresh when one is due and
    /// none was made for this request yet; `TokenExpired` when the token has
    /// expired and cannot be renewed; else the call itself, built after any
    /// refresh. So a request refreshes at most once, and only when the token
    /// has expired.
    pub fn next_step(
        &self,
        method: Method,
        dest: &str,
        oauth_required: bool,
        body: Option<&str>,
        refreshed: bool,
        now: u64,
    ) -> (r: Result<Step, Error>)
        requires
            oauth_required ==> self.supports_oauth(),
        ensures
            !refreshed && self.auth.spec_needs_refresh(now) && credentials_fit(
                self.auth.client().0,
                self.auth.client().1,
            ) ==> (r matches Ok(Step::Refresh(req)) && is_token_request(
                req,
                ACCESS_TOKEN_URL@,
                Some(basic_value(self.auth.client().0, self.auth.client().1)),
                self.user_agent@,
                self.auth.refresh_body(),
            )),
            !refreshed && self.auth.spec_needs_refresh(now) && !credentials_fit(
                self.auth.client().0,
                self.auth.client().1,
            ) ==> r matches Err(Error::Other(_)),
            (refreshed || !self.auth.spec_needs_refresh(now)) && self.auth.is_expired(now)
                && !self.auth.can_refresh() ==> r == Err::<Step, Error>(Error::TokenExpired),
            (refreshed || !self.auth.spec_needs_refresh(now)) && !(self.auth.is_expired(now)
                && !self.auth.can_refresh()) ==> (r matches Ok(Step::Send(req)) && self.sends(
                req,
                method,
                dest@,
                oauth_required,
                match body {
                    Some(b) => Some(b@),
                    None => None,
                },
            )),
    {
        if !refreshed && self.auth.needs_refresh_at(now) {
            match self.auth.refresh_request(self.user_agent.as_str()) {
                Ok(req) => Ok(Step::Refresh(req)),
                Err(e) => Err(e),
            }
        } else {
            match self.auth.check_fresh(now) {
                Ok(()) => Ok(Step::Send(self.prepare(method, dest, oauth_required, body))),
                Err(e) => Err(e),
            }
        }
    }

    /// Completes the initial login; see `Authenticator::complete_login`.
    pub fn complete_login(&mut self, status: u16, doc: &Json, now: u64) -> (r: Result<bool, Error>)
        ensures
            final(self).user_agent == old(self).user_agent,
            old(self).auth is Anonymous ==> r == Ok::<bool, Error>(true) && final(self).auth == old(
                self,
            ).auth,
            !(old(self).auth is Anonymous) && !is_success(status) ==> r == Err::<bool, Error>(
                Error::HTTPError(http_error_of(status)),
            ) && final(self).auth == old(self).auth,
            !(old(self).auth is Anonymous) && is_success(status) && crate::auth::token_flaw(*doc)
                is Some ==> r is Err && flaw_error(r->Err_0, crate::auth::token_flaw(*doc)->0)
                && final(self).auth == old(self).auth,
            !(old(self).auth is Anonymous) && is_success(status) && crate::auth::token_flaw(*doc)
                is None ==> r == Ok::<bool, Error>(true) && final(self).auth == old(
                self,
            ).auth.logged_in(*doc, now),
    {
        self.auth.complete_login(status, doc, now)
    }

    /// Completes a refresh; see `Authenticator::complete_refresh`.
    pub fn complete_refresh(&mut self, status: u16, doc: &Json, now: u64) -> (r: Result<bool, Error>)
        ensures
            final(self).user_agent == old(self).user_agent,
            !old(self).auth.can_refresh() ==> (r matches Err(Error::Other(_))) && final(self).auth
                == old(self).auth,
            old(self).auth.can_refresh() && !is_success(status) ==> r == Err::<bool, Error>(
                Error::HTTPError(http_error_of(status)),
            ) && final(self).auth == old(self).auth,
            old(self).auth.can_refresh() && is_success(status) && crate::auth::token_flaw(*doc)
                is Some ==> r is Err && flaw_error(r->Err_0, crate::auth::token_flaw(*doc)->0)
                && final(self).auth == old(self).auth,
            old(self).auth.can_refresh() && is_success(status) && crate::auth::token_flaw(*doc)
                is None ==> r == Ok::<bool, Error>(true) && final(self).auth == old(
                self,
            ).auth.refreshed(*doc, now),
    {
        self.auth.complete_refresh(status, doc, now)
    }
}

/// When a due refresh succeeds with an answer of positive lifetime, the
/// same instant needs no further refresh, the token has not expired, and
/// the call then built carries the new token.
pub proof fn lemma_refresh_then_send(c: Client, doc: Json, now: u64)
    requires
        c.auth.spec_needs_refresh(now),
        token_flaw(doc) is None,
        expires_in_of(doc) > 0,
    ensures
        !c.auth.refreshed(doc, now).spec_needs_refresh(now),
        !c.auth.refreshed(doc, now).is_expired(now),
        c.auth.refreshed(doc, now).access_token() == Some(access_token_of(doc)),
{
}

/// The body of a successful response; any other status is an HTTP error,
/// 404 told apart as not found.
pub fn success_body(status: u16, doc: Json) -> (r: Result<Json, Error>)
    ensures
        is_success(status) ==> r == Ok::<Json, Error>(doc),
        !is_success(status) ==> r == Err::<Json, Error>(Error::HTTPError(http_error_of(status))),
{
    match check_status(status) {
        Ok(()) => Ok(doc),
        Err(e) => Err(e),
    }
}

} // verus!
