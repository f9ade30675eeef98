//! Outbound requests as plain values: header lists, token-endpoint calls and
//! the Basic credentials header.
use base64::Engine;
use vstd::prelude::*;
use vstd::string::*;
use vstd::utf8::encode_utf8;

use crate::error::Error;

verus! {

/// The token endpoint of the grant exchange.
pub const ACCESS_TOKEN_URL: &'static str = "https://www.reddit.com/api/v1/access_token";

/// The endpoint that revokes a token.
pub const REVOKE_TOKEN_URL: &'static str = "https://www.reddit.com/api/v1/revoke_token";

/// The content type of every token-endpoint body.
pub const AUTH_CONTENT_TYPE: &'static str = "application/x-www-form-urlencoded";

/// The first value stored under `name`, if any.
pub open spec fn header_lookup(entries: Seq<(String, String)>, name: Seq<char>) -> Option<Seq<char>>
    decreases entries.len(),
{
    if entries.len() == 0 {
        None
    } else if entries[0].0@ == name {
        Some(entries[0].1@)
    } else {
        header_lookup(entries.drop_first(), name)
    }
}

/// Request headers, by lower-case name, each name at most once.
pub struct Headers {
    pub entries: Vec<(String, String)>,
}

impl Headers {
    /// The value of each header name.
    pub open spec fn get(&self, name: Seq<char>) -> Option<Seq<char>> {
        header_lookup(self.entries@, name)
    }

    /// No headers.
    pub fn new() -> (r: Headers)
        ensures
            r.entries@.len() == 0,
            forall|n: Seq<char>| r.get(n) is None,
    {
        Headers { entries: Vec::new() }
    }

    /// Sets header `name` to `value`, replacing an earlier value.
    pub fn insert(&mut self, name: &str, value: String)
        ensures
            final(self).get(name@) == Some(value@),
            forall|n: Seq<char>| n != name@ ==> final(self).get(n) == old(self).get(n),
    {
        let wanted = name.to_owned();
        let ghost old_entries = self.entries@;
        let mut i: usize = 0;
        assert(old_entries.subrange(0, old_entries.len() as int) =~= old_entries);
        while i < self.entries.len()
            invariant
                i <= self.entries@.len(),
                self.entries@ == old_entries,
                old_entries == old(self).entries@,
                wanted@ == name@,
                forall|j: int| 0 <= j < i ==> (#[trigger] old_entries[j]).0@ != name@,
            decreases self.entries@.len() - i,
        {
            if self.entries[i].0 == wanted {
                let ghost before = self.entries@;
                let entry = (wanted, value);
                let ghost e = entry;
                self.entries.set(i, entry);
                proof {
                    lemma_set_same(before, i as int, e);
                    assert forall|n: Seq<char>| n != name@ implies self.get(n) == header_lookup(
                        before,
                        n,
                    ) by {
                        lemma_set_other(before, i as int, e, n);
                    }
                }
                return;
            }
            i = i + 1;
        }
        let ghost before = self.entries@;
        let entry = (wanted, value);
        let ghost e = entry;
        self.entries.push(entry);
        proof {
            lemma_push_same(before, e);
            assert forall|n: Seq<char>| n != name@ implies self.get(n) == header_lookup(before, n) by {
                lemma_push_other(before, e, n);
            }
        }
    }
}

/// Replacing the entry at `i` with one of the same name leaves every other
/// name's value as it was.
proof fn lemma_set_other(entries: Seq<(String, String)>, i: int, e: (String, String), n: Seq<char>)
    requires
        0 <= i < entries.len(),
        entries[i].0@ == e.0@,
        n != e.0@,
    ensures
        header_lookup(entries.update(i, e), n) == header_lookup(entries, n),
    decreases i,
{
    if i > 0 {
        lemma_set_other(entries.drop_first(), i - 1, e, n);
        assert(entries.update(i, e).drop_first() =~= entries.drop_first().update(i - 1, e));
    } else {
        assert(entries.update(i, e).drop_first() =~= entries.drop_first());
    }
}

/// Replacing the first entry of a name sets that name's value.
proof fn lemma_set_same(entries: Seq<(String, String)>, i: int, e: (String, String))
    requires
        0 <= i < entries.len(),
        forall|j: int| 0 <= j < i ==> (#[trigger] entries[j]).0@ != e.0@,
    ensures
        header_lookup(entries.update(i, e), e.0@) == Some(e.1@),
    decreases i,
{
    if i > 0 {
        assert(entries[0].0@ != e.0@);
        assert forall|j: int| 0 <= j < i - 1 implies (#[trigger] entries.drop_first()[j]).0@
            != e.0@ by {
            assert(entries.drop_first()[j] == entries[j + 1]);
        }
        lemma_set_same(entries.drop_first(), i - 1, e);
        assert(entries.update(i, e).drop_first() =~= entries.drop_first().update(i - 1, e));
    }
}

/// Appending an entry leaves every other name's value as it was.
proof fn lemma_push_other(entries: Seq<(String, String)>, e: (String, String), n: Seq<char>)
    requires
        n != e.0@,
    ensures
        header_lookup(entries.push(e), n) == header_lookup(entries, n),
    decreases entries.len(),
{
    if entries.len() > 0 {
        lemma_push_other(entries.drop_first(), e, n);
        assert(entries.push(e).drop_first() =~= entries.drop_first().push(e));
    } else {
        assert(entries.push(e).drop_first() =~= entries);
    }
}

/// Appending an entry for a name not present sets that name's value.
proof fn lemma_push_same(entries: Seq<(String, String)>, e: (String, String))
    requires
        forall|j: int| 0 <= j < entries.len() ==> (#[trigger] entries[j]).0@ != e.0@,
    ensures
        header_lookup(entries.push(e), e.0@) == Some(e.1@),
    decreases entries.len(),
{
    if entries.len() > 0 {
        assert(entries[0].0@ != e.0@);
        assert forall|j: int| 0 <= j < entries.len() - 1 implies (
        #[trigger] entries.drop_first()[j]).0@ != e.0@ by {
            assert(entries.drop_first()[j] == entries[j + 1]);
        }
        lemma_push_same(entries.drop_first(), e);
        assert(entries.push(e).drop_first() =~= entries.drop_first().push(e));
    }
}

/// A call to a token endpoint, as plain values.
pub struct TokenRequest {
    pub url: String,
    /// The `Authorization` header, when the call sends one.
    pub authorization: Option<String>,
    pub user_agent: String,
    pub content_type: String,
    /// The form-encoded body.
    pub body: String,
}

/// `req` posts `body` to `url` with these headers.
pub open spec fn is_token_request(
    req: TokenRequest,
    url: Seq<char>,
    authorization: Option<Seq<char>>,
    user_agent: Seq<char>,
    body: Seq<char>,
) -> bool {
    &&& req.url@ == url
    &&& req.user_agent@ == user_agent
    &&& req.content_type@ == AUTH_CONTENT_TYPE@
    &&& req.body@ == body
    &&& match authorization {
        Some(a) => req.authorization matches Some(x) && x@ == a,
        None => req.authorization is None,
    }
}

/// Builds a token-endpoint call.
pub fn token_request(url: &str, authorization: Option<String>, user_agent: &str, body: String) -> (r:
    TokenRequest)
    ensures
        r.url@ == url@,
        r.authorization == authorization,
        r.user_agent@ == user_agent@,
        r.content_type@ == AUTH_CONTENT_TYPE@,
        r.body == body,
{
    TokenRequest {
        url: url.to_owned(),
        authorization,
        user_agent: user_agent.to_owned(),
        content_type: AUTH_CONTENT_TYPE.to_owned(),
        body,
    }
}

/// The standard, padded base64 text of `bytes`.
pub uninterp spec fn base64_of(bytes: Seq<u8>) -> Seq<char>;

/// Relies on base64's `engine::general_purpose::STANDARD.encode`: the padded
/// standard base64 text of the UTF-8 bytes. `encode` panics when the padded
/// length overflows `usize`; at most `usize::MAX / 8` characters (so at most
/// `usize::MAX / 2` bytes) rules that out.
#[verifier::external_body]
fn encode_base64(text: &str) -> (r: String)
    requires
        text@.len() <= usize::MAX / 8,
    ensures
        r@ == base64_of(text.spec_bytes()),
{
    base64::engine::general_purpose::STANDARD.encode(text)
}

/// The text `{username}:{password}`.
pub open spec fn credentials(username: Seq<char>, password: Seq<char>) -> Seq<char> {
    username + ":"@ + password
}

/// The credentials are short enough to encode.
pub open spec fn credentials_fit(username: Seq<char>, password: Seq<char>) -> bool {
    credentials(username, password).len() <= usize::MAX / 8
}

/// The value of the Basic `Authorization` header for these credentials.
pub open spec fn basic_value(username: Seq<char>, password: Seq<char>) -> Seq<char> {
    "Basic "@ + base64_of(encode_utf8(credentials(username, password)))
}

/// The base64 text of `{username}:{password}`.
pub fn basic_header(username: &str, password: &str) -> (r: String)
    requires
        credentials_fit(username@, password@),
    ensures
        r@ == base64_of(encode_utf8(credentials(username@, password@))),
{
    let mut text = username.to_owned();
    text.append(":");
    text.append(password);
    encode_base64(text.as_str())
}

/// The Basic `Authorization` value for these client credentials; credentials
/// too long to encode are refused.
pub fn basic_authorization(username: &str, password: &str) -> (r: Result<String, Error>)
    ensures
        credentials_fit(username@, password@) ==> (r matches Ok(v) && v@ == basic_value(
            username@,
            password@,
        )),
        !credentials_fit(username@, password@) ==> r matches Err(Error::Other(_)),
{
    let mut text = username.to_owned();
    text.append(":");
    text.append(password);
    if text.as_str().unicode_len() > usize::MAX / 8 {
        return Err(Error::Other("client credentials are too long to encode".to_owned()));
    }
    let mut value = "Basic ".to_owned();
    value.append(basic_header(username, password).as_str());
    Ok(value)
}

/// `s` without its trailing `#_` pairs, however many there are.
pub open spec fn trim_fragment(s: Seq<char>) -> Seq<char>
    decreases s.len(),
{
    if s.len() >= 2 && s[s.len() - 2] == '#' && s[s.len() - 1] == '_' {
        trim_fragment(s.subrange(0, s.len() - 2))
    } else {
        s
    }
}

/// Removes every trailing `#_` from an authorization code.
pub fn trim_code(code: &str) -> (r: String)
    ensures
        r@ == trim_fragment(code@),
{
    let mut end = code.unicode_len();
    assert(code@.subrange(0, end as int) =~= code@);
    loop
        invariant
            end <= code@.len(),
            trim_fragment(code@) == trim_fragment(code@.subrange(0, end as int)),
        ensures
            end <= code@.len(),
            trim_fragment(code@) == code@.subrange(0, end as int),
        decreases end,
    {
        let ghost t = code@.subrange(0, end as int);
        if end < 2 {
            assert(trim_fragment(t) == t);
            break;
        }
        let a = code.get_char(end - 2);
        let b = code.get_char(end - 1);
        if a != '#' || b != '_' {
            assert(t[t.len() - 2] == a && t[t.len() - 1] == b);
            assert(trim_fragment(t) == t);
            break;
        }
        assert(t.subrange(0, t.len() - 2) =~= code@.subrange(0, end - 2));
        end = end - 2;
    }
    code.substring_char(0, end).to_owned()
}

/// The body of the password grant.
pub open spec fn password_body(username: Seq<char>, password: Seq<char>) -> Seq<char> {
    "grant_type=password&username="@ + username + "&password="@ + password
}

/// The body of the authorization-code grant.
pub open spec fn code_body(code: Seq<char>, redirect_uri: Seq<char>) -> Seq<char> {
    "grant_type=authorization_code&code="@ + trim_fragment(code) + "&redirect_uri="@
        + redirect_uri
}

/// The body of the refresh-token grant.
pub open spec fn refresh_body(refresh_token: Seq<char>) -> Seq<char> {
    "grant_type=refresh_token&refresh_token="@ + refresh_token
}

/// The body that revokes `token`, of the kind `hint` names.
pub open spec fn revoke_body(token: Seq<char>, hint: Seq<char>) -> Seq<char> {
    "token="@ + token + "&token_type_hint="@ + hint
}

/// Builds the password-grant body.
pub fn build_password_body(username: &str, password: &str) -> (r: String)
    ensures
        r@ == password_body(username@, password@),
{
    let mut b = "grant_type=password&username=".to_owned();
    b.append(username);
    b.append("&password=");
    b.append(password);
    b
}

/// Builds the authorization-code body.
pub fn build_code_body(code: &str, redirect_uri: &str) -> (r: String)
    ensures
        r@ == code_body(code@, redirect_uri@),
{
    let mut b = "grant_type=authorization_code&code=".to_owned();
    b.append(trim_code(code).as_str());
    b.append("&redirect_uri=");
    b.append(redirect_uri);
    b
}

/// Builds the refresh-token body.
pub fn build_refresh_body(refresh_token: &str) -> (r: String)
    ensures
        r@ == refresh_body(refresh_token@),
{
    let mut b = "grant_type=refresh_token&refresh_token=".to_owned();
    b.append(refresh_token);
    b
}

/// Builds the revocation body.
pub fn build_revoke_body(token: &str, hint: &str) -> (r: String)
    ensures
        r@ == revoke_body(token@, hint@),
{
    let mut b = "token=".to_owned();
    b.append(token);
    b.append("&token_type_hint=");
    b.append(hint);
    b
}

} // verus!
