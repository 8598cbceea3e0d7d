//! What logging in, refreshing and logging out hand to a client: signed
//! tokens, the cookies that carry them, and the bodies of the answers.

use vstd::prelude::*;
use vstd::string::StringExecFns;
use crate::clock::now_unix;
use vstd::utf8::encode_utf8;
use crate::app::services::{checked_data, INVALID_DATA};
use crate::db::user::{login_refusal, password_check, user_login};
use crate::db::{failure_kind, failure_message, Query};
use crate::errors::{failure, Error, ErrorTypes, ErrorView};
use crate::schemas::user::{LoginUser, User};
use crate::validation::{errors_json, verdict};
use crate::ids::{hyphenated, uuid_to_string};
use crate::schemas::jwt::{created, expiry, signed_token, Jwt, TokenClaims, TokenType};
use crate::text::{json_quote, json_quote_str};

verus! {

/// The cookie of the access token.
pub const ACCESS_COOKIE: &'static str = "access_token";

/// The cookie of the refresh token.
pub const REFRESH_COOKIE: &'static str = "refresh_token";

/// The lifetime of a refreshed access token, in seconds.
pub const REFRESHED_LIFETIME: i64 = 60;

/// The age of the cookie of a refreshed access token, in seconds.
pub const REFRESHED_MAXAGE: i64 = 3600;

/// The age that makes a client drop a cookie.
pub const DROPPED_MAXAGE: i64 = -1;

/// The path of every cookie of a session: the whole site.
pub const COOKIE_PATH: &'static str = "/";

/// What is answered to a logout.
pub const LOGGED_OUT: &'static str = "{\"status\":\"success\"}";

/// A cookie of a session.
#[derive(Debug, Clone)]
pub struct SessionCookie {
    pub name: String,
    pub value: String,
    pub path: String,
    pub http_only: bool,
    pub max_age: i64,
}

/// What a login hands out: both tokens and the ages of their cookies.
#[derive(Debug, Clone)]
pub struct Session {
    pub access: String,
    pub refresh: String,
    pub access_maxage: i64,
    pub refresh_maxage: i64,
}

/// What a [`Session`] holds, as plain values.
pub struct SessionView {
    pub access: Seq<char>,
    pub refresh: Seq<char>,
    pub access_maxage: i64,
    pub refresh_maxage: i64,
}

impl View for Session {
    type V = SessionView;

    open spec fn view(&self) -> SessionView {
        SessionView {
            access: self.access@,
            refresh: self.refresh@,
            access_maxage: self.access_maxage,
            refresh_maxage: self.refresh_maxage,
        }
    }
}

/// What a cookie holds, as plain values.
pub struct SessionCookieView {
    pub name: Seq<char>,
    pub value: Seq<char>,
    pub path: Seq<char>,
    pub http_only: bool,
    pub max_age: i64,
}

impl View for SessionCookie {
    type V = SessionCookieView;

    open spec fn view(&self) -> SessionCookieView {
        SessionCookieView {
            name: self.name@,
            value: self.value@,
            path: self.path@,
            http_only: self.http_only,
            max_age: self.max_age,
        }
    }
}

/// The cookie of a session with the given name, value and age: it is sent
/// for the whole site, and scripts cannot read it.
pub open spec fn session_cookie(name: Seq<char>, value: Seq<char>, max_age: i64)
    -> SessionCookieView {
    SessionCookieView { name, value, path: COOKIE_PATH@, http_only: true, max_age }
}

/// What is answered to a login, as JSON: that it succeeded, and both tokens.
pub open spec fn login_body(access: Seq<char>, refresh: Seq<char>) -> Seq<char> {
    "{\"status\":\"success\",\"access\":"@ + json_quote(access) + ",\"refresh\":"@ + json_quote(
        refresh,
    ) + "}"@
}

/// What is answered to a refresh, as JSON: that it succeeded, and the new
/// access token.
pub open spec fn refresh_body(token: Seq<char>) -> Seq<char> {
    "{\"status\":\"success\",\"new_access\":"@ + json_quote(token) + "}"@
}

/// The outcome of a login, by its view.
pub open spec fn login_view(r: Option<Result<Session, Error>>) -> Option<
    Result<SessionView, ErrorView>,
> {
    match r {
        Some(Ok(session)) => Some(Ok(session@)),
        Some(Err(e)) => Some(Err(e@)),
        None => None,
    }
}

/// The outcome of issuing one token, by its view.
pub open spec fn issue_view(r: Option<Result<String, Error>>) -> Option<
    Result<Seq<char>, ErrorView>,
> {
    match r {
        Some(Ok(token)) => Some(Ok(token@)),
        Some(Err(e)) => Some(Err(e@)),
        None => None,
    }
}

/// The token of a class for a user, made at `now` with the given lifetime:
/// none where its expiry cannot be held, else what signing comes to.
pub open spec fn issued(jwt: Jwt, user_id: u128, token_type: TokenType, now: i64, lifetime: i64)
    -> Option<Result<Seq<char>, ErrorView>> {
    match expiry(now, lifetime) {
        Some(exp) => Some(
            created(signed_token(hyphenated(user_id), exp, jwt.settings(token_type).secret())),
        ),
        None => None,
    }
}

/// The session of a user whose access token is made at `now_access` and
/// whose refresh token is made at `now_refresh`: the access token comes
/// first, and what goes wrong with it ends the login.
pub open spec fn logged_in(jwt: Jwt, user_id: u128, now_access: i64, now_refresh: i64) -> Option<
    Result<SessionView, ErrorView>,
> {
    match issued(jwt, user_id, TokenType::Access, now_access, jwt.access.exp) {
        None => None,
        Some(Err(e)) => Some(Err(e)),
        Some(Ok(access)) => completed(jwt, user_id, access, now_refresh),
    }
}

/// Issues the token of a class for a user, made at `now` with the given
/// lifetime in seconds.
pub fn issue_at(jwt: &Jwt, user_id: u128, token_type: TokenType, now: i64, lifetime: i64) -> (r:
    Option<Result<String, Error>>)
    ensures
        issue_view(r) == issued(*jwt, user_id, token_type, now, lifetime),
{
    match TokenClaims::at(uuid_to_string(user_id), now, lifetime) {
        Some(claims) => Some(jwt.encode(&claims, token_type)),
        None => None,
    }
}

/// The session that is left to open once its access token is there: the
/// refresh token is made at `now_refresh`.
pub open spec fn completed(jwt: Jwt, user_id: u128, access: Seq<char>, now_refresh: i64) -> Option<
    Result<SessionView, ErrorView>,
> {
    match issued(jwt, user_id, TokenType::Refresh, now_refresh, jwt.refresh.exp) {
        None => None,
        Some(Err(e)) => Some(Err(e)),
        Some(Ok(refresh)) => Some(
            Ok(
                SessionView {
                    access,
                    refresh,
                    access_maxage: jwt.access.maxage,
                    refresh_maxage: jwt.refresh.maxage,
                },
            ),
        ),
    }
}

/// Completes the session of a user whose access token is there with a
/// refresh token made at `now_refresh`.
fn complete(jwt: &Jwt, user_id: u128, access: String, now_refresh: i64) -> (r: Option<
    Result<Session, Error>,
>)
    ensures
        login_view(r) == completed(*jwt, user_id, access@, now_refresh),
{
    match issue_at(jwt, user_id, TokenType::Refresh, now_refresh, jwt.refresh.exp) {
        None => None,
        Some(Err(e)) => Some(Err(e)),
        Some(Ok(refresh)) => Some(
            Ok(
                Session {
                    access,
                    refresh,
                    access_maxage: jwt.access.maxage,
                    refresh_maxage: jwt.refresh.maxage,
                },
            ),
        ),
    }
}

/// Opens the session of a user whose tokens are made at the given moments.
pub fn login_at(jwt: &Jwt, user_id: u128, now_access: i64, now_refresh: i64) -> (r: Option<
    Result<Session, Error>,
>)
    ensures
        login_view(r) == logged_in(*jwt, user_id, now_access, now_refresh),
{
    match issue_at(jwt, user_id, TokenType::Access, now_access, jwt.access.exp) {
        None => None,
        Some(Err(e)) => Some(Err(e)),
        Some(Ok(access)) => complete(jwt, user_id, access, now_refresh),
    }
}

/// Opens the session of a user who has logged in: an access token and a
/// refresh token, each made when the clock is read for it. Whatever the
/// clock said, the outcome is the one that [`login_at`] gives for it.
pub fn open_session(jwt: &Jwt, user_id: u128) -> (r: Option<Result<Session, Error>>)
    ensures
        exists|now_access: i64, now_refresh: i64|
            login_view(r) == #[trigger] logged_in(*jwt, user_id, now_access, now_refresh),
{
    let now_access = now_unix();
    match issue_at(jwt, user_id, TokenType::Access, now_access, jwt.access.exp) {
        None => {
            assert(login_view(None) == logged_in(*jwt, user_id, now_access, 0));
            None
        },
        Some(Err(e)) => {
            assert(login_view(Some(Err(e))) == logged_in(*jwt, user_id, now_access, 0));
            Some(Err(e))
        },
        Some(Ok(access)) => {
            let now_refresh = now_unix();
            let r = complete(jwt, user_id, access, now_refresh);
            assert(login_view(r) == logged_in(*jwt, user_id, now_access, now_refresh));
            r
        },
    }
}

/// What a login is answered where the data of the client is refused: the
/// error that quotes the refusals.
pub open spec fn login_data_refusal(data: LoginUser) -> Option<ErrorView> {
    match verdict(data.errors()) {
        Ok(()) => None,
        Err(errors) => Some(
            failure(Some(errors_json(errors)), INVALID_DATA@, ErrorTypes::ValidationError),
        ),
    }
}

/// What a login is answered where the search for the user or the check of
/// the password fails: nobody found is no login, and somebody found is let
/// in only where the password stands the check against the stored hash.
pub open spec fn login_refusal_of(data: LoginUser, found: Result<User, String>) -> Option<
    ErrorView,
> {
    match found {
        Err(cause) => Some(
            failure(
                Some(cause@),
                failure_message(Query::FindLogin),
                failure_kind(Query::FindLogin),
            ),
        ),
        Ok(user) => login_refusal(
            password_check(encode_utf8(data.password@), user.password_hash@),
        ),
    }
}

/// Checks the data of a login before anybody is searched for: refused data
/// is answered with the error that quotes the refusals.
pub fn login_checked_data(data: &LoginUser) -> (r: Result<(), Error>)
    ensures
        match login_data_refusal(*data) {
            None => r is Ok,
            Some(refusal) => r matches Err(e) && e@ == refusal,
        },
{
    checked_data(data.validate())
}

/// Decides a login from the data of the client and from what the search for
/// the user by its address found. Refused data is answered with the error
/// that quotes the refusals, a failed search or a password that fails the
/// check with its error, and in both cases there is no session. Otherwise
/// the session of the user that was found is opened, and whatever the clock
/// said, the outcome is the one that [`login_at`] gives for it.
pub fn login_user(jwt: &Jwt, data: LoginUser, found: Result<User, String>) -> (r: Option<
    Result<Session, Error>,
>)
    ensures
        match login_data_refusal(data) {
            Some(refusal) => login_view(r) == Some(Err::<SessionView, ErrorView>(refusal)),
            None => match login_refusal_of(data, found) {
                Some(refusal) => login_view(r) == Some(Err::<SessionView, ErrorView>(refusal)),
                None => found matches Ok(user) && exists|now_access: i64, now_refresh: i64|
                    login_view(r) == #[trigger] logged_in(
                        *jwt,
                        user.id,
                        now_access,
                        now_refresh,
                    ),
            },
        },
{
    match login_checked_data(&data) {
        Err(e) => {
            return Some(Err(e));
        },
        Ok(()) => {},
    }
    match user_login(data, found) {
        Err(e) => Some(Err(e)),
        Ok(user) => open_session(jwt, user.id),
    }
}

/// Issues the short-lived access token that a refresh hands out. Whatever
/// the clock said, the outcome is the one that [`issue_at`] gives for it.
pub fn refresh_auth(jwt: &Jwt, user_id: u128) -> (r: Option<Result<String, Error>>)
    ensures
        exists|now: i64|
            issue_view(r) == #[trigger] issued(
                *jwt,
                user_id,
                TokenType::Access,
                now,
                REFRESHED_LIFETIME,
            ),
{
    let now = now_unix();
    issue_at(jwt, user_id, TokenType::Access, now, REFRESHED_LIFETIME)
}

/// The cookie of a session with the given name, value and age.
fn cookie(name: &str, value: &str, max_age: i64) -> (r: SessionCookie)
    ensures
        r@ == session_cookie(name@, value@, max_age),
{
    SessionCookie {
        name: String::from_str(name),
        value: String::from_str(value),
        path: String::from_str(COOKIE_PATH),
        http_only: true,
        max_age,
    }
}

impl Session {
    /// The cookies that carry the session: the access token, then the
    /// refresh token, each with the age of its class.
    pub fn cookies(&self) -> (r: (SessionCookie, SessionCookie))
        ensures
            r.0@ == session_cookie(ACCESS_COOKIE@, self.access@, self.access_maxage),
            r.1@ == session_cookie(REFRESH_COOKIE@, self.refresh@, self.refresh_maxage),
    {
        (
            cookie(ACCESS_COOKIE, self.access.as_str(), self.access_maxage),
            cookie(REFRESH_COOKIE, self.refresh.as_str(), self.refresh_maxage),
        )
    }

    /// What is answered to the login, as JSON.
    pub fn body(&self) -> (r: String)
        ensures
            r@ == login_body(self.access@, self.refresh@),
    {
        let mut text = String::from_str("{\"status\":\"success\",\"access\":");
        let access = json_quote_str(self.access.as_str());
        text.append(access.as_str());
        text.append(",\"refresh\":");
        let refresh = json_quote_str(self.refresh.as_str());
        text.append(refresh.as_str());
        text.append("}");
        text
    }
}

/// The cookie that carries a refreshed access token.
pub fn refreshed_cookie(token: &str) -> (r: SessionCookie)
    ensures
        r@ == session_cookie(ACCESS_COOKIE@, token@, REFRESHED_MAXAGE),
{
    cookie(ACCESS_COOKIE, token, REFRESHED_MAXAGE)
}

/// What is answered to a refresh, as JSON.
pub fn refreshed_body(token: &str) -> (r: String)
    ensures
        r@ == refresh_body(token@),
{
    let mut text = String::from_str("{\"status\":\"success\",\"new_access\":");
    let quoted = json_quote_str(token);
    text.append(quoted.as_str());
    text.append("}");
    text
}

/// The cookies that end a session: the refresh token, then the access token,
/// both empty and both to be dropped at once.
pub fn logout_handler() -> (r: (SessionCookie, SessionCookie))
    ensures
        r.0@ == session_cookie(REFRESH_COOKIE@, Seq::empty(), DROPPED_MAXAGE),
        r.1@ == session_cookie(ACCESS_COOKIE@, Seq::empty(), DROPPED_MAXAGE),
{
    proof {
        reveal_strlit("");
    }
    let refresh = cookie(REFRESH_COOKIE, "", DROPPED_MAXAGE);
    let access = cookie(ACCESS_COOKIE, "", DROPPED_MAXAGE);
    assert(""@ =~= Seq::<char>::empty());
    (refresh, access)
}

} // verus!
