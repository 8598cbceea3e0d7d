//! The check every guarded request passes: it carries an access token that
//! is genuine, not expired unless the request is the one that refreshes, and
//! made out to a user.

use vstd::prelude::*;
use crate::clock::{expired, is_expired, now_unix};
use crate::errors::{error_json, failure, Auth, Error, ErrorTypes, ErrorView};
use crate::ids::{parse_uuid, parsed_uuid};
use crate::schemas::jwt::{
    claims_view, decoded, token_check, Jwt, TokenClaims, TokenClaimsView, TokenType,
};
use crate::text::str_eq;

verus! {

/// What is said where a request carries no access token.
pub const ACCESS_NOT_FOUND: &'static str = "Access token not found. Log in first!";

/// What is said of an access token that does not pass the check.
pub const ACCESS_INVALID: &'static str = "Invalid jwt access token";

/// What is said of an access token past its expiry.
pub const LOGIN_TIMED_OUT: &'static str = "Login timed out";

/// The one request that an expired access token may still make.
pub const REFRESH_ROUTE: &'static str = "/auth/refresh";

/// The proof that a request passed the check: the user it acts for.
#[derive(Debug, Clone, Copy, PartialEq, Eq, Structural)]
pub struct JwtMiddleware {
    pub user_id: u128,
}

/// Whether an address is the one that refreshes.
pub open spec fn refreshes(uri: Seq<char>) -> bool {
    uri == REFRESH_ROUTE@
}

/// The verdict on a request, by its view.
pub open spec fn admission_view(r: Option<Result<JwtMiddleware, Error>>) -> Option<
    Result<u128, ErrorView>,
> {
    match r {
        Some(Ok(pass)) => Some(Ok(pass.user_id)),
        Some(Err(e)) => Some(Err(e@)),
        None => None,
    }
}

/// The verdict on a request whose access token was checked. A token that
/// failed the check is a token error that quotes the failure. A token past
/// its expiry is refused unless the request is the one that refreshes. Of the
/// token that is left the subject names the user; where it is no identifier
/// there is no verdict.
pub open spec fn admitted(checked: Result<TokenClaimsView, ErrorView>, refreshing: bool, now: i64)
    -> Option<Result<u128, ErrorView>> {
    match checked {
        Err(e) => Some(
            Err(failure(Some(error_json(e)), ACCESS_INVALID@, ErrorTypes::JwtError)),
        ),
        Ok(claims) => if !refreshing && expired(now, claims.exp) {
            Some(Err(failure(None, LOGIN_TIMED_OUT@, ErrorTypes::Auth(Auth::Authorization))))
        } else {
            match parsed_uuid(claims.sub) {
                Some(id) => Some(Ok(id)),
                None => None,
            }
        },
    }
}

/// Past its expiry an access token passes no request but the one that
/// refreshes: the request is refused as timed out.
pub proof fn lemma_expired_is_refused(claims: TokenClaimsView, now: i64)
    requires
        expired(now, claims.exp),
    ensures
        admitted(Ok(claims), false, now) == Some(
            Err::<u128, ErrorView>(
                failure(None, LOGIN_TIMED_OUT@, ErrorTypes::Auth(Auth::Authorization)),
            ),
        ),
{
}

/// For the request that refreshes the clock plays no part.
pub proof fn lemma_refreshing_ignores_the_clock(
    checked: Result<TokenClaimsView, ErrorView>,
    now: i64,
    later: i64,
)
    ensures
        admitted(checked, true, now) == admitted(checked, true, later),
{
}

/// A request passes only with a token that stood the check and, unless the
/// request refreshes, has not expired; and it passes for the user that the
/// subject of the token names.
pub proof fn lemma_pass_names_the_subject(
    checked: Result<TokenClaimsView, ErrorView>,
    refreshing: bool,
    now: i64,
    user_id: u128,
)
    requires
        admitted(checked, refreshing, now) == Some(Ok::<u128, ErrorView>(user_id)),
    ensures
        checked matches Ok(claims) && parsed_uuid(claims.sub) == Some(user_id) && (refreshing
            || !expired(now, claims.exp)),
{
}

impl JwtMiddleware {
    /// The verdict on a request whose access token was checked and for which
    /// the clock was read.
    pub fn verdict(checked: Result<TokenClaims, Error>, refreshing: bool, now: i64) -> (r: Option<
        Result<JwtMiddleware, Error>,
    >)
        ensures
            admission_view(r) == admitted(claims_view(checked), refreshing, now),
    {
        match checked {
            Err(e) => Some(
                Err(Error::with_message(Some(e.to_string()), ACCESS_INVALID, ErrorTypes::JwtError)),
            ),
            Ok(claims) => {
                if !refreshing && is_expired(now, claims.exp) {
                    Some(
                        Err(
                            Error::with_message(
                                None,
                                LOGIN_TIMED_OUT,
                                ErrorTypes::Auth(Auth::Authorization),
                            ),
                        ),
                    )
                } else {
                    match parse_uuid(claims.sub.as_str()) {
                        Some(user_id) => Some(Ok(JwtMiddleware { user_id })),
                        None => None,
                    }
                }
            },
        }
    }

    /// The verdict on a request, from the access token that its cookie
    /// holds, if it holds one, and the address it asks for. Without a token
    /// the request is refused; with one, the verdict is the one that
    /// [`JwtMiddleware::verdict`] gives to the check of this token under the
    /// secret of the access tokens, whatever the clock read for the check and
    /// after it.
    pub fn from_request(jwt: &Jwt, access_token: Option<&str>, uri: &str) -> (r: Option<
        Result<JwtMiddleware, Error>,
    >)
        ensures
            match access_token {
                None => admission_view(r) == Some(
                    Err::<u128, ErrorView>(
                        failure(None, ACCESS_NOT_FOUND@, ErrorTypes::Auth(Auth::Authorization)),
                    ),
                ),
                Some(token) => exists|clock: u64, now: i64|
                    admission_view(r) == #[trigger] admitted(
                        decoded(token_check(token@, jwt.access.secret(), clock)),
                        refreshes(uri@),
                        now,
                    ),
            },
    {
        match access_token {
            None => Some(
                Err(
                    Error::with_message(
                        None,
                        ACCESS_NOT_FOUND,
                        ErrorTypes::Auth(Auth::Authorization),
                    ),
                ),
            ),
            Some(token) => {
                let checked = jwt.decode(token, TokenType::Access);
                let ghost clock = choose|clock: u64|
                    claims_view(checked) == decoded(
                        #[trigger] token_check(token@, jwt.access.secret(), clock),
                    );
                let refreshing = str_eq(uri, REFRESH_ROUTE);
                let now = now_unix();
                let r = JwtMiddleware::verdict(checked, refreshing, now);
                assert(admission_view(r) == admitted(
                    decoded(token_check(token@, jwt.access.secret(), clock)),
                    refreshes(uri@),
                    now,
                ));
                r
            },
        }
    }
}

} // verus!
