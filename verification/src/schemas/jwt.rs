//! Session tokens: the claims a token carries, the two classes of token with
//! their secrets and lifetimes, and signing, checking and refreshing them.

use vstd::prelude::*;
use vstd::string::StringExecFns;
use vstd::utf8::encode_utf8;
use crate::app::configurations::TokenConfig;
use crate::clock::{expired, is_expired, now_unix};
use crate::errors::{error_json, failure, Auth, Error, ErrorTypes, ErrorView};

verus! {

/// What is said of a token that cannot be signed.
pub const NOT_CREATED: &'static str = "Can not create token";

/// What is said of a token that does not pass the check.
pub const NOT_DECODED: &'static str = "Can not decode token";

/// The cause given for a checked token without a subject or an expiry.
pub const MALFORMED_CLAIMS: &'static str = "JSON error: the claims lack a subject or an expiry";

/// What is said where a request carries no refresh token.
pub const REFRESH_NOT_FOUND: &'static str = "Refresh jwt token not found. Log in first!";

/// What is said of a refresh token that does not pass the check.
pub const REFRESH_INVALID: &'static str = "Invalid refresh jwt tokens";

/// What is said of a refresh token past its expiry.
pub const REFRESH_TIMED_OUT: &'static str = "Refresh token timed out";

/// What is said where a request was not tied to a user.
pub const NO_USER_ID: &'static str = "Can not find user's id";

/// The claims of a token: whom it is for, and when it expires, in seconds
/// since the Unix epoch.
#[derive(Debug, Clone)]
pub struct TokenClaims {
    pub sub: String,
    pub exp: usize,
}

/// The claims read from a token whose signature and expiry were accepted:
/// the subject where it is a string, the expiry where it is a whole number.
#[derive(Debug, Clone)]
pub struct RawClaims {
    pub sub: Option<String>,
    pub exp: Option<u64>,
}

/// One class of token: its secret, its lifetime and the age of its cookie,
/// both in seconds.
#[derive(Debug, Clone)]
pub struct TokenSettings {
    pub key: String,
    pub exp: i64,
    pub maxage: i64,
}

/// The two classes of token.
#[derive(Debug, Clone)]
pub struct Jwt {
    pub access: TokenSettings,
    pub refresh: TokenSettings,
}

/// The class of a token.
#[derive(Debug, Clone, Copy, PartialEq, Eq, Structural)]
pub enum TokenType {
    Refresh,
    Access,
}

/// What [`TokenClaims`] hold, as plain values.
pub struct TokenClaimsView {
    pub sub: Seq<char>,
    pub exp: usize,
}

impl View for TokenClaims {
    type V = TokenClaimsView;

    open spec fn view(&self) -> TokenClaimsView {
        TokenClaimsView { sub: self.sub@, exp: self.exp }
    }
}

/// The token that `jsonwebtoken::encode` makes of a subject and an expiry
/// under the default header and a secret, or the message of its error.
pub uninterp spec fn signed_token(sub: Seq<char>, exp: usize, secret: Seq<u8>) -> Result<
    Seq<char>,
    Seq<char>,
>;

/// What `jsonwebtoken::decode` makes of a token under a secret and the
/// validation for HS256 when the clock of the machine reads `now`, in seconds
/// since the Unix epoch: the claims `sub` and `exp` of a token that passes,
/// as far as they are a string and a whole number, or the text of the error.
pub uninterp spec fn token_check(token: Seq<char>, secret: Seq<u8>, now: u64) -> Result<
    (Option<Seq<char>>, Option<u64>),
    Seq<char>,
>;

/// The outcome of signing, by its view.
pub open spec fn signing_view(outcome: Result<String, String>) -> Result<Seq<char>, Seq<char>> {
    match outcome {
        Ok(token) => Ok(token@),
        Err(message) => Err(message@),
    }
}

/// The outcome of checking a token, by its view.
pub open spec fn checking_view(outcome: Result<RawClaims, String>) -> Result<
    (Option<Seq<char>>, Option<u64>),
    Seq<char>,
> {
    match outcome {
        Ok(raw) => Ok(
            (
                match raw.sub {
                    Some(sub) => Some(sub@),
                    None => None,
                },
                raw.exp,
            ),
        ),
        Err(message) => Err(message@),
    }
}

/// A token or an error, by its view.
pub open spec fn token_view(r: Result<String, Error>) -> Result<Seq<char>, ErrorView> {
    match r {
        Ok(token) => Ok(token@),
        Err(e) => Err(e@),
    }
}

/// Claims or an error, by their view.
pub open spec fn claims_view(r: Result<TokenClaims, Error>) -> Result<TokenClaimsView, ErrorView> {
    match r {
        Ok(claims) => Ok(claims@),
        Err(e) => Err(e@),
    }
}

/// An identifier or an error, by its view.
pub open spec fn id_view(r: Result<u128, Error>) -> Result<u128, ErrorView> {
    match r {
        Ok(id) => Ok(id),
        Err(e) => Err(e@),
    }
}

/// When something made at `now` with the given lifetime expires, where that
/// moment is not before the epoch and can be held, as a signed number of
/// seconds and as an unsigned one.
pub open spec fn expiry(now: i64, lifetime: i64) -> Option<usize> {
    if 0 <= now + lifetime <= i64::MAX && now + lifetime <= usize::MAX {
        Some((now + lifetime) as usize)
    } else {
        None
    }
}

/// What the service answers to the outcome of signing: the token, or a token
/// error that quotes the message.
pub open spec fn created(outcome: Result<Seq<char>, Seq<char>>) -> Result<Seq<char>, ErrorView> {
    match outcome {
        Ok(token) => Ok(token),
        Err(message) => Err(failure(Some(message), NOT_CREATED@, ErrorTypes::JwtError)),
    }
}

/// What the service answers to the outcome of checking a token: the claims
/// where both are there and the expiry can be held, else a token error.
pub open spec fn decoded(outcome: Result<(Option<Seq<char>>, Option<u64>), Seq<char>>) -> Result<
    TokenClaimsView,
    ErrorView,
> {
    match outcome {
        Ok((Some(sub), Some(exp))) => if exp <= usize::MAX {
            Ok(TokenClaimsView { sub, exp: exp as usize })
        } else {
            Err(failure(Some(MALFORMED_CLAIMS@), NOT_DECODED@, ErrorTypes::JwtError))
        },
        Ok(_) => Err(failure(Some(MALFORMED_CLAIMS@), NOT_DECODED@, ErrorTypes::JwtError)),
        Err(message) => Err(failure(Some(message), NOT_DECODED@, ErrorTypes::JwtError)),
    }
}

/// What a request to refresh comes to, once its refresh token was checked:
/// a token that failed the check is a token error that quotes the failure, a
/// token past its expiry may not refresh, and a request that was not tied to
/// a user has nobody to refresh for.
pub open spec fn refreshed(
    checked: Result<TokenClaimsView, ErrorView>,
    now: i64,
    user_id: Option<u128>,
) -> Result<u128, ErrorView> {
    match checked {
        Err(e) => Err(failure(Some(error_json(e)), REFRESH_INVALID@, ErrorTypes::JwtError)),
        Ok(claims) => if expired(now, claims.exp) {
            Err(failure(None, REFRESH_TIMED_OUT@, ErrorTypes::Auth(Auth::Authorization)))
        } else {
            match user_id {
                Some(id) => Ok(id),
                None => Err(failure(None, NO_USER_ID@, ErrorTypes::Auth(Auth::Authentication))),
            }
        },
    }
}

/// A request refreshes only with a token that stood the check and has not
/// expired, and only for the user that the request was tied to.
pub proof fn lemma_refresh_needs_token_and_user(
    checked: Result<TokenClaimsView, ErrorView>,
    now: i64,
    user_id: Option<u128>,
    refreshed_for: u128,
)
    requires
        refreshed(checked, now, user_id) == Ok::<u128, ErrorView>(refreshed_for),
    ensures
        checked matches Ok(claims) && !expired(now, claims.exp),
        user_id == Some(refreshed_for),
{
}

/// Claims hold exactly where both were read and the expiry fits, and then
/// they are the ones that were read.
pub proof fn lemma_decoded_claims(sub: Option<Seq<char>>, exp: Option<u64>)
    ensures
        decoded(Ok((sub, exp))) is Ok <==> sub is Some && exp is Some && exp->0 <= usize::MAX,
        decoded(Ok((sub, exp))) matches Ok(claims) ==> Some(claims.sub) == sub && Some(
            claims.exp as u64,
        ) == exp,
{
}

/// Trusted: calls `jsonwebtoken::encode` with the default header (HS256),
/// the claims `sub` and `exp` in this order, and the secret as the key. The
/// token, or the text of the error, is named `signed_token` of the three.
#[verifier::external_body]
fn jwt_encode(sub: &str, exp: usize, secret: &[u8]) -> (r: Result<String, String>)
    ensures
        signing_view(r) == signed_token(sub@, exp, secret@),
{
    let mut claims = serde_json::Map::new();
    claims.insert("sub".to_string(), serde_json::Value::from(sub));
    claims.insert("exp".to_string(), serde_json::Value::from(exp));
    let key = jsonwebtoken::EncodingKey::from_secret(secret);
    jsonwebtoken::encode(&jsonwebtoken::Header::default(), &claims, &key).map_err(|e| e.to_string())
}

/// Trusted: calls `jsonwebtoken::decode` with the secret as the key and the
/// validation for HS256, which checks the signature and, against the clock
/// of the machine, the expiry. It hands out the claims `sub` and `exp` as
/// far as they are a string and a whole number, or the text of the error.
/// The outcome depends on the token, the secret and the reading of the
/// clock and on nothing else, so it is named `token_check` of the three for
/// the reading that the call made, whatever that was. On a machine whose
/// clock stands before the Unix epoch the call panics.
#[verifier::external_body]
fn jwt_decode(token: &str, secret: &[u8]) -> (r: Result<RawClaims, String>)
    ensures
        exists|now: u64| checking_view(r) == #[trigger] token_check(token@, secret@, now),
{
    let key = jsonwebtoken::DecodingKey::from_secret(secret);
    let validation = jsonwebtoken::Validation::new(jsonwebtoken::Algorithm::HS256);
    jsonwebtoken::decode::<serde_json::Value>(token, &key, &validation)
        .map(|data| RawClaims {
            sub: data.claims["sub"].as_str().map(String::from),
            exp: data.claims["exp"].as_u64(),
        })
        .map_err(|e| e.to_string())
}

impl TokenClaims {
    /// Claims for `sub` that expire `time` seconds after `now`, where that
    /// moment can be held.
    pub fn at(sub: String, now: i64, time: i64) -> (r: Option<TokenClaims>)
        ensures
            match expiry(now, time) {
                Some(exp) => r matches Some(claims) && claims.sub == sub && claims.exp == exp,
                None => r is None,
            },
    {
        match now.checked_add(time) {
            Some(end) => {
                if end >= 0 && end as u64 <= usize::MAX as u64 {
                    Some(TokenClaims { sub, exp: end as usize })
                } else {
                    None
                }
            },
            None => None,
        }
    }

    /// Claims for `sub` that expire `time` seconds from now, where that moment
    /// can be held.
    pub fn new(sub: String, time: i64) -> (r: Option<TokenClaims>)
        ensures
            exists|now: i64|
                match #[trigger] expiry(now, time) {
                    Some(exp) => r matches Some(claims) && claims.sub == sub && claims.exp == exp,
                    None => r is None,
                },
    {
        TokenClaims::at(sub, now_unix(), time)
    }
}

impl TokenSettings {
    /// The secret, as the bytes that sign.
    pub open spec fn secret(self) -> Seq<u8> {
        encode_utf8(self.key@)
    }
}

/// Whether the lifetime and the cookie age of a configuration, given in
/// minutes, can be held in seconds.
pub open spec fn in_seconds(config: TokenConfig) -> bool {
    &&& i64::MIN <= 60 * config.exp <= i64::MAX
    &&& i64::MIN <= 60 * config.maxage <= i64::MAX
}

impl Jwt {
    /// The settings of a class of token.
    pub open spec fn settings(self, token_type: TokenType) -> TokenSettings {
        match token_type {
            TokenType::Access => self.access,
            TokenType::Refresh => self.refresh,
        }
    }

    /// The two classes of token as configured, with their lifetimes and
    /// cookie ages turned from minutes into seconds.
    pub fn new(access_config: &TokenConfig, refresh_config: &TokenConfig) -> (r: Self)
        requires
            in_seconds(*access_config),
            in_seconds(*refresh_config),
        ensures
            r.access.key@ == access_config.key@,
            r.access.exp == 60 * access_config.exp,
            r.access.maxage == 60 * access_config.maxage,
            r.refresh.key@ == refresh_config.key@,
            r.refresh.exp == 60 * refresh_config.exp,
            r.refresh.maxage == 60 * refresh_config.maxage,
    {
        Jwt {
            access: TokenSettings {
                key: access_config.key.clone(),
                exp: 60 * access_config.exp,
                maxage: 60 * access_config.maxage,
            },
            refresh: TokenSettings {
                key: refresh_config.key.clone(),
                exp: 60 * refresh_config.exp,
                maxage: 60 * refresh_config.maxage,
            },
        }
    }

    /// What the service answers to the outcome of signing.
    pub fn signed(outcome: Result<String, String>) -> (r: Result<String, Error>)
        ensures
            token_view(r) == created(signing_view(outcome)),
    {
        match outcome {
            Ok(token) => Ok(token),
            Err(message) => Err(
                Error::with_message(Some(message), NOT_CREATED, ErrorTypes::JwtError),
            ),
        }
    }

    /// Signs the claims with the secret of the class.
    pub fn encode(&self, token: &TokenClaims, token_type: TokenType) -> (r: Result<String, Error>)
        ensures
            token_view(r) == created(
                signed_token(token.sub@, token.exp, self.settings(token_type).secret()),
            ),
    {
        let outcome = match token_type {
            TokenType::Access => jwt_encode(
                token.sub.as_str(),
                token.exp,
                self.access.key.as_str().as_bytes(),
            ),
            TokenType::Refresh => jwt_encode(
                token.sub.as_str(),
                token.exp,
                self.refresh.key.as_str().as_bytes(),
            ),
        };
        Jwt::signed(outcome)
    }

    /// What the service answers to the outcome of checking a token.
    pub fn checked(outcome: Result<RawClaims, String>) -> (r: Result<TokenClaims, Error>)
        ensures
            claims_view(r) == decoded(checking_view(outcome)),
    {
        match outcome {
            Ok(raw) => match (raw.sub, raw.exp) {
                (Some(sub), Some(exp)) => {
                    if exp <= usize::MAX as u64 {
                        Ok(TokenClaims { sub, exp: exp as usize })
                    } else {
                        Err(
                            Error::with_message(
                                Some(String::from_str(MALFORMED_CLAIMS)),
                                NOT_DECODED,
                                ErrorTypes::JwtError,
                            ),
                        )
                    }
                },
                _ => Err(
                    Error::with_message(
                        Some(String::from_str(MALFORMED_CLAIMS)),
                        NOT_DECODED,
                        ErrorTypes::JwtError,
                    ),
                ),
            },
            Err(message) => Err(
                Error::with_message(Some(message), NOT_DECODED, ErrorTypes::JwtError),
            ),
        }
    }

    /// Checks a token against the secret of its class and the clock. The
    /// answer is the one that [`Jwt::checked`] gives to the check of this
    /// token under this secret, whatever the clock read.
    pub fn decode(&self, claim: &str, token_type: TokenType) -> (r: Result<TokenClaims, Error>)
        ensures
            exists|now: u64|
                claims_view(r) == decoded(
                    #[trigger] token_check(claim@, self.settings(token_type).secret(), now),
                ),
    {
        let outcome = match token_type {
            TokenType::Access => jwt_decode(claim, self.access.key.as_str().as_bytes()),
            TokenType::Refresh => jwt_decode(claim, self.refresh.key.as_str().as_bytes()),
        };
        let ghost secret = self.settings(token_type).secret();
        let ghost now = choose|now: u64|
            checking_view(outcome) == #[trigger] token_check(claim@, secret, now);
        let r = Jwt::checked(outcome);
        assert(claims_view(r) == decoded(token_check(claim@, secret, now)));
        r
    }

    /// What a request to refresh comes to, once its refresh token was
    /// checked and the clock was read.
    pub fn refresh_checked(checked: Result<TokenClaims, Error>, now: i64, user_id: Option<u128>)
        -> (r: Result<u128, Error>)
        ensures
            id_view(r) == refreshed(claims_view(checked), now, user_id),
    {
        match checked {
            Err(e) => Err(
                Error::with_message(Some(e.to_string()), REFRESH_INVALID, ErrorTypes::JwtError),
            ),
            Ok(claims) => {
                if is_expired(now, claims.exp) {
                    Err(
                        Error::with_message(
                            None,
                            REFRESH_TIMED_OUT,
                            ErrorTypes::Auth(Auth::Authorization),
                        ),
                    )
                } else {
                    match user_id {
                        Some(id) => Ok(id),
                        None => Err(
                            Error::with_message(
                                None,
                                NO_USER_ID,
                                ErrorTypes::Auth(Auth::Authentication),
                            ),
                        ),
                    }
                }
            },
        }
    }

    /// Decides a request to refresh from the refresh token that its cookie
    /// holds, if it holds one, and the user that the request was tied to, if
    /// it was. Without a token the request may not refresh; with one, the
    /// answer is the one that [`Jwt::refresh_checked`] gives to the check of
    /// this token under the secret of the refresh tokens, whatever the clock
    /// read for the check and after it.
    pub fn refresh(&self, refresh_token: Option<&str>, user_id: Option<u128>) -> (r: Result<
        u128,
        Error,
    >)
        ensures
            match refresh_token {
                None => id_view(r) == Err::<u128, ErrorView>(
                    failure(None, REFRESH_NOT_FOUND@, ErrorTypes::Auth(Auth::Authorization)),
                ),
                Some(token) => exists|clock: u64, now: i64|
                    id_view(r) == #[trigger] refreshed(
                        decoded(token_check(token@, self.refresh.secret(), clock)),
                        now,
                        user_id,
                    ),
            },
    {
        match refresh_token {
            None => Err(
                Error::with_message(None, REFRESH_NOT_FOUND, ErrorTypes::Auth(Auth::Authorization)),
            ),
            Some(token) => {
                let checked = self.decode(token, TokenType::Refresh);
                let ghost clock = choose|clock: u64|
                    claims_view(checked) == decoded(
                        #[trigger] token_check(token@, self.refresh.secret(), clock),
                    );
                let now = now_unix();
                let r = Jwt::refresh_checked(checked, now, user_id);
                assert(id_view(r) == refreshed(
                    decoded(token_check(token@, self.refresh.secret(), clock)),
                    now,
                    user_id,
                ));
                r
            },
        }
    }
}

} // verus!
