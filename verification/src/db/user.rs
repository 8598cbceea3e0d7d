//! Accounts: who may register, how a password is stored, and who may log in.

use vstd::prelude::*;
use vstd::utf8::encode_utf8;
use crate::db::{failure_kind, failure_message, Query};
use crate::errors::{failure, Auth, Error, ErrorTypes, ErrorView};
use crate::schemas::user::{LoginUser, RegisterUser, User};

verus! {

/// What is said to a client whose name or address is taken.
pub const USER_EXISTS: &'static str = "User with that username or email already exist";

/// What is said where a password cannot be hashed, or a stored hash cannot be
/// read.
pub const HASHING_ERROR: &'static str = "Password hashing error";

/// What is said to a client whose password is not the stored one.
pub const INCORRECT_PASSWORD: &'static str = "Incorrect password. Try again!";

/// An account that is ready to be stored.
#[derive(Debug, Clone)]
pub struct NewUser {
    pub username: String,
    pub email: String,
    pub password_hash: String,
}

/// What comes of holding a password against a stored hash.
#[derive(Debug, Clone)]
pub enum PasswordCheck {
    /// The password is the one that was hashed.
    Verified,
    /// The stored text is no password hash; the text says why.
    Malformed(String),
    /// The password is another one; the text says so.
    Rejected(String),
}

/// What a [`PasswordCheck`] holds, as plain values.
pub enum PasswordCheckView {
    Verified,
    Malformed(Seq<char>),
    Rejected(Seq<char>),
}

impl View for PasswordCheck {
    type V = PasswordCheckView;

    open spec fn view(&self) -> PasswordCheckView {
        match self {
            PasswordCheck::Verified => PasswordCheckView::Verified,
            PasswordCheck::Malformed(why) => PasswordCheckView::Malformed(why@),
            PasswordCheck::Rejected(why) => PasswordCheckView::Rejected(why@),
        }
    }
}

/// What a [`NewUser`] holds, as plain values.
pub struct NewUserView {
    pub username: Seq<char>,
    pub email: Seq<char>,
    pub password_hash: Seq<char>,
}

impl View for NewUser {
    type V = NewUserView;

    open spec fn view(&self) -> NewUserView {
        NewUserView {
            username: self.username@,
            email: self.email@,
            password_hash: self.password_hash@,
        }
    }
}

/// The hash of a password under a salt, as Argon2 with its default
/// parameters gives it, in the PHC string format, or the text of its error.
pub uninterp spec fn password_hash(password: Seq<u8>, salt: Seq<char>) -> Result<
    Seq<char>,
    Seq<char>,
>;

/// What comes of holding a password against a stored hash, as Argon2 with
/// its default parameters decides it.
pub uninterp spec fn password_check(password: Seq<u8>, hash: Seq<char>) -> PasswordCheckView;

/// A hash or the text of an error, by its view.
pub open spec fn hash_view(r: Result<String, String>) -> Result<Seq<char>, Seq<char>> {
    match r {
        Ok(hash) => Ok(hash@),
        Err(message) => Err(message@),
    }
}

/// An account to store or an error, by its view.
pub open spec fn new_user_view(r: Result<NewUser, Error>) -> Result<NewUserView, ErrorView> {
    match r {
        Ok(user) => Ok(user@),
        Err(e) => Err(e@),
    }
}

/// Nothing or an error, by its view.
pub open spec fn unit_view(r: Result<(), Error>) -> Result<(), ErrorView> {
    match r {
        Ok(()) => Ok(()),
        Err(e) => Err(e@),
    }
}

/// Whether a registration may go on, given the answer to the question
/// whether its name or address is taken.
pub open spec fn registration(exists: Result<bool, Seq<char>>) -> Result<(), ErrorView> {
    match exists {
        Err(cause) => Err(
            failure(
                Some(cause),
                failure_message(Query::UserExists),
                failure_kind(Query::UserExists),
            ),
        ),
        Ok(true) => Err(failure(None, USER_EXISTS@, ErrorTypes::Auth(Auth::Authorization))),
        Ok(false) => Ok(()),
    }
}

/// The account to store for a registration whose password was hashed.
pub open spec fn hashed(
    username: Seq<char>,
    email: Seq<char>,
    hash: Result<Seq<char>, Seq<char>>,
) -> Result<NewUserView, ErrorView> {
    match hash {
        Ok(password_hash) => Ok(NewUserView { username, email, password_hash }),
        Err(cause) => Err(failure(Some(cause), HASHING_ERROR@, ErrorTypes::DbError)),
    }
}

/// The error that refuses a login whose password did not stand the check,
/// if it did not.
pub open spec fn login_refusal(check: PasswordCheckView) -> Option<ErrorView> {
    match check {
        PasswordCheckView::Verified => None,
        PasswordCheckView::Malformed(why) => Some(
            failure(Some(why), HASHING_ERROR@, ErrorTypes::DbError),
        ),
        PasswordCheckView::Rejected(why) => Some(
            failure(Some(why), INCORRECT_PASSWORD@, ErrorTypes::Auth(Auth::Authentication)),
        ),
    }
}

/// Trusted: calls `SaltString::generate` of `argon2::password_hash` on the
/// random numbers of the operating system. Nothing is promised of the salt.
/// Where the operating system has no random numbers to give the call panics.
#[verifier::external_body]
fn generate_salt() -> String {
    let salt = argon2::password_hash::SaltString::generate(
        &mut argon2::password_hash::rand_core::OsRng,
    );
    salt.as_str().to_owned()
}

/// Trusted: reads the salt with `Salt::from_b64` and calls
/// `PasswordHasher::hash_password` of `Argon2::default()`. The hash as text,
/// or the text of the error of either, is named `password_hash` of the two.
#[verifier::external_body]
fn argon2_hash(password: &[u8], salt: &str) -> (r: Result<String, String>)
    ensures
        hash_view(r) == password_hash(password@, salt@),
{
    let salt = argon2::password_hash::Salt::from_b64(salt).map_err(|e| e.to_string())?;
    argon2::PasswordHasher::hash_password(&argon2::Argon2::default(), password, salt)
        .map(|hash| hash.to_string())
        .map_err(|e| e.to_string())
}

/// Trusted: reads the stored hash with `PasswordHash::new` and calls
/// `PasswordVerifier::verify_password` of `Argon2::default()`. Which of the
/// two failed, with the text of its error, or that neither did, is named
/// `password_check` of the two.
#[verifier::external_body]
fn argon2_verify(password: &[u8], hash: &str) -> (r: PasswordCheck)
    ensures
        r@ == password_check(password@, hash@),
{
    match argon2::PasswordHash::new(hash) {
        Err(e) => PasswordCheck::Malformed(e.to_string()),
        Ok(parsed) => match argon2::PasswordVerifier::verify_password(
            &argon2::Argon2::default(),
            password,
            &parsed,
        ) {
            Ok(()) => PasswordCheck::Verified,
            Err(e) => PasswordCheck::Rejected(e.to_string()),
        },
    }
}

/// Decides whether a registration may go on, given the answer to the
/// question whether its name or address is taken.
pub fn registration_allowed(exists: Result<bool, String>) -> (r: Result<(), Error>)
    ensures
        unit_view(r) == registration(
            match exists {
                Ok(taken) => Ok(taken),
                Err(cause) => Err(cause@),
            },
        ),
{
    match Query::UserExists.outcome(exists) {
        Err(e) => Err(e),
        Ok(true) => Err(
            Error::with_message(None, USER_EXISTS, ErrorTypes::Auth(Auth::Authorization)),
        ),
        Ok(false) => Ok(()),
    }
}

/// The account to store for a registration whose password was hashed with
/// the given outcome.
pub fn with_hash(data: RegisterUser, hash: Result<String, String>) -> (r: Result<NewUser, Error>)
    ensures
        new_user_view(r) == hashed(data.username@, data.email@, hash_view(hash)),
{
    match hash {
        Ok(password_hash) => Ok(
            NewUser { username: data.username, email: data.email, password_hash },
        ),
        Err(cause) => Err(Error::with_message(Some(cause), HASHING_ERROR, ErrorTypes::DbError)),
    }
}

/// Prepares the account of a registration: refuses it where its name or
/// address is taken or that could not be asked, and otherwise hashes the
/// password under a fresh salt. Whatever the salt, the account is the one
/// that [`with_hash`] gives for the hash under it.
pub fn db_add_user(data: RegisterUser, exists: Result<bool, String>) -> (r: Result<NewUser, Error>)
    ensures
        match registration(
            match exists {
                Ok(taken) => Ok(taken),
                Err(cause) => Err(cause@),
            },
        ) {
            Err(e) => new_user_view(r) == Err::<NewUserView, ErrorView>(e),
            Ok(()) => exists|salt: Seq<char>|
                new_user_view(r) == hashed(
                    data.username@,
                    data.email@,
                    #[trigger] password_hash(encode_utf8(data.password@), salt),
                ),
        },
{
    match registration_allowed(exists) {
        Err(e) => Err(e),
        Ok(()) => {
            let salt = generate_salt();
            let hash = argon2_hash(data.password.as_str().as_bytes(), salt.as_str());
            with_hash(data, hash)
        },
    }
}

/// What the service makes of the search for a user by its identifier.
pub fn db_find_user(found: Result<User, String>) -> (r: Result<User, Error>)
    ensures
        match found {
            Ok(user) => r matches Ok(kept) && kept == user,
            Err(cause) => r matches Err(e) && e@ == failure(
                Some(cause@),
                failure_message(Query::FindUser),
                failure_kind(Query::FindUser),
            ),
        },
{
    Query::FindUser.outcome(found)
}

/// Lets a user in whose password stood the check, and refuses the others.
pub fn login_checked(user: User, check: PasswordCheck) -> (r: Result<User, Error>)
    ensures
        match login_refusal(check@) {
            None => r matches Ok(kept) && kept == user,
            Some(refusal) => r matches Err(e) && e@ == refusal,
        },
{
    match check {
        PasswordCheck::Verified => Ok(user),
        PasswordCheck::Malformed(why) => Err(
            Error::with_message(Some(why), HASHING_ERROR, ErrorTypes::DbError),
        ),
        PasswordCheck::Rejected(why) => Err(
            Error::with_message(
                Some(why),
                INCORRECT_PASSWORD,
                ErrorTypes::Auth(Auth::Authentication),
            ),
        ),
    }
}

/// Decides a login from what the search for the user by its address found:
/// nobody is no login, and somebody is let in where the password stands the
/// check against the stored hash.
pub fn user_login(data: LoginUser, found: Result<User, String>) -> (r: Result<User, Error>)
    ensures
        match found {
            Err(cause) => r matches Err(e) && e@ == failure(
                Some(cause@),
                failure_message(Query::FindLogin),
                failure_kind(Query::FindLogin),
            ),
            Ok(user) => match login_refusal(
                password_check(encode_utf8(data.password@), user.password_hash@),
            ) {
                None => r matches Ok(kept) && kept == user,
                Some(refusal) => r matches Err(e) && e@ == refusal,
            },
        },
{
    match Query::FindLogin.outcome(found) {
        Err(e) => Err(e),
        Ok(user) => {
            let check = argon2_verify(
                data.password.as_str().as_bytes(),
                user.password_hash.as_str(),
            );
            login_checked(user, check)
        },
    }
}

} // verus!
