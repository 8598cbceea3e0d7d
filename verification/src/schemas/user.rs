//! Users: the account as stored, and what a client sends to register and to
//! log in, with the rules that data has to meet.

use vstd::prelude::*;
use crate::validation::{
    check_email, check_length, email_check, email_is_valid, field_check, length_check, verdict,
    verdict_view, FieldErrorView, ValidationErrors,
};

verus! {

/// The fewest characters of a user name.
pub const MIN_USERNAME_LENGTH: u32 = 4;

/// The fewest characters of a password.
pub const MIN_PASSWORD_LENGTH: u32 = 8;

/// An account as stored.
#[derive(Debug, Clone)]
pub struct User {
    pub id: u128,
    pub username: String,
    pub email: String,
    pub password_hash: String,
    pub created_at: Option<time::OffsetDateTime>,
}

/// What a client sends to open an account.
#[derive(Debug, Clone)]
pub struct RegisterUser {
    pub username: String,
    pub email: String,
    pub password: String,
}

/// What a client sends to log in.
#[derive(Debug, Clone)]
pub struct LoginUser {
    pub email: String,
    pub password: String,
}

/// The refusals of a registration, in the order of the fields.
pub open spec fn register_errors(username: Seq<char>, email: Seq<char>, password: Seq<char>)
    -> Seq<FieldErrorView> {
    field_check("username"@, length_check(MIN_USERNAME_LENGTH as int, username)) + field_check(
        "email"@,
        email_check(email),
    ) + field_check("password"@, length_check(MIN_PASSWORD_LENGTH as int, password))
}

/// The refusals of a login, in the order of the fields.
pub open spec fn login_errors(email: Seq<char>, password: Seq<char>) -> Seq<FieldErrorView> {
    field_check("email"@, email_check(email)) + field_check(
        "password"@,
        length_check(MIN_PASSWORD_LENGTH as int, password),
    )
}

/// A registration is accepted exactly where the user name has at least four
/// characters, the e-mail address is one, and the password has at least
/// eight characters.
pub proof fn lemma_registration_accepted(
    username: Seq<char>,
    email: Seq<char>,
    password: Seq<char>,
)
    ensures
        verdict(register_errors(username, email, password)) is Ok <==> username.len()
            >= MIN_USERNAME_LENGTH && email_is_valid(email) && password.len()
            >= MIN_PASSWORD_LENGTH,
{
}

/// A login is accepted exactly where the e-mail address is one and the
/// password has at least eight characters.
pub proof fn lemma_login_accepted(email: Seq<char>, password: Seq<char>)
    ensures
        verdict(login_errors(email, password)) is Ok <==> email_is_valid(email) && password.len()
            >= MIN_PASSWORD_LENGTH,
{
}

impl RegisterUser {
    /// The refusals of this registration.
    pub open spec fn errors(&self) -> Seq<FieldErrorView> {
        register_errors(self.username@, self.email@, self.password@)
    }

    /// Checks the registration field by field.
    pub fn validate(&self) -> (r: Result<(), ValidationErrors>)
        ensures
            verdict_view(r) == verdict(self.errors()),
    {
        let mut errors = ValidationErrors::new();
        errors.report("username", check_length(MIN_USERNAME_LENGTH, &self.username));
        errors.report("email", check_email(&self.email));
        errors.report("password", check_length(MIN_PASSWORD_LENGTH, &self.password));
        errors.into_result()
    }
}

impl LoginUser {
    /// The refusals of this login.
    pub open spec fn errors(&self) -> Seq<FieldErrorView> {
        login_errors(self.email@, self.password@)
    }

    /// Checks the login field by field.
    pub fn validate(&self) -> (r: Result<(), ValidationErrors>)
        ensures
            verdict_view(r) == verdict(self.errors()),
    {
        let mut errors = ValidationErrors::new();
        errors.report("email", check_email(&self.email));
        errors.report("password", check_length(MIN_PASSWORD_LENGTH, &self.password));
        errors.into_result()
    }
}

} // verus!
