use zero2prod::db::user::{login_checked, registration_allowed, with_hash, PasswordCheck};
use zero2prod::db::{db_add_user, db_find_user, user_login};
use zero2prod::errors::{Auth, ErrorTypes};
use zero2prod::schemas::{LoginUser, RegisterUser, User};

fn anna() -> RegisterUser {
    RegisterUser {
        username: "anna".to_string(),
        email: "anna@example.com".to_string(),
        password: "correct horse".to_string(),
    }
}

fn stored(password_hash: &str) -> User {
    User {
        id: 9,
        username: "anna".to_string(),
        email: "anna@example.com".to_string(),
        password_hash: password_hash.to_string(),
        created_at: None,
    }
}

fn login(password: &str) -> LoginUser {
    LoginUser { email: "anna@example.com".to_string(), password: password.to_string() }
}

#[test]
fn registration_goes_on_where_nobody_is_there() {
    assert!(registration_allowed(Ok(false)).is_ok());
}

#[test]
fn registration_stops_where_somebody_is_there() {
    let e = registration_allowed(Ok(true)).unwrap_err();
    assert_eq!(e.cause, None);
    assert_eq!(e.message.as_deref(), Some("User with that username or email already exist"));
    assert_eq!(e.error_type, ErrorTypes::Auth(Auth::Authorization));
}

#[test]
fn registration_stops_where_the_question_failed() {
    let e = registration_allowed(Err("pool timed out".to_string())).unwrap_err();
    assert_eq!(e.cause.as_deref(), Some("pool timed out"));
    assert_eq!(e.message.as_deref(), Some("Query error"));
    assert_eq!(e.error_type, ErrorTypes::DbError);
}

#[test]
fn account_with_its_hash() {
    let u = with_hash(anna(), Ok("$argon2id$...".to_string())).unwrap();
    assert_eq!(u.username, "anna");
    assert_eq!(u.email, "anna@example.com");
    assert_eq!(u.password_hash, "$argon2id$...");
    let e = with_hash(anna(), Err("salt invalid".to_string())).unwrap_err();
    assert_eq!(e.cause.as_deref(), Some("salt invalid"));
    assert_eq!(e.message.as_deref(), Some("Password hashing error"));
    assert_eq!(e.error_type, ErrorTypes::DbError);
}

#[test]
fn new_account_holds_a_hash_not_the_password() {
    let u = db_add_user(anna(), Ok(false)).unwrap();
    assert_eq!(u.username, "anna");
    assert_eq!(u.email, "anna@example.com");
    assert!(u.password_hash.starts_with("$argon2id$v=19$m=19456,t=2,p=1$"));
    assert!(!u.password_hash.contains("correct horse"));
    let again = db_add_user(anna(), Ok(false)).unwrap();
    assert_ne!(u.password_hash, again.password_hash);
}

#[test]
fn new_account_is_refused_before_hashing() {
    let e = db_add_user(anna(), Ok(true)).unwrap_err();
    assert_eq!(e.message.as_deref(), Some("User with that username or email already exist"));
    let e = db_add_user(anna(), Err("down".to_string())).unwrap_err();
    assert_eq!(e.cause.as_deref(), Some("down"));
    assert_eq!(e.message.as_deref(), Some("Query error"));
}

#[test]
fn login_with_the_password_that_was_hashed() {
    let u = db_add_user(anna(), Ok(false)).unwrap();
    let user = user_login(login("correct horse"), Ok(stored(&u.password_hash))).unwrap();
    assert_eq!(user.id, 9);
    assert_eq!(user.password_hash, u.password_hash);
}

#[test]
fn login_with_another_password() {
    let u = db_add_user(anna(), Ok(false)).unwrap();
    let e = user_login(login("correct horsf"), Ok(stored(&u.password_hash))).unwrap_err();
    assert_eq!(e.cause.as_deref(), Some("invalid password"));
    assert_eq!(e.message.as_deref(), Some("Incorrect password. Try again!"));
    assert_eq!(e.error_type, ErrorTypes::Auth(Auth::Authentication));
}

#[test]
fn login_against_a_known_hash() {
    let hash = "$argon2id$v=19$m=19456,t=2,p=1$c29tZXNhbHRzb21lc2FsdA$";
    assert!(user_login(login("password"), Ok(stored(hash))).is_err());
}

#[test]
fn login_against_text_that_is_no_hash() {
    let e = user_login(login("correct horse"), Ok(stored("plain text"))).unwrap_err();
    assert!(e.cause.is_some());
    assert_eq!(e.message.as_deref(), Some("Password hashing error"));
    assert_eq!(e.error_type, ErrorTypes::DbError);
    let e = user_login(login("correct horse"), Ok(stored(""))).unwrap_err();
    assert_eq!(e.message.as_deref(), Some("Password hashing error"));
}

#[test]
fn login_of_nobody() {
    let e = user_login(login("correct horse"), Err("no rows returned".to_string())).unwrap_err();
    assert_eq!(e.cause.as_deref(), Some("no rows returned"));
    assert_eq!(e.message.as_deref(), Some("Invalid password or email"));
    assert_eq!(e.error_type, ErrorTypes::Auth(Auth::Authentication));
    assert_eq!(e.status_code(), 401);
}

#[test]
fn login_once_checked() {
    assert_eq!(login_checked(stored("h"), PasswordCheck::Verified).unwrap().id, 9);
    let e = login_checked(stored("h"), PasswordCheck::Malformed("bad".to_string())).unwrap_err();
    assert_eq!(e.cause.as_deref(), Some("bad"));
    assert_eq!(e.message.as_deref(), Some("Password hashing error"));
    assert_eq!(e.error_type, ErrorTypes::DbError);
    let e = login_checked(stored("h"), PasswordCheck::Rejected("no".to_string())).unwrap_err();
    assert_eq!(e.cause.as_deref(), Some("no"));
    assert_eq!(e.message.as_deref(), Some("Incorrect password. Try again!"));
    assert_eq!(e.error_type, ErrorTypes::Auth(Auth::Authentication));
}

#[test]
fn user_that_is_found_or_not() {
    assert_eq!(db_find_user(Ok(stored("h"))).unwrap().username, "anna");
    let e = db_find_user(Err("no rows".to_string())).unwrap_err();
    assert_eq!(e.cause.as_deref(), Some("no rows"));
    assert_eq!(e.message.as_deref(), Some("User doesn't exist"));
    assert_eq!(e.error_type, ErrorTypes::NotFoundError);
    assert_eq!(e.status_code(), 404);
}
