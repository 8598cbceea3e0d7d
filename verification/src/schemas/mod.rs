//! The records of the service: students, users and session tokens.

pub mod jwt;
pub mod student;
pub mod user;

pub use jwt::{Jwt, RawClaims, TokenClaims, TokenSettings, TokenType};
pub use student::{AddStudent, EditStudent, FullStudent, Student};
pub use user::{LoginUser, RegisterUser, User};
