//! Student records and user accounts behind token-based sessions: the rules
//! of the service, with the database, the HTTP server and the clock outside.
//!
//! - [`schemas`] holds the records, the rules a client's data has to meet,
//!   and the session tokens.
//! - [`auth`] decides which requests pass and what logging in, refreshing
//!   and logging out hand to a client.
//! - [`db`] decides what the service makes of the answers of the database.
//! - [`app`] holds the settings and the avatar address of a student.
//! - [`errors`] is the failure every operation reports.
//! - [`validation`], [`ids`], [`clock`] and [`text`] are what the others
//!   share.

pub mod app;
pub mod auth;
pub mod clock;
pub mod db;
pub mod errors;
pub mod ids;
pub mod schemas;
pub mod text;
pub mod validation;
