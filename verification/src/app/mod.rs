//! Settings of the service and the avatar address of a student.

pub mod avatar;
pub mod configurations;
pub mod services;

pub use avatar::AvatarClient;
pub use services::{checked_data, delete_student, invalid_data};
pub use configurations::{
    AppSettings, AuthSettings, AvatarSettings, DbSettings, Environment, Settings, TokenConfig,
};
