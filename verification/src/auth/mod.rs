//! Who may call the service: the check every guarded request passes, and the
//! sessions that logging in, refreshing and logging out hand to a client.

pub mod handlers;
pub mod middleware;

pub use handlers::{login_checked_data, login_user, logout_handler, open_session, refresh_auth};
pub use middleware::JwtMiddleware;
