pub mod get_session;
pub mod get_user;
