pub mod sessions;
pub mod users;
