pub mod id;
pub mod user;
