pub mod auth;
pub mod follow;
pub mod post;
