pub mod auth;
pub mod poll;
