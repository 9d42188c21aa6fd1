pub mod poll;
pub mod user;
