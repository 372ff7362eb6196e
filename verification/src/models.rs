pub mod auth;
pub mod envelope;
