pub mod access_control;
pub mod error;
pub mod school;
pub mod user;
