//! Domain logic of the AHUT dormitory check-in service.

pub mod constants;
pub mod domain;
pub mod error;
pub mod infrastructure;
pub mod models;
pub mod services;
pub mod text;
pub mod time;
pub mod transport;
pub mod utils;
