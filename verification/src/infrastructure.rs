pub mod config;
pub mod repository;
pub mod school;
