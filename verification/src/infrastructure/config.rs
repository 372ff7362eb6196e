pub mod env_reader;
pub mod school;
