pub mod config;
pub mod gateway;
pub mod gateway_support;
pub mod repository;
pub mod security;
pub mod week_mapper;
