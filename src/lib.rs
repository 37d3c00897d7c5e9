pub mod address;
pub mod config;
pub mod cycle;
pub mod discover;
pub mod http;
pub mod json;
pub mod provider;
