pub mod authorization;
pub mod config;
pub mod crypto;
pub mod error;
pub mod scope;
pub mod jwt;
pub mod principal;
