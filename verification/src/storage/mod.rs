pub mod access;
pub mod error;
pub mod fs;
pub mod service;
pub mod iroh;
pub mod policy;
