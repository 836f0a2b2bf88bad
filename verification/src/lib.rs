//! Verified core of a local identity provider and its storage service:
//! OAuth2 request validation, scope handling, permission matching,
//! storage path resolution and the small state machines around them.

pub mod text;
pub mod order;
pub mod model;
pub mod oauth2;
pub mod repo;
pub mod storage;
pub mod fetch_api;
pub mod password_config;
pub mod server;
pub mod bootstrap;
