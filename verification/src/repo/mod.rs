pub mod key_service;
pub mod role_repo;
pub mod master_key_keyring_repo;
pub mod user_repo;
