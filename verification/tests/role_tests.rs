use lidp_unified::model::EntityType;
use lidp_unified::repo::key_service::{KeyService, PrivateKeyKeyringRepo};
use lidp_unified::repo::master_key_keyring_repo::MasterKeyKeyringRepo;
use lidp_unified::repo::role_repo::permission_matches;

#[test]
fn star_covers_everything() {
    assert!(permission_matches("*", "clients:read"));
    assert!(permission_matches("*", ""));
}

#[test]
fn a_name_covers_itself_only() {
    assert!(permission_matches("clients:read", "clients:read"));
    assert!(!permission_matches("clients:read", "clients:write"));
    assert!(!permission_matches("clients:read", "clients:read:all"));
}

#[test]
fn wildcard_covers_the_prefix_family() {
    assert!(permission_matches("clients:*", "clients:read"));
    assert!(permission_matches("clients*", "clients-admin"));
    assert!(!permission_matches("clients:*", "users:read"));
}

#[test]
fn colon_and_dot_families_cover_each_other() {
    assert!(permission_matches("clients:*", "clients.read"));
    assert!(permission_matches("clients.*", "clients:read"));
    assert!(!permission_matches("clients.*", "clients-read"));
}

#[test]
fn scoped_namespace_names_entity_type_and_id() {
    let service = KeyService::new((), PrivateKeyKeyringRepo::new("lidp".to_string()), "lidp".to_string());
    assert_eq!(service.scoped_namespace(EntityType::User, 42), "lidp:user:42");
    assert_eq!(service.scoped_namespace(EntityType::Client, -7), "lidp:client:-7");
    assert_eq!(service.scoped_namespace(EntityType::Client, 0), "lidp:client:0");
    assert_eq!(
        service.scoped_namespace(EntityType::User, i64::MIN),
        "lidp:user:-9223372036854775808"
    );
}

#[test]
fn key_service_hands_out_its_repositories() {
    let service = KeyService::new(5u8, PrivateKeyKeyringRepo::new("keys".to_string()), "ns".to_string());
    assert_eq!(*service.key_repo(), 5u8);
    assert_eq!(service.private_key_repo().service_name, "keys");
}

#[test]
fn keyring_repos_keep_their_service_name() {
    assert_eq!(MasterKeyKeyringRepo::new("lidp".to_string()).service_name, "lidp");
}

#[test]
fn entity_types_display_lowercase() {
    assert_eq!(EntityType::User.as_str(), "user");
    assert_eq!(EntityType::Client.as_str(), "client");
}
