use std::sync::Arc;

use lidp_unified::bootstrap::flow::{BootstrapAction, BootstrapEvent, BootstrapState, KeyStep, Stage};
use lidp_unified::bootstrap::secret::client_secret_from_draws;
use lidp_unified::bootstrap::{plan_client, BootstrapConfig, BootstrapService, ClientPlan};
use lidp_unified::model::{
    Application, Client, ClientProfile, ClientType, EntityType, GrantType, Key, Permission, ResponseType,
    Role, TokenEndpointAuthMethod, User,
};
use lidp_unified::repo::key_service::{KeyService, PrivateKeyKeyringRepo};

type Service = BootstrapService<(), (), (), (), (), ()>;

fn service(config: BootstrapConfig) -> Service {
    let keys = KeyService::new((), PrivateKeyKeyringRepo::new("lidp".to_string()), "lidp".to_string());
    BootstrapService::new((), (), (), (), (), Arc::new(keys), config)
}

fn key(id: u32, entity_type: EntityType, entity_id: i64) -> Key {
    Key {
        id,
        parent_id: None,
        entity_type,
        entity_id,
        derivation_path: "m/0'".to_string(),
        name: "key".to_string(),
        hardened: true,
        revoked_at: None,
        expires_at: None,
        created_at: 0,
        updated_at: 0,
    }
}

const SCOPES: [&str; 6] = ["openid", "profile", "address", "offline", "email", "phone"];

fn baseline_client(id: i64, application_id: i64, client_id: &str, name: &str, uri: &str, profile: ClientProfile) -> Client {
    Client {
        id,
        application_id,
        client_id: client_id.to_string(),
        client_secret: format!("secret-{id}"),
        client_id_issued_at: None,
        client_secret_expires_at: None,
        client_name: name.to_string(),
        client_uri: uri.to_string(),
        redirect_uris: vec![format!("{uri}/callback")],
        client_type: ClientType::Public,
        profile,
        token_endpoint_auth_method: TokenEndpointAuthMethod::NoAuthentication,
        allowed_grant_types: vec![GrantType::AuthorizationCode],
        response_types: vec![ResponseType::Code],
        allowed_scopes: SCOPES.iter().map(|s| s.to_string()).collect(),
        logo_uri: None,
        contacts: Vec::new(),
        terms_of_service_uri: None,
        policy_uri: None,
        software_statement: None,
        software_id: None,
        software_version: None,
        created_at: 0,
        updated_at: 0,
    }
}

fn application(id: i64, name: &str, uri: &str) -> Application {
    Application { id, name: name.to_string(), uri: uri.to_string(), description: None, created_at: 0, updated_at: 0 }
}

fn user(id: i64) -> User {
    User {
        id,
        name: "admin".to_string(),
        given_name: None,
        family_name: None,
        middle_name: None,
        nickname: None,
        profile: None,
        picture: None,
        website: None,
        sex: None,
        birthdate: None,
        zoneinfo: None,
        locale: None,
        created_at: 0,
        updated_at: 0,
    }
}

fn role(id: i64, name: &str) -> Role {
    Role { id, application_id: 11, name: name.to_string(), description: None, created_at: 0, updated_at: 0 }
}

fn permission(id: i64, name: &str) -> Permission {
    Permission { id, application_id: 11, name: name.to_string(), description: None, created_at: 0, updated_at: 0 }
}

fn is_write(action: &BootstrapAction) -> bool {
    matches!(
        action,
        BootstrapAction::CreateApplication { .. }
            | BootstrapAction::CreateClient { .. }
            | BootstrapAction::UpdateClient { .. }
            | BootstrapAction::CreateAdmin { .. }
            | BootstrapAction::CreateRole { .. }
            | BootstrapAction::CreatePermission { .. }
            | BootstrapAction::AddPermissionToRole { .. }
            | BootstrapAction::AddRoleToUser { .. }
            | BootstrapAction::CreateKey { .. }
    )
}

/// Answers every call as a repository that already holds the whole baseline would.
fn settled_answer(action: &BootstrapAction, config: &BootstrapConfig) -> BootstrapEvent {
    match action {
        BootstrapAction::FindApplication { uri } => {
            let (id, name) = if uri == "lidp" { (10, "Local IdP") } else { (11, "Local IdP Management") };
            BootstrapEvent::ApplicationFound(Some(application(id, name, uri)))
        }
        BootstrapAction::FindClient { client_id } => {
            let existing = match client_id.as_str() {
                "lidp-web" => baseline_client(1, 10, client_id, "Local IdP Web", &config.lidp_url, ClientProfile::Web),
                "lidp-desktop" => baseline_client(2, 10, client_id, "Local IdP Desktop", "lidp://app", ClientProfile::Native),
                "lidp-management-web" => baseline_client(
                    3,
                    11,
                    client_id,
                    "Local IdP Management Web",
                    &config.lidp_management_url,
                    ClientProfile::Web,
                ),
                _ => baseline_client(4, 11, client_id, "Local IdP Management Desktop", "lidp-management://app", ClientProfile::Native),
            };
            BootstrapEvent::ClientFound { existing: Some(existing), new_secret: "fresh".to_string() }
        }
        BootstrapAction::EnsureMasterKey { .. } => BootstrapEvent::MasterKeyEnsured,
        BootstrapAction::FindActiveRootKey { entity_type, entity_id } => {
            BootstrapEvent::RootKeyFound(Some(key(1, *entity_type, *entity_id)))
        }
        BootstrapAction::EnsureDerivationPath { .. } => BootstrapEvent::DerivationPathEnsured,
        BootstrapAction::FindAdmin { .. } => BootstrapEvent::AdminFound(Some(user(5))),
        BootstrapAction::ListRoles { .. } => BootstrapEvent::RolesListed(vec![role(2, "viewer"), role(3, "admin")]),
        BootstrapAction::ListPermissions { .. } => BootstrapEvent::PermissionsListed(vec![permission(4, "*")]),
        BootstrapAction::ListRolePermissions { .. } => BootstrapEvent::RolePermissionsListed(vec![permission(4, "*")]),
        BootstrapAction::ListUserRoles { .. } => BootstrapEvent::UserRolesListed(vec![role(3, "admin")]),
        _ => panic!("unexpected call"),
    }
}

/// Answers every call as an empty repository would, creating what it is asked to.
fn empty_answer(action: &BootstrapAction) -> BootstrapEvent {
    match action {
        BootstrapAction::FindApplication { .. } => BootstrapEvent::ApplicationFound(None),
        BootstrapAction::CreateApplication { name, uri } => {
            BootstrapEvent::ApplicationCreated(application(if uri == "lidp" { 20 } else { 21 }, name, uri))
        }
        BootstrapAction::FindClient { .. } => BootstrapEvent::ClientFound { existing: None, new_secret: "fresh".to_string() },
        BootstrapAction::CreateClient { registration } => {
            let mut c = baseline_client(
                30,
                registration.application_id,
                registration.client_id.as_deref().unwrap(),
                &registration.client_name,
                registration.client_uri.as_deref().unwrap(),
                registration.profile,
            );
            c.client_secret = registration.client_secret.clone().unwrap();
            BootstrapEvent::ClientStored(c)
        }
        BootstrapAction::EnsureMasterKey { .. } => BootstrapEvent::MasterKeyEnsured,
        BootstrapAction::FindActiveRootKey { .. } => BootstrapEvent::RootKeyFound(None),
        BootstrapAction::CreateKey { entity_type, entity_id, .. } => BootstrapEvent::KeyCreated(key(2, *entity_type, *entity_id)),
        BootstrapAction::EnsureDerivationPath { .. } => BootstrapEvent::DerivationPathEnsured,
        BootstrapAction::FindAdmin { .. } => BootstrapEvent::AdminFound(None),
        BootstrapAction::CreateAdmin { .. } => BootstrapEvent::AdminCreated(user(6)),
        BootstrapAction::ListRoles { .. } => BootstrapEvent::RolesListed(Vec::new()),
        BootstrapAction::CreateRole { name, .. } => BootstrapEvent::RoleCreated(role(7, name)),
        BootstrapAction::ListPermissions { .. } => BootstrapEvent::PermissionsListed(Vec::new()),
        BootstrapAction::CreatePermission { name, .. } => BootstrapEvent::PermissionCreated(permission(8, name)),
        BootstrapAction::ListRolePermissions { .. } => BootstrapEvent::RolePermissionsListed(Vec::new()),
        BootstrapAction::AddPermissionToRole { .. } => BootstrapEvent::PermissionAdded,
        BootstrapAction::ListUserRoles { .. } => BootstrapEvent::UserRolesListed(Vec::new()),
        BootstrapAction::AddRoleToUser { .. } => BootstrapEvent::RoleAdded,
        _ => panic!("unexpected call"),
    }
}

fn run(service: &Service, answer: impl Fn(&BootstrapAction) -> BootstrapEvent) -> Vec<BootstrapAction> {
    let mut state = BootstrapState::new();
    let mut event = BootstrapEvent::Started;
    let mut actions = Vec::new();
    loop {
        let (next, action) = service.step(state, event).expect("the event answers the stage");
        state = next;
        if matches!(action, BootstrapAction::Finish) {
            assert_eq!(state.stage, Stage::Done);
            return actions;
        }
        event = answer(&action);
        actions.push(action);
    }
}

#[test]
fn default_bootstrap_config() {
    let config = BootstrapConfig::default();
    assert_eq!(config.lidp_url, "https://lidp.localhost:1337");
    assert_eq!(config.lidp_management_url, "https://lidp-management.localhost:1337");
    assert_eq!(config.admin_username, "admin");
    assert_eq!(config.admin_email, "admin@localhost");
    assert_eq!(config.admin_password, "password");
}

#[test]
fn settled_installation_is_left_alone() {
    let config = BootstrapConfig::default();
    let service = service(config.clone());
    let actions = run(&service, |a| settled_answer(a, &config));
    assert!(actions.iter().all(|a| !is_write(a)));
    assert_eq!(actions.len(), 26);
    match &actions[0] {
        BootstrapAction::FindApplication { uri } => assert_eq!(uri, "lidp"),
        _ => panic!("expected the application lookup first"),
    }
    match &actions[2] {
        BootstrapAction::EnsureMasterKey { namespace, passphrase } => {
            assert_eq!(namespace, "lidp:client:1");
            assert_eq!(passphrase, "secret-1");
        }
        _ => panic!("expected the web client's master key"),
    }
    match &actions[3] {
        BootstrapAction::FindActiveRootKey { entity_type, entity_id } => {
            assert_eq!(*entity_type, EntityType::Client);
            assert_eq!(*entity_id, 1);
        }
        _ => panic!("expected the web client's root key lookup"),
    }
    match &actions[4] {
        BootstrapAction::EnsureDerivationPath { namespace, derivation_path } => {
            assert_eq!(namespace, "lidp:client:1");
            assert_eq!(derivation_path, "m/0'");
        }
        _ => panic!("expected the web client's derivation path"),
    }
    match &actions[9] {
        BootstrapAction::FindApplication { uri } => assert_eq!(uri, "lidp-management"),
        _ => panic!("expected the management application"),
    }
    match &actions[18] {
        BootstrapAction::FindAdmin { identifier } => assert_eq!(identifier, "admin@localhost"),
        _ => panic!("expected the administrator lookup"),
    }
    match &actions[19] {
        BootstrapAction::ListRoles { application, offset, limit } => {
            assert_eq!(application, "lidp-management");
            assert_eq!((*offset, *limit), (0, 1000));
        }
        _ => panic!("expected the role listing"),
    }
    match &actions[23] {
        BootstrapAction::EnsureMasterKey { namespace, passphrase } => {
            assert_eq!(namespace, "lidp:user:5");
            assert_eq!(passphrase, "password");
        }
        _ => panic!("expected the administrator's master key"),
    }
}

#[test]
fn empty_installation_gets_the_whole_baseline() {
    let service = service(BootstrapConfig::default());
    let actions = run(&service, empty_answer);
    let writes: Vec<&BootstrapAction> = actions.iter().filter(|a| is_write(a)).collect();
    assert_eq!(writes.len(), 2 + 4 + 5 + 1 + 4);
    let keys: Vec<(EntityType, i64, String)> = actions
        .iter()
        .filter_map(|a| match a {
            BootstrapAction::CreateKey { parent_id, entity_type, entity_id, hardened, name } => {
                assert!(parent_id.is_none() && *hardened);
                Some((*entity_type, *entity_id, name.clone()))
            }
            _ => None,
        })
        .collect();
    assert_eq!(keys[0], (EntityType::Client, 30, "Local IdP Web".to_string()));
    assert_eq!(keys[4], (EntityType::User, 6, "admin".to_string()));
    let paths = actions
        .iter()
        .filter(|a| matches!(a, BootstrapAction::EnsureDerivationPath { .. }))
        .count();
    assert_eq!(paths, 5);
    let created: Vec<String> = actions
        .iter()
        .filter_map(|a| match a {
            BootstrapAction::CreateClient { registration } => registration.client_id.clone(),
            _ => None,
        })
        .collect();
    assert_eq!(created, vec!["lidp-web", "lidp-desktop", "lidp-management-web", "lidp-management-desktop"]);
    let role_grant = actions.iter().find_map(|a| match a {
        BootstrapAction::AddRoleToUser { application, user_id, role_id } => Some((application.clone(), *user_id, *role_id)),
        _ => None,
    });
    assert_eq!(role_grant, Some(("lidp-management".to_string(), 6, 7)));
    let permission_grant = actions.iter().find_map(|a| match a {
        BootstrapAction::AddPermissionToRole { role_id, permission_id, .. } => Some((*role_id, *permission_id)),
        _ => None,
    });
    assert_eq!(permission_grant, Some((7, 8)));
    let role_creation = actions.iter().find_map(|a| match a {
        BootstrapAction::CreateRole { name, description, .. } => Some((name.clone(), description.clone())),
        _ => None,
    });
    assert_eq!(
        role_creation,
        Some(("admin".to_string(), Some("Administrative role with full management permissions".to_string())))
    );
}

#[test]
fn step_refuses_events_that_do_not_answer() {
    let service = service(BootstrapConfig::default());
    assert!(service.step(BootstrapState::new(), BootstrapEvent::MasterKeyEnsured).is_none());
    let mut state = BootstrapState::new();
    state.stage = Stage::ListingRoles;
    assert!(service.step(state, BootstrapEvent::RolesListed(Vec::new())).is_none());
    let mut state = BootstrapState::new();
    state.stage = Stage::AdminKey(KeyStep::RootKey);
    assert!(service.step(state, BootstrapEvent::RootKeyFound(None)).is_none());
}

#[test]
fn missing_client_is_registered_as_public_code_client() {
    match plan_client(
        None,
        10,
        "lidp-web".to_string(),
        "Local IdP Web".to_string(),
        "https://lidp.localhost:1337".to_string(),
        ClientProfile::Web,
        "s3cret".to_string(),
    ) {
        ClientPlan::Create(r) => {
            assert_eq!(r.application_id, 10);
            assert_eq!(r.client_id.as_deref(), Some("lidp-web"));
            assert_eq!(r.client_secret.as_deref(), Some("s3cret"));
            assert_eq!(r.client_uri.as_deref(), Some("https://lidp.localhost:1337"));
            assert_eq!(r.redirect_uris, vec!["https://lidp.localhost:1337/callback"]);
            assert_eq!(r.client_type, ClientType::Public);
            assert_eq!(r.token_endpoint_auth_method, TokenEndpointAuthMethod::NoAuthentication);
            assert_eq!(
                r.allowed_grant_types,
                vec![GrantType::Password, GrantType::ClientCredentials, GrantType::AuthorizationCode, GrantType::RefreshToken]
            );
            assert_eq!(r.response_types, vec![ResponseType::Code]);
            assert_eq!(r.allowed_scopes, SCOPES.to_vec());
        }
        _ => panic!("expected a registration"),
    }
}

#[test]
fn drifted_client_is_corrected_and_matching_one_kept() {
    let good = baseline_client(1, 10, "lidp-web", "Local IdP Web", "https://lidp.localhost:1337", ClientProfile::Web);
    let mut drifted = good.clone();
    drifted.client_name = "Old name".to_string();
    drifted.allowed_scopes = vec!["openid".to_string()];
    drifted.logo_uri = Some("https://logo".to_string());
    let plan = |c: Client| {
        plan_client(
            Some(c),
            10,
            "lidp-web".to_string(),
            "Local IdP Web".to_string(),
            "https://lidp.localhost:1337".to_string(),
            ClientProfile::Web,
            "unused".to_string(),
        )
    };
    match plan(drifted) {
        ClientPlan::Update(c) => {
            assert_eq!(c.client_name, "Local IdP Web");
            assert_eq!(c.allowed_scopes, SCOPES.to_vec());
            assert_eq!(c.logo_uri.as_deref(), Some("https://logo"));
            assert_eq!(c.client_secret, "secret-1");
        }
        _ => panic!("expected a correction"),
    }
    match plan(good) {
        ClientPlan::Keep(c) => assert_eq!(c.client_name, "Local IdP Web"),
        _ => panic!("expected the client to be kept"),
    }
}

#[test]
fn client_secret_is_32_letters_and_digits() {
    let draws: Vec<u8> = (0u8..=255).collect();
    let secret = client_secret_from_draws(&draws).unwrap();
    assert_eq!(secret.len(), 32);
    assert!(secret.chars().all(|c| c.is_ascii_alphanumeric()));
    assert_eq!(secret, "ABCDEFGHIJKLMNOPQRSTUVWXYZabcdef");
}

#[test]
fn client_secret_skips_high_bytes_and_needs_enough_draws() {
    let mut draws = vec![255u8, 250, 248];
    draws.extend(std::iter::repeat(61u8).take(31));
    assert!(client_secret_from_draws(&draws).is_none());
    draws.push(62);
    let secret = client_secret_from_draws(&draws).unwrap();
    assert_eq!(secret, format!("{}A", "9".repeat(31)));
}
