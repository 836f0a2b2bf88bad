use lidp_unified::model::{CodeChallengeMethod, GrantType, ResponseMode, ResponseType, TokenEndpointAuthMethod};
use lidp_unified::oauth2::config::OAuth2Config;
use lidp_unified::password_config::PasswordConfig;
use lidp_unified::server::{route_prefix, strip_route_prefix, RouterState};

#[test]
fn default_config_uses_local_issuer() {
    let config = OAuth2Config::default();
    assert_eq!(config.issuer, "https://lidp-api.localhost:1337");
    assert!(config.require_pkce);
    assert_eq!(config.token_ttl_secs, 3600);
    assert_eq!(config.refresh_token_ttl_secs, 2_592_000);
    assert_eq!(config.authorization_code_ttl_secs, 600);
    assert_eq!(config.device_code_ttl_secs, 600);
    assert_eq!(config.device_poll_interval_secs, 5);
}

#[test]
fn metadata_endpoints_hang_off_trimmed_issuer() {
    let mut config = OAuth2Config::default();
    config.issuer = "https://idp.example//".to_string();
    config.require_pkce = false;
    let metadata = config.to_metadata();
    assert_eq!(metadata.issuer, "https://idp.example");
    assert_eq!(metadata.authorization_endpoint.as_deref(), Some("https://idp.example/oauth2/auth"));
    assert_eq!(metadata.token_endpoint.as_deref(), Some("https://idp.example/oauth2/token"));
    assert_eq!(metadata.jwks_uri.as_deref(), Some("https://idp.example/.well-known/jwks.json"));
    assert_eq!(metadata.registration_endpoint.as_deref(), Some("https://idp.example/oauth2/register"));
    assert_eq!(metadata.userinfo_endpoint.as_deref(), Some("https://idp.example/userinfo"));
    assert_eq!(metadata.revocation_endpoint.as_deref(), Some("https://idp.example/oauth2/revoke"));
    assert_eq!(metadata.introspection_endpoint, None);
    assert!(!metadata.require_pkce);
}

#[test]
fn metadata_advertises_what_the_server_supports() {
    let metadata = OAuth2Config::default().to_metadata();
    assert_eq!(
        metadata.scopes_supported,
        vec!["openid", "profile", "email", "address", "phone", "offline_access"]
    );
    assert_eq!(metadata.response_types_supported, vec![ResponseType::Code]);
    assert_eq!(metadata.response_modes_supported, vec![ResponseMode::Query, ResponseMode::FormPost]);
    assert_eq!(
        metadata.grant_types_supported,
        vec![GrantType::AuthorizationCode, GrantType::ClientCredentials, GrantType::RefreshToken]
    );
    let methods = vec![
        TokenEndpointAuthMethod::ClientSecretBasic,
        TokenEndpointAuthMethod::ClientSecretPost,
        TokenEndpointAuthMethod::NoAuthentication,
    ];
    assert_eq!(metadata.token_endpoint_auth_methods_supported, methods);
    assert_eq!(metadata.revocation_endpoint_auth_methods_supported, methods);
    assert_eq!(metadata.code_challenge_methods_supported, vec![CodeChallengeMethod::S256]);
    assert!(metadata.require_pkce);
}

#[test]
fn issuer_of_slashes_only_trims_to_empty() {
    let mut config = OAuth2Config::default();
    config.issuer = "///".to_string();
    let metadata = config.to_metadata();
    assert_eq!(metadata.issuer, "");
    assert_eq!(metadata.token_endpoint.as_deref(), Some("/oauth2/token"));
}

#[test]
fn default_password_config() {
    let config = PasswordConfig::default();
    assert_eq!(config.salt_length, 16);
    assert_eq!(config.hash_length, 32);
    assert_eq!(config.memory_mib, 47);
    assert_eq!(config.iterations, 3);
    assert_eq!(config.parallelism, 4);
    assert_eq!(config.history, 24);
    assert_eq!(config.expire_days, 60);
    assert_eq!(config.force_reset_after_days, Some(90));
}

#[test]
fn router_state_keeps_api_base() {
    assert_eq!(RouterState::new("https://api.example").api_base_uri, "https://api.example");
}

#[test]
fn root_prefix_mounts_routes_at_the_top() {
    assert_eq!(route_prefix("/"), "");
    assert_eq!(route_prefix("/storage"), "/storage");
    let state = RouterState::new("https://storage-api.localhost:1337");
    assert_eq!(state.server_url("/"), "https://storage-api.localhost:1337");
    assert_eq!(state.server_url("/v1"), "https://storage-api.localhost:1337/v1");
    assert_eq!(strip_route_prefix("/v1/health", "/v1"), "/health");
    assert_eq!(strip_route_prefix("/health", "/v1"), "/health");
    assert_eq!(strip_route_prefix("/héllo/x", "/héllo"), "/x");
}
