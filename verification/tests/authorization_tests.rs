use lidp_unified::model::{
    AuthorizationRequest, Client, ClientProfile, ClientType, CodeChallengeMethod, GrantType,
    ResponseMode, ResponseType, TokenEndpointAuthMethod,
};
use lidp_unified::oauth2::authorization::{resolve_redirect_uri, validate_authorization_request};
use lidp_unified::oauth2::error::ErrorCode;

fn sample_client() -> Client {
    Client {
        id: 1,
        application_id: 1,
        client_id: "client-1".to_string(),
        client_secret: "secret".to_string(),
        client_id_issued_at: None,
        client_secret_expires_at: None,
        client_name: "Example".to_string(),
        client_uri: String::new(),
        redirect_uris: vec!["https://example.com/callback".to_string()],
        client_type: ClientType::Public,
        profile: ClientProfile::Web,
        token_endpoint_auth_method: TokenEndpointAuthMethod::NoAuthentication,
        allowed_grant_types: vec![GrantType::AuthorizationCode],
        response_types: vec![ResponseType::Code],
        allowed_scopes: vec!["openid".to_string()],
        logo_uri: None,
        contacts: Vec::new(),
        terms_of_service_uri: None,
        policy_uri: None,
        software_statement: None,
        software_id: None,
        software_version: None,
        created_at: 1_700_000_000,
        updated_at: 1_700_000_000,
    }
}

fn sample_request() -> AuthorizationRequest {
    AuthorizationRequest {
        response_type: ResponseType::Code,
        client_id: "client-1".to_string(),
        redirect_uri: Some("https://example.com/callback".to_string()),
        scope: Some("openid".to_string()),
        state: "state".to_string(),
        resource: None,
        code_challenge: None,
        code_challenge_method: None,
        nonce: None,
        prompt: None,
        response_mode: None,
        login_hint: None,
        id_token_hint: None,
        ui_locales: None,
    }
}

fn with_pkce(mut request: AuthorizationRequest) -> AuthorizationRequest {
    request.code_challenge = Some("E9Melhoa2OwvFrEMTJguCHaoeK1t8URWbuGJSstw-cM".to_string());
    request.code_challenge_method = Some(CodeChallengeMethod::S256);
    request
}

#[test]
fn validate_authorization_request_requires_pkce_for_public_clients() {
    let client = sample_client();
    let request = AuthorizationRequest {
        response_type: ResponseType::Code,
        client_id: "client-1".to_string(),
        redirect_uri: Some("https://example.com/callback".to_string()),
        scope: Some("openid".to_string()),
        state: "state".to_string(),
        resource: None,
        code_challenge: None,
        code_challenge_method: None,
        nonce: None,
        prompt: None,
        response_mode: None,
        login_hint: None,
        id_token_hint: None,
        ui_locales: None,
    };

    let error = validate_authorization_request(&request, &client, false).unwrap_err();
    assert_eq!(error.error, ErrorCode::InvalidRequest);
}

#[test]
fn pkce_error_says_why() {
    let error = validate_authorization_request(&sample_request(), &sample_client(), false).unwrap_err();
    assert_eq!(
        error.error_description.as_deref(),
        Some("PKCE is required for this authorization request")
    );
}

#[test]
fn accepts_public_client_with_s256_challenge() {
    let request = with_pkce(sample_request());
    assert!(validate_authorization_request(&request, &sample_client(), false).is_ok());
    assert!(validate_authorization_request(&request, &sample_client(), true).is_ok());
}

#[test]
fn confidential_client_needs_pkce_only_when_server_requires_it() {
    let mut client = sample_client();
    client.client_type = ClientType::Confidential;
    assert!(validate_authorization_request(&sample_request(), &client, false).is_ok());
    let error = validate_authorization_request(&sample_request(), &client, true).unwrap_err();
    assert_eq!(error.error, ErrorCode::InvalidRequest);
}

#[test]
fn rejects_other_client_id() {
    let mut request = with_pkce(sample_request());
    request.client_id = "client-2".to_string();
    let error = validate_authorization_request(&request, &sample_client(), false).unwrap_err();
    assert_eq!(error.error, ErrorCode::InvalidClient);
    assert_eq!(error.error_description, None);
}

#[test]
fn rejects_token_response_type() {
    let mut request = with_pkce(sample_request());
    request.response_type = ResponseType::Token;
    let error = validate_authorization_request(&request, &sample_client(), false).unwrap_err();
    assert_eq!(error.error, ErrorCode::UnsupportedResponseType);
}

#[test]
fn rejects_code_when_client_lists_only_other_types() {
    let mut client = sample_client();
    client.response_types = vec![ResponseType::Token];
    let error = validate_authorization_request(&with_pkce(sample_request()), &client, false).unwrap_err();
    assert_eq!(error.error, ErrorCode::InvalidResponseType);
    client.response_types = Vec::new();
    assert!(validate_authorization_request(&with_pkce(sample_request()), &client, false).is_ok());
}

#[test]
fn rejects_plain_code_challenge_method() {
    let mut request = with_pkce(sample_request());
    request.code_challenge_method = Some(CodeChallengeMethod::Plain);
    let error = validate_authorization_request(&request, &sample_client(), false).unwrap_err();
    assert_eq!(error.error, ErrorCode::InvalidRequest);
    assert_eq!(
        error.error_description.as_deref(),
        Some("only S256 code challenge method is supported")
    );
}

#[test]
fn rejects_half_given_pkce_parameters() {
    let mut request = with_pkce(sample_request());
    request.code_challenge_method = None;
    let error = validate_authorization_request(&request, &sample_client(), false).unwrap_err();
    assert_eq!(
        error.error_description.as_deref(),
        Some("code_challenge_method is required when code_challenge is present")
    );
    let mut request = with_pkce(sample_request());
    request.code_challenge = None;
    let error = validate_authorization_request(&request, &sample_client(), false).unwrap_err();
    assert_eq!(
        error.error_description.as_deref(),
        Some("code_challenge is required when code_challenge_method is present")
    );
}

#[test]
fn accepts_both_response_modes() {
    for mode in [ResponseMode::Query, ResponseMode::FormPost] {
        let mut request = with_pkce(sample_request());
        request.response_mode = Some(mode);
        assert!(validate_authorization_request(&request, &sample_client(), false).is_ok());
    }
}

#[test]
fn rejects_scope_the_client_may_not_ask_for() {
    let mut request = with_pkce(sample_request());
    request.scope = Some("openid admin".to_string());
    let error = validate_authorization_request(&request, &sample_client(), false).unwrap_err();
    assert_eq!(error.error, ErrorCode::InvalidScope);
    assert_eq!(error.error_description.as_deref(), Some("unsupported scopes: admin"));
}

#[test]
fn resolves_requested_or_single_redirect_uri() {
    let client = sample_client();
    assert_eq!(
        resolve_redirect_uri(&sample_request(), &client).unwrap(),
        "https://example.com/callback"
    );
    let mut request = sample_request();
    request.redirect_uri = None;
    assert_eq!(resolve_redirect_uri(&request, &client).unwrap(), "https://example.com/callback");
}

#[test]
fn refuses_unregistered_or_ambiguous_redirect_uri() {
    let mut client = sample_client();
    let mut request = sample_request();
    request.redirect_uri = Some("https://evil.example/callback".to_string());
    let error = resolve_redirect_uri(&request, &client).unwrap_err();
    assert_eq!(error.error, ErrorCode::InvalidRequest);
    assert_eq!(
        error.error_description.as_deref(),
        Some("redirect_uri is not registered for this client")
    );
    client.redirect_uris.push("https://example.com/other".to_string());
    request.redirect_uri = None;
    let error = resolve_redirect_uri(&request, &client).unwrap_err();
    assert_eq!(
        error.error_description.as_deref(),
        Some("redirect_uri is required when multiple redirect URIs are registered")
    );
}
