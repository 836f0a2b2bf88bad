//! Authorization-server settings and the discovery metadata derived from them.

use vstd::prelude::*;
use vstd::string::*;

use crate::model::{CodeChallengeMethod, GrantType, ResponseMode, ResponseType, TokenEndpointAuthMethod};
use crate::oauth2::scope::strs;
use crate::text::chars_of;

verus! {

pub const DEFAULT_ISSUER: &'static str = "https://lidp-api.localhost:1337";

pub const DEFAULT_REQUIRE_PKCE: bool = true;

pub const DEFAULT_TOKEN_TTL_SECS: u64 = 3600;

pub const DEFAULT_REFRESH_TOKEN_TTL_SECS: u64 = 2_592_000;

pub const DEFAULT_AUTHORIZATION_CODE_TTL_SECS: u64 = 600;

pub const DEFAULT_DEVICE_CODE_TTL_SECS: i64 = 600;

pub const DEFAULT_DEVICE_POLL_INTERVAL_SECS: i64 = 5;

/// Settings of the authorization server.
#[derive(Clone, Debug)]
pub struct OAuth2Config {
    pub issuer: String,
    pub require_pkce: bool,
    pub token_ttl_secs: u64,
    pub refresh_token_ttl_secs: u64,
    pub authorization_code_ttl_secs: u64,
    pub device_code_ttl_secs: i64,
    pub device_poll_interval_secs: i64,
}

/// OAuth 2.0 authorization server metadata (RFC 8414), as the discovery endpoint serves it.
#[derive(Clone, Debug)]
pub struct AuthorizationServerMetadata {
    pub issuer: String,
    pub authorization_endpoint: Option<String>,
    pub token_endpoint: Option<String>,
    pub jwks_uri: Option<String>,
    pub registration_endpoint: Option<String>,
    pub userinfo_endpoint: Option<String>,
    pub scopes_supported: Vec<String>,
    pub response_types_supported: Vec<ResponseType>,
    pub response_modes_supported: Vec<ResponseMode>,
    pub grant_types_supported: Vec<GrantType>,
    pub token_endpoint_auth_methods_supported: Vec<TokenEndpointAuthMethod>,
    pub token_endpoint_auth_signing_alg_values_supported: Vec<String>,
    pub service_documentation: Option<String>,
    pub ui_locales_supported: Vec<String>,
    pub op_policy_uri: Option<String>,
    pub op_tos_uri: Option<String>,
    pub revocation_endpoint: Option<String>,
    pub revocation_endpoint_auth_methods_supported: Vec<TokenEndpointAuthMethod>,
    pub revocation_endpoint_auth_signing_alg_values_supported: Vec<String>,
    pub introspection_endpoint: Option<String>,
    pub introspection_endpoint_auth_methods_supported: Vec<TokenEndpointAuthMethod>,
    pub introspection_endpoint_auth_signing_alg_values_supported: Vec<String>,
    pub code_challenge_methods_supported: Vec<CodeChallengeMethod>,
    pub signed_metadata: Option<String>,
    pub pushed_authorization_request_endpoint: Option<String>,
    pub dpop_signing_alg_values_supported: Vec<String>,
    pub require_pkce: bool,
}

/// The text of an optional string.
pub open spec fn opt_text(o: Option<String>) -> Option<Seq<char>> {
    match o {
        Some(s) => Some(s@),
        None => None,
    }
}

/// `s` without the slashes at its end (what `trim_end_matches('/')` leaves).
pub open spec fn trim_trailing_slashes(s: Seq<char>) -> Seq<char>
    decreases s.len(),
{
    if s.len() > 0 && s.last() == '/' {
        trim_trailing_slashes(s.drop_last())
    } else {
        s
    }
}

/// The scopes the server advertises.
pub open spec fn supported_scopes() -> Seq<Seq<char>> {
    seq!["openid"@, "profile"@, "email"@, "address"@, "phone"@, "offline_access"@]
}

/// The client authentication methods the server advertises.
pub open spec fn supported_auth_methods() -> Seq<TokenEndpointAuthMethod> {
    seq![
        TokenEndpointAuthMethod::ClientSecretBasic,
        TokenEndpointAuthMethod::ClientSecretPost,
        TokenEndpointAuthMethod::NoAuthentication,
    ]
}

proof fn lemma_trim_prefix(s: Seq<char>, k: int)
    requires
        0 <= k <= s.len(),
        forall|j: int| k <= j < s.len() ==> s[j] == '/',
        k == 0 || s[k - 1] != '/',
    ensures
        trim_trailing_slashes(s) == s.subrange(0, k),
    decreases s.len(),
{
    if s.len() > k {
        lemma_trim_prefix(s.drop_last(), k);
        assert(s.drop_last().subrange(0, k) =~= s.subrange(0, k));
    } else {
        assert(s.subrange(0, k) =~= s);
    }
}

/// `s` without its trailing slashes.
pub fn trim_end_slashes(s: &str) -> (r: String)
    ensures
        r@ == trim_trailing_slashes(s@),
{
    let cs = chars_of(s);
    let mut k = cs.len();
    while k > 0 && cs[k - 1] == '/'
        invariant
            k <= cs@.len(),
            cs@ == s@,
            forall|j: int| k <= j < cs@.len() ==> cs@[j] == '/',
        decreases k,
    {
        k = k - 1;
    }
    proof {
        lemma_trim_prefix(s@, k as int);
    }
    s.substring_char(0, k).to_owned()
}

fn endpoint(issuer: &String, path: &str) -> (r: Option<String>)
    ensures
        opt_text(r) == Some(issuer@ + path@),
{
    let mut s = issuer.clone();
    s.append(path);
    Some(s)
}

impl Default for OAuth2Config {
    /// The settings used when none are configured.
    fn default() -> (r: Self)
        ensures
            r.issuer@ == DEFAULT_ISSUER@,
            r.require_pkce == DEFAULT_REQUIRE_PKCE,
            r.token_ttl_secs == DEFAULT_TOKEN_TTL_SECS,
            r.refresh_token_ttl_secs == DEFAULT_REFRESH_TOKEN_TTL_SECS,
            r.authorization_code_ttl_secs == DEFAULT_AUTHORIZATION_CODE_TTL_SECS,
            r.device_code_ttl_secs == DEFAULT_DEVICE_CODE_TTL_SECS,
            r.device_poll_interval_secs == DEFAULT_DEVICE_POLL_INTERVAL_SECS,
    {
        OAuth2Config {
            issuer: String::from_str(DEFAULT_ISSUER),
            require_pkce: DEFAULT_REQUIRE_PKCE,
            token_ttl_secs: DEFAULT_TOKEN_TTL_SECS,
            refresh_token_ttl_secs: DEFAULT_REFRESH_TOKEN_TTL_SECS,
            authorization_code_ttl_secs: DEFAULT_AUTHORIZATION_CODE_TTL_SECS,
            device_code_ttl_secs: DEFAULT_DEVICE_CODE_TTL_SECS,
            device_poll_interval_secs: DEFAULT_DEVICE_POLL_INTERVAL_SECS,
        }
    }
}

impl OAuth2Config {
    /// The discovery metadata of a server with these settings: every endpoint hangs off
    /// the issuer with its trailing slashes removed.
    pub fn to_metadata(&self) -> (r: AuthorizationServerMetadata)
        ensures
            r.issuer@ == trim_trailing_slashes(self.issuer@),
            opt_text(r.authorization_endpoint) == Some(r.issuer@ + "/oauth2/auth"@),
            opt_text(r.token_endpoint) == Some(r.issuer@ + "/oauth2/token"@),
            opt_text(r.jwks_uri) == Some(r.issuer@ + "/.well-known/jwks.json"@),
            opt_text(r.registration_endpoint) == Some(r.issuer@ + "/oauth2/register"@),
            opt_text(r.userinfo_endpoint) == Some(r.issuer@ + "/userinfo"@),
            opt_text(r.revocation_endpoint) == Some(r.issuer@ + "/oauth2/revoke"@),
            strs(r.scopes_supported@) == supported_scopes(),
            r.response_types_supported@ == seq![ResponseType::Code],
            r.response_modes_supported@ == seq![ResponseMode::Query, ResponseMode::FormPost],
            r.grant_types_supported@ == seq![
                GrantType::AuthorizationCode,
                GrantType::ClientCredentials,
                GrantType::RefreshToken,
            ],
            r.token_endpoint_auth_methods_supported@ == supported_auth_methods(),
            r.revocation_endpoint_auth_methods_supported@ == supported_auth_methods(),
            r.code_challenge_methods_supported@ == seq![CodeChallengeMethod::S256],
            r.token_endpoint_auth_signing_alg_values_supported@.len() == 0,
            r.ui_locales_supported@.len() == 0,
            r.revocation_endpoint_auth_signing_alg_values_supported@.len() == 0,
            r.introspection_endpoint_auth_methods_supported@.len() == 0,
            r.introspection_endpoint_auth_signing_alg_values_supported@.len() == 0,
            r.dpop_signing_alg_values_supported@.len() == 0,
            r.service_documentation is None,
            r.op_policy_uri is None,
            r.op_tos_uri is None,
            r.introspection_endpoint is None,
            r.signed_metadata is None,
            r.pushed_authorization_request_endpoint is None,
            r.require_pkce == self.require_pkce,
    {
        let issuer = trim_end_slashes(self.issuer.as_str());
        let scopes = vec![
            String::from_str("openid"),
            String::from_str("profile"),
            String::from_str("email"),
            String::from_str("address"),
            String::from_str("phone"),
            String::from_str("offline_access"),
        ];
        assert(strs(scopes@) =~= supported_scopes());
        AuthorizationServerMetadata {
            authorization_endpoint: endpoint(&issuer, "/oauth2/auth"),
            token_endpoint: endpoint(&issuer, "/oauth2/token"),
            jwks_uri: endpoint(&issuer, "/.well-known/jwks.json"),
            registration_endpoint: endpoint(&issuer, "/oauth2/register"),
            userinfo_endpoint: endpoint(&issuer, "/userinfo"),
            scopes_supported: scopes,
            response_types_supported: vec![ResponseType::Code],
            response_modes_supported: vec![ResponseMode::Query, ResponseMode::FormPost],
            grant_types_supported: vec![
                GrantType::AuthorizationCode,
                GrantType::ClientCredentials,
                GrantType::RefreshToken,
            ],
            token_endpoint_auth_methods_supported: vec![
                TokenEndpointAuthMethod::ClientSecretBasic,
                TokenEndpointAuthMethod::ClientSecretPost,
                TokenEndpointAuthMethod::NoAuthentication,
            ],
            token_endpoint_auth_signing_alg_values_supported: Vec::new(),
            service_documentation: None,
            ui_locales_supported: Vec::new(),
            op_policy_uri: None,
            op_tos_uri: None,
            revocation_endpoint: endpoint(&issuer, "/oauth2/revoke"),
            revocation_endpoint_auth_methods_supported: vec![
                TokenEndpointAuthMethod::ClientSecretBasic,
                TokenEndpointAuthMethod::ClientSecretPost,
                TokenEndpointAuthMethod::NoAuthentication,
            ],
            revocation_endpoint_auth_signing_alg_values_supported: Vec::new(),
            introspection_endpoint: None,
            introspection_endpoint_auth_methods_supported: Vec::new(),
            introspection_endpoint_auth_signing_alg_values_supported: Vec::new(),
            code_challenge_methods_supported: vec![CodeChallengeMethod::S256],
            signed_metadata: None,
            pushed_authorization_request_endpoint: None,
            dpop_signing_alg_values_supported: Vec::new(),
            require_pkce: self.require_pkce,
            issuer,
        }
    }
}


/// The issuer that `to_metadata` advertises never ends in a slash, and trimming it again
/// changes nothing: metadata built from an advertised issuer advertises the same issuer.
pub proof fn law_trimmed_issuer_is_stable(issuer: Seq<char>)
    ensures
        trim_trailing_slashes(issuer).len() == 0 || trim_trailing_slashes(issuer).last() != '/',
        trim_trailing_slashes(trim_trailing_slashes(issuer)) == trim_trailing_slashes(issuer),
        trim_trailing_slashes(issuer).is_prefix_of(issuer),
    decreases issuer.len(),
{
    if issuer.len() > 0 && issuer.last() == '/' {
        law_trimmed_issuer_is_stable(issuer.drop_last());
        let t = trim_trailing_slashes(issuer.drop_last());
        assert(issuer.drop_last().subrange(0, t.len() as int) =~= issuer.subrange(0, t.len() as int));
    } else {
        assert(issuer.subrange(0, issuer.len() as int) =~= issuer);
    }
}

} // verus!
