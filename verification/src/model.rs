//! The data that the identity provider's logic reads: clients, requests, keys, users.
//! Timestamps are Unix seconds.

use vstd::prelude::*;

verus! {

#[derive(Clone, Copy, Debug, PartialEq, Eq, Structural)]
pub enum ResponseType {
    Code,
    Token,
}

#[derive(Clone, Copy, Debug, PartialEq, Eq, Structural)]
pub enum ResponseMode {
    Query,
    FormPost,
}

#[derive(Clone, Copy, Debug, PartialEq, Eq, Structural)]
pub enum CodeChallengeMethod {
    Plain,
    S256,
}

#[derive(Clone, Copy, Debug, PartialEq, Eq, Structural)]
pub enum ClientType {
    Public,
    Confidential,
}

#[derive(Clone, Copy, Debug, PartialEq, Eq, Structural)]
pub enum ClientProfile {
    Web,
    Native,
}

#[derive(Clone, Copy, Debug, PartialEq, Eq, Structural)]
pub enum GrantType {
    AuthorizationCode,
    ClientCredentials,
    RefreshToken,
    Password,
}

#[derive(Clone, Copy, Debug, PartialEq, Eq, Structural)]
pub enum TokenEndpointAuthMethod {
    ClientSecretBasic,
    ClientSecretPost,
    NoAuthentication,
}

/// The kind of entity that owns a key.
#[derive(Clone, Copy, Debug, PartialEq, Eq, Structural)]
pub enum EntityType {
    User,
    Client,
}

/// An authorization request as the authorization endpoint receives it.
#[derive(Clone, Debug)]
pub struct AuthorizationRequest {
    pub response_type: ResponseType,
    pub client_id: String,
    pub redirect_uri: Option<String>,
    pub scope: Option<String>,
    pub state: String,
    pub resource: Option<String>,
    pub code_challenge: Option<String>,
    pub code_challenge_method: Option<CodeChallengeMethod>,
    pub nonce: Option<String>,
    pub prompt: Option<String>,
    pub response_mode: Option<ResponseMode>,
    pub login_hint: Option<String>,
    pub id_token_hint: Option<String>,
    pub ui_locales: Option<String>,
}

/// A registered OAuth2 client.
#[derive(Clone, Debug)]
pub struct Client {
    pub id: i64,
    pub application_id: i64,
    pub client_id: String,
    pub client_secret: String,
    pub client_id_issued_at: Option<i64>,
    pub client_secret_expires_at: Option<i64>,
    pub client_name: String,
    pub client_uri: String,
    pub redirect_uris: Vec<String>,
    pub client_type: ClientType,
    pub profile: ClientProfile,
    pub token_endpoint_auth_method: TokenEndpointAuthMethod,
    pub allowed_grant_types: Vec<GrantType>,
    pub response_types: Vec<ResponseType>,
    pub allowed_scopes: Vec<String>,
    pub logo_uri: Option<String>,
    pub contacts: Vec<String>,
    pub terms_of_service_uri: Option<String>,
    pub policy_uri: Option<String>,
    pub software_statement: Option<String>,
    pub software_id: Option<String>,
    pub software_version: Option<String>,
    pub created_at: i64,
    pub updated_at: i64,
}

/// What registering a new client asks for.
#[derive(Clone, Debug)]
pub struct ClientRegistration {
    pub application_id: i64,
    pub client_id: Option<String>,
    pub client_secret: Option<String>,
    pub client_id_issued_at: Option<i64>,
    pub client_secret_expires_at: Option<i64>,
    pub client_name: String,
    pub client_uri: Option<String>,
    pub redirect_uris: Vec<String>,
    pub client_type: ClientType,
    pub profile: ClientProfile,
    pub token_endpoint_auth_method: TokenEndpointAuthMethod,
    pub allowed_grant_types: Vec<GrantType>,
    pub response_types: Vec<ResponseType>,
    pub allowed_scopes: Vec<String>,
    pub logo_uri: Option<String>,
    pub contacts: Vec<String>,
    pub terms_of_service_uri: Option<String>,
    pub policy_uri: Option<String>,
    pub software_statement: Option<String>,
    pub software_id: Option<String>,
    pub software_version: Option<String>,
}


/// The parameters of a private JSON Web Key. Key material is base64 text.
#[derive(Clone, Debug)]
pub enum JwkPrivateParameters {
    Ec { crv: String, x: String, y: String, d: String },
    Oct { k: String },
}

/// A private JSON Web Key.
#[derive(Clone, Debug)]
pub struct JwkPrivate {
    pub kid: i64,
    pub params: JwkPrivateParameters,
}

/// The parameters of a public JSON Web Key. Key material is base64 text.
#[derive(Clone, Debug)]
pub enum JwkPublicParameters {
    Ec { crv: String, x: String, y: String },
    Oct { k: String },
}

/// A public JSON Web Key.
#[derive(Clone, Debug)]
pub struct JwkPublic {
    pub kid: i64,
    pub params: JwkPublicParameters,
}


/// A user account.
#[derive(Clone, Debug)]
pub struct User {
    pub id: i64,
    pub name: String,
    pub given_name: Option<String>,
    pub family_name: Option<String>,
    pub middle_name: Option<String>,
    pub nickname: Option<String>,
    pub profile: Option<String>,
    pub picture: Option<String>,
    pub website: Option<String>,
    pub sex: Option<String>,
    pub birthdate: Option<String>,
    pub zoneinfo: Option<String>,
    pub locale: Option<String>,
    pub created_at: i64,
    pub updated_at: i64,
}

/// A key record: where an entity's key sits in the key derivation tree.
#[derive(Clone, Debug)]
pub struct Key {
    pub id: u32,
    pub parent_id: Option<u32>,
    pub entity_type: EntityType,
    pub entity_id: i64,
    pub derivation_path: String,
    pub name: String,
    pub hardened: bool,
    pub revoked_at: Option<i64>,
    pub expires_at: Option<i64>,
    pub created_at: i64,
    pub updated_at: i64,
}

/// An application registered with the identity provider; its clients, roles and
/// permissions belong to it.
#[derive(Clone, Debug)]
pub struct Application {
    pub id: i64,
    pub name: String,
    pub uri: String,
    pub description: Option<String>,
    pub created_at: i64,
    pub updated_at: i64,
}

/// A role of an application.
#[derive(Clone, Debug)]
pub struct Role {
    pub id: i64,
    pub application_id: i64,
    pub name: String,
    pub description: Option<String>,
    pub created_at: i64,
    pub updated_at: i64,
}

/// A permission of an application.
#[derive(Clone, Debug)]
pub struct Permission {
    pub id: i64,
    pub application_id: i64,
    pub name: String,
    pub description: Option<String>,
    pub created_at: i64,
    pub updated_at: i64,
}

impl EntityType {
    /// The name an entity type is shown with in key namespaces.
    pub open spec fn label(self) -> Seq<char> {
        match self {
            EntityType::User => "user"@,
            EntityType::Client => "client"@,
        }
    }

    pub fn as_str(&self) -> (r: &'static str)
        ensures
            r@ == self.label(),
    {
        match self {
            EntityType::User => "user",
            EntityType::Client => "client",
        }
    }
}

} // verus!
