//! Bringing a fresh installation to its baseline: the identity provider's own
//! applications and clients, the administrator, and the administrator's access.
//! The decisions are made here; the repository calls are made by the caller.

pub mod flow;
pub mod secret;

use std::sync::Arc;

use vstd::prelude::*;
use vstd::string::*;

use crate::model::{
    Client, ClientProfile, ClientRegistration, ClientType, GrantType, Permission, ResponseType,
    Role, TokenEndpointAuthMethod,
};
use crate::oauth2::scope::strs;
use crate::repo::key_service::KeyService;
use crate::text::str_eq;

verus! {

/// Where the baseline clients live and who the first administrator is.
#[derive(Clone, Debug)]
pub struct BootstrapConfig {
    pub lidp_url: String,
    pub lidp_management_url: String,
    pub admin_username: String,
    pub admin_email: String,
    pub admin_password: String,
}

impl Default for BootstrapConfig {
    fn default() -> (r: Self)
        ensures
            r.lidp_url@ == "https://lidp.localhost:1337"@,
            r.lidp_management_url@ == "https://lidp-management.localhost:1337"@,
            r.admin_username@ == "admin"@,
            r.admin_email@ == "admin@localhost"@,
            r.admin_password@ == "password"@,
    {
        BootstrapConfig {
            lidp_url: String::from_str("https://lidp.localhost:1337"),
            lidp_management_url: String::from_str("https://lidp-management.localhost:1337"),
            admin_username: String::from_str("admin"),
            admin_email: String::from_str("admin@localhost"),
            admin_password: String::from_str("password"),
        }
    }
}

/// The repositories and key service that bootstrapping works with, and its settings.
pub struct BootstrapService<A, C, K, U, R, P> {
    pub application_repo: A,
    pub client_repo: C,
    pub user_repo: U,
    pub role_repo: R,
    pub permission_repo: P,
    pub key_service: Arc<KeyService<K>>,
    pub config: BootstrapConfig,
}

impl<A, C, K, U, R, P> BootstrapService<A, C, K, U, R, P> {
    pub fn new(
        application_repo: A,
        client_repo: C,
        user_repo: U,
        role_repo: R,
        permission_repo: P,
        key_service: Arc<KeyService<K>>,
        config: BootstrapConfig,
    ) -> (r: Self)
        ensures
            r.application_repo == application_repo,
            r.client_repo == client_repo,
            r.user_repo == user_repo,
            r.role_repo == role_repo,
            r.permission_repo == permission_repo,
            r.key_service == key_service,
            r.config == config,
    {
        BootstrapService {
            application_repo,
            client_repo,
            user_repo,
            role_repo,
            permission_repo,
            key_service,
            config,
        }
    }
}

/// The name of the `i`-th baseline application: the identity provider itself, then its
/// management application.
pub open spec fn application_name(i: int) -> Seq<char> {
    if i == 0 {
        "Local IdP"@
    } else {
        "Local IdP Management"@
    }
}

/// The URI (the unique handle) of the `i`-th baseline application.
pub open spec fn application_uri(i: int) -> Seq<char> {
    if i == 0 {
        "lidp"@
    } else {
        "lidp-management"@
    }
}

/// The baseline application that the `j`-th baseline client belongs to: the first two
/// clients belong to the identity provider, the other two to its management application.
pub open spec fn client_application(j: int) -> int {
    if j < 2 {
        0
    } else {
        1
    }
}

/// The client id of the `j`-th baseline client.
pub open spec fn client_id_of(j: int) -> Seq<char> {
    if j == 0 {
        "lidp-web"@
    } else if j == 1 {
        "lidp-desktop"@
    } else if j == 2 {
        "lidp-management-web"@
    } else {
        "lidp-management-desktop"@
    }
}

/// The name of the `j`-th baseline client; its key bears the same name.
pub open spec fn client_name_of(j: int) -> Seq<char> {
    if j == 0 {
        "Local IdP Web"@
    } else if j == 1 {
        "Local IdP Desktop"@
    } else if j == 2 {
        "Local IdP Management Web"@
    } else {
        "Local IdP Management Desktop"@
    }
}

/// Where the `j`-th baseline client lives: the web clients where the settings say, the
/// desktop clients under their own URI schemes.
pub open spec fn client_uri_of(config: BootstrapConfig, j: int) -> Seq<char> {
    if j == 0 {
        config.lidp_url@
    } else if j == 1 {
        "lidp://app"@
    } else if j == 2 {
        config.lidp_management_url@
    } else {
        "lidp-management://app"@
    }
}

/// The profile of the `j`-th baseline client.
pub open spec fn client_profile_of(j: int) -> ClientProfile {
    if j == 0 || j == 2 {
        ClientProfile::Web
    } else {
        ClientProfile::Native
    }
}

pub(crate) fn baseline_application_name(i: usize) -> (r: String)
    ensures
        r@ == application_name(i as int),
{
    if i == 0 {
        String::from_str("Local IdP")
    } else {
        String::from_str("Local IdP Management")
    }
}

pub(crate) fn baseline_application_uri(i: usize) -> (r: String)
    ensures
        r@ == application_uri(i as int),
{
    if i == 0 {
        String::from_str("lidp")
    } else {
        String::from_str("lidp-management")
    }
}

pub(crate) fn baseline_client_application(j: usize) -> (r: usize)
    ensures
        r == client_application(j as int),
{
    if j < 2 {
        0
    } else {
        1
    }
}

pub(crate) fn baseline_client_id(j: usize) -> (r: String)
    ensures
        r@ == client_id_of(j as int),
{
    if j == 0 {
        String::from_str("lidp-web")
    } else if j == 1 {
        String::from_str("lidp-desktop")
    } else if j == 2 {
        String::from_str("lidp-management-web")
    } else {
        String::from_str("lidp-management-desktop")
    }
}

pub(crate) fn baseline_client_name(j: usize) -> (r: String)
    ensures
        r@ == client_name_of(j as int),
{
    if j == 0 {
        String::from_str("Local IdP Web")
    } else if j == 1 {
        String::from_str("Local IdP Desktop")
    } else if j == 2 {
        String::from_str("Local IdP Management Web")
    } else {
        String::from_str("Local IdP Management Desktop")
    }
}

pub(crate) fn baseline_client_uri(config: &BootstrapConfig, j: usize) -> (r: String)
    ensures
        r@ == client_uri_of(*config, j as int),
{
    if j == 0 {
        config.lidp_url.clone()
    } else if j == 1 {
        String::from_str("lidp://app")
    } else if j == 2 {
        config.lidp_management_url.clone()
    } else {
        String::from_str("lidp-management://app")
    }
}

pub(crate) fn baseline_client_profile(j: usize) -> (r: ClientProfile)
    ensures
        r == client_profile_of(j as int),
{
    if j == 0 || j == 2 {
        ClientProfile::Web
    } else {
        ClientProfile::Native
    }
}

/// The scopes every baseline client may ask for.
pub open spec fn baseline_scopes() -> Seq<Seq<char>> {
    seq!["openid"@, "profile"@, "address"@, "offline"@, "email"@, "phone"@]
}

/// The redirect URIs of a baseline client living at `client_uri`.
pub open spec fn baseline_redirect_uris(client_uri: Seq<char>) -> Seq<Seq<char>> {
    seq![client_uri + "/callback"@]
}

fn baseline_scope_list() -> (r: Vec<String>)
    ensures
        strs(r@) == baseline_scopes(),
{
    let r = vec![
        String::from_str("openid"),
        String::from_str("profile"),
        String::from_str("address"),
        String::from_str("offline"),
        String::from_str("email"),
        String::from_str("phone"),
    ];
    assert(strs(r@) =~= baseline_scopes());
    r
}

fn redirect_uri_list(client_uri: &str) -> (r: Vec<String>)
    ensures
        strs(r@) == baseline_redirect_uris(client_uri@),
{
    let mut u = String::from_str(client_uri);
    u.append("/callback");
    let r = vec![u];
    assert(strs(r@) =~= baseline_redirect_uris(client_uri@));
    r
}

/// Whether two lists of strings hold the same texts in the same order.
pub fn strings_equal(a: &Vec<String>, b: &Vec<String>) -> (r: bool)
    ensures
        r == (strs(a@) == strs(b@)),
{
    if a.len() != b.len() {
        return false;
    }
    let mut i: usize = 0;
    while i < a.len()
        invariant
            a@.len() == b@.len(),
            i <= a@.len(),
            forall|k: int| 0 <= k < i ==> a@[k]@ == b@[k]@,
        decreases a.len() - i,
    {
        if a[i] != b[i] {
            assert(strs(a@)[i as int] != strs(b@)[i as int]);
            return false;
        }
        i = i + 1;
    }
    assert(strs(a@) =~= strs(b@));
    true
}

/// What ensuring a baseline client does with the client found under its id.
pub enum ClientPlan {
    /// The stored client already matches: keep it.
    Keep(Client),
    /// The stored client differs: store this corrected client.
    Update(Client),
    /// No client is stored under the id: register this one.
    Create(ClientRegistration),
}

/// Whether a stored client differs from what the baseline expects of it.
pub open spec fn client_differs(
    c: Client,
    application_id: i64,
    client_name: Seq<char>,
    client_uri: Seq<char>,
    profile: ClientProfile,
) -> bool {
    ||| c.application_id != application_id
    ||| c.client_name@ != client_name
    ||| c.client_uri@ != client_uri
    ||| strs(c.allowed_scopes@) != baseline_scopes()
    ||| c.profile != profile
    ||| strs(c.redirect_uris@) != baseline_redirect_uris(client_uri)
}

/// Whether `u` is `c` with the baseline's expectations applied, and nothing else changed.
pub open spec fn corrected_client(
    u: Client,
    c: Client,
    application_id: i64,
    client_name: Seq<char>,
    client_uri: Seq<char>,
    profile: ClientProfile,
) -> bool {
    &&& u.application_id == application_id
    &&& u.client_name@ == client_name
    &&& u.client_uri@ == client_uri
    &&& strs(u.allowed_scopes@) == baseline_scopes()
    &&& u.profile == profile
    &&& strs(u.redirect_uris@) == baseline_redirect_uris(client_uri)
    &&& u.id == c.id
    &&& u.client_id == c.client_id
    &&& u.client_secret == c.client_secret
    &&& u.client_id_issued_at == c.client_id_issued_at
    &&& u.client_secret_expires_at == c.client_secret_expires_at
    &&& u.client_type == c.client_type
    &&& u.token_endpoint_auth_method == c.token_endpoint_auth_method
    &&& u.allowed_grant_types == c.allowed_grant_types
    &&& u.response_types == c.response_types
    &&& u.logo_uri == c.logo_uri
    &&& u.contacts == c.contacts
    &&& u.terms_of_service_uri == c.terms_of_service_uri
    &&& u.policy_uri == c.policy_uri
    &&& u.software_statement == c.software_statement
    &&& u.software_id == c.software_id
    &&& u.software_version == c.software_version
    &&& u.created_at == c.created_at
    &&& u.updated_at == c.updated_at
}

/// Whether `r` registers the baseline client: a public client without client
/// authentication, using the code flow with every grant the identity provider serves.
pub open spec fn baseline_registration(
    r: ClientRegistration,
    application_id: i64,
    client_id: Seq<char>,
    client_name: Seq<char>,
    client_uri: Seq<char>,
    profile: ClientProfile,
    secret: Seq<char>,
) -> bool {
    &&& r.application_id == application_id
    &&& r.client_id matches Some(id) && id@ == client_id
    &&& r.client_secret matches Some(s) && s@ == secret
    &&& r.client_id_issued_at is None
    &&& r.client_secret_expires_at is None
    &&& r.client_name@ == client_name
    &&& r.client_uri matches Some(u) && u@ == client_uri
    &&& strs(r.redirect_uris@) == baseline_redirect_uris(client_uri)
    &&& r.client_type == ClientType::Public
    &&& r.profile == profile
    &&& r.token_endpoint_auth_method == TokenEndpointAuthMethod::NoAuthentication
    &&& r.allowed_grant_types@ == seq![
        GrantType::Password,
        GrantType::ClientCredentials,
        GrantType::AuthorizationCode,
        GrantType::RefreshToken,
    ]
    &&& r.response_types@ == seq![ResponseType::Code]
    &&& strs(r.allowed_scopes@) == baseline_scopes()
    &&& r.logo_uri is None
    &&& r.contacts@.len() == 0
    &&& r.terms_of_service_uri is None
    &&& r.policy_uri is None
    &&& r.software_statement is None
    &&& r.software_id is None
    &&& r.software_version is None
}

/// The plan for the client stored under the baseline client's id (`existing`): keep one
/// that matches, correct one that differs, register a missing one.
pub open spec fn client_plan(
    existing: Option<Client>,
    application_id: i64,
    client_id: Seq<char>,
    client_name: Seq<char>,
    client_uri: Seq<char>,
    profile: ClientProfile,
    new_secret: Seq<char>,
    r: ClientPlan,
) -> bool {
    match existing {
        Some(c) => if client_differs(c, application_id, client_name, client_uri, profile) {
            r matches ClientPlan::Update(u) && corrected_client(u, c, application_id, client_name, client_uri, profile)
        } else {
            r matches ClientPlan::Keep(k) && k == c
        },
        None => r matches ClientPlan::Create(reg) && baseline_registration(
            reg,
            application_id,
            client_id,
            client_name,
            client_uri,
            profile,
            new_secret,
        ),
    }
}

/// Whether a client holds what the baseline asks of it: its application, name and URI, the
/// scopes `openid profile address offline email phone`, its profile, and as its only
/// redirect URI its URI followed by `/callback`.
pub open spec fn holds_baseline(
    application: i64,
    name: Seq<char>,
    uri: Seq<char>,
    scopes: Seq<Seq<char>>,
    client_profile: ClientProfile,
    redirects: Seq<Seq<char>>,
    application_id: i64,
    client_name: Seq<char>,
    client_uri: Seq<char>,
    profile: ClientProfile,
) -> bool {
    &&& application == application_id
    &&& name == client_name
    &&& uri == client_uri
    &&& scopes == seq!["openid"@, "profile"@, "address"@, "offline"@, "email"@, "phone"@]
    &&& client_profile == profile
    &&& redirects == seq![client_uri + "/callback"@]
}

/// Whatever the plan, the client that results holds the baseline: a kept client already
/// does (so a stale field is never kept), a corrected one is made to and keeps its identity
/// and secret, and a registered one is registered with it. A client is registered exactly
/// when none is stored, and one that already holds the baseline is kept as it is.
pub proof fn law_planned_clients_hold_the_baseline(
    existing: Option<Client>,
    application_id: i64,
    client_id: Seq<char>,
    client_name: Seq<char>,
    client_uri: Seq<char>,
    profile: ClientProfile,
    new_secret: Seq<char>,
    r: ClientPlan,
)
    requires
        client_plan(existing, application_id, client_id, client_name, client_uri, profile, new_secret, r),
    ensures
        existing is None <==> r is Create,
        existing matches Some(c) ==> (holds_baseline(
            c.application_id,
            c.client_name@,
            c.client_uri@,
            strs(c.allowed_scopes@),
            c.profile,
            strs(c.redirect_uris@),
            application_id,
            client_name,
            client_uri,
            profile,
        ) ==> r == ClientPlan::Keep(c)),
        r matches ClientPlan::Keep(k) ==> existing == Some(k) && holds_baseline(
            k.application_id,
            k.client_name@,
            k.client_uri@,
            strs(k.allowed_scopes@),
            k.profile,
            strs(k.redirect_uris@),
            application_id,
            client_name,
            client_uri,
            profile,
        ),
        r matches ClientPlan::Update(u) ==> existing matches Some(c) && u.id == c.id && u.client_id
            == c.client_id && u.client_secret == c.client_secret && holds_baseline(
            u.application_id,
            u.client_name@,
            u.client_uri@,
            strs(u.allowed_scopes@),
            u.profile,
            strs(u.redirect_uris@),
            application_id,
            client_name,
            client_uri,
            profile,
        ) && !holds_baseline(
            c.application_id,
            c.client_name@,
            c.client_uri@,
            strs(c.allowed_scopes@),
            c.profile,
            strs(c.redirect_uris@),
            application_id,
            client_name,
            client_uri,
            profile,
        ),
        r matches ClientPlan::Create(reg) ==> reg.client_id == Some(reg.client_id->0) && reg.client_id->0@
            == client_id && reg.client_secret is Some && reg.client_secret->0@ == new_secret
            && reg.client_type == ClientType::Public && (reg.client_uri matches Some(u) && u@
            == client_uri) && holds_baseline(
            reg.application_id,
            reg.client_name@,
            client_uri,
            strs(reg.allowed_scopes@),
            reg.profile,
            strs(reg.redirect_uris@),
            application_id,
            client_name,
            client_uri,
            profile,
        ),
{
    reveal_strlit("/callback");
}

/// Decides what to do to make the client stored under `client_id` (if any) match the
/// baseline: keep it, correct it, or register it with `new_secret` as its secret.
pub fn plan_client(
    existing: Option<Client>,
    application_id: i64,
    client_id: String,
    client_name: String,
    client_uri: String,
    profile: ClientProfile,
    new_secret: String,
) -> (r: ClientPlan)
    ensures
        client_plan(existing, application_id, client_id@, client_name@, client_uri@, profile, new_secret@, r),
{
    let expected_scopes = baseline_scope_list();
    let redirect_uris = redirect_uri_list(client_uri.as_str());
    match existing {
        Some(mut client) => {
            let ghost original = client;
            let mut changed = false;
            if client.application_id != application_id {
                client.application_id = application_id;
                changed = true;
            }
            if !str_eq(client.client_name.as_str(), client_name.as_str()) {
                client.client_name = client_name;
                changed = true;
            }
            if !str_eq(client.client_uri.as_str(), client_uri.as_str()) {
                client.client_uri = client_uri.clone();
                changed = true;
            }
            if !strings_equal(&client.allowed_scopes, &expected_scopes) {
                client.allowed_scopes = expected_scopes;
                changed = true;
            }
            if client.profile != profile {
                client.profile = profile;
                changed = true;
            }
            if !strings_equal(&client.redirect_uris, &redirect_uris) {
                client.redirect_uris = redirect_uris;
                changed = true;
            }
            assert(changed == client_differs(original, application_id, client_name@, client_uri@, profile));
            if changed {
                assert(corrected_client(client, original, application_id, client_name@, client_uri@, profile));
                ClientPlan::Update(client)
            } else {
                assert(client == original);
                ClientPlan::Keep(client)
            }
        },
        None => {
            let allowed_grant_types = vec![
                GrantType::Password,
                GrantType::ClientCredentials,
                GrantType::AuthorizationCode,
                GrantType::RefreshToken,
            ];
            let response_types = vec![ResponseType::Code];
            assert(allowed_grant_types@ =~= seq![
                GrantType::Password,
                GrantType::ClientCredentials,
                GrantType::AuthorizationCode,
                GrantType::RefreshToken,
            ]);
            assert(response_types@ =~= seq![ResponseType::Code]);
            ClientPlan::Create(ClientRegistration {
            application_id,
            client_id: Some(client_id),
            client_secret: Some(new_secret),
            client_id_issued_at: None,
            client_secret_expires_at: None,
            client_name,
            client_uri: Some(client_uri),
            redirect_uris,
            client_type: ClientType::Public,
            profile,
            token_endpoint_auth_method: TokenEndpointAuthMethod::NoAuthentication,
            allowed_grant_types,
            response_types,
            allowed_scopes: expected_scopes,
            logo_uri: None,
            contacts: Vec::new(),
            terms_of_service_uri: None,
            policy_uri: None,
            software_statement: None,
            software_id: None,
            software_version: None,
        })
        },
    }
}

/// The first role named `name`, if any.
pub fn find_role_by_name(roles: &Vec<Role>, name: &str) -> (r: Option<usize>)
    ensures
        match r {
            Some(i) => i < roles@.len() && roles@[i as int].name@ == name@ && forall|k: int|
                0 <= k < i ==> roles@[k].name@ != name@,
            None => forall|k: int| 0 <= k < roles@.len() ==> roles@[k].name@ != name@,
        },
{
    let mut i: usize = 0;
    while i < roles.len()
        invariant
            i <= roles@.len(),
            forall|k: int| 0 <= k < i ==> roles@[k].name@ != name@,
        decreases roles.len() - i,
    {
        if str_eq(roles[i].name.as_str(), name) {
            return Some(i);
        }
        i = i + 1;
    }
    None
}

/// The first permission named `name`, if any.
pub fn find_permission_by_name(permissions: &Vec<Permission>, name: &str) -> (r: Option<usize>)
    ensures
        match r {
            Some(i) => i < permissions@.len() && permissions@[i as int].name@ == name@ && forall|k: int|
                0 <= k < i ==> permissions@[k].name@ != name@,
            None => forall|k: int| 0 <= k < permissions@.len() ==> permissions@[k].name@ != name@,
        },
{
    let mut i: usize = 0;
    while i < permissions.len()
        invariant
            i <= permissions@.len(),
            forall|k: int| 0 <= k < i ==> permissions@[k].name@ != name@,
        decreases permissions.len() - i,
    {
        if str_eq(permissions[i].name.as_str(), name) {
            return Some(i);
        }
        i = i + 1;
    }
    None
}

/// Whether some role has the id `role_id`.
pub fn has_role_id(roles: &Vec<Role>, role_id: i64) -> (r: bool)
    ensures
        r == exists|k: int| 0 <= k < roles@.len() && roles@[k].id == role_id,
{
    let mut i: usize = 0;
    while i < roles.len()
        invariant
            i <= roles@.len(),
            forall|k: int| 0 <= k < i ==> roles@[k].id != role_id,
        decreases roles.len() - i,
    {
        if roles[i].id == role_id {
            return true;
        }
        i = i + 1;
    }
    false
}

/// Whether some permission has the id `permission_id`.
pub fn has_permission_id(permissions: &Vec<Permission>, permission_id: i64) -> (r: bool)
    ensures
        r == exists|k: int| 0 <= k < permissions@.len() && permissions@[k].id == permission_id,
{
    let mut i: usize = 0;
    while i < permissions.len()
        invariant
            i <= permissions@.len(),
            forall|k: int| 0 <= k < i ==> permissions@[k].id != permission_id,
        decreases permissions.len() - i,
    {
        if permissions[i].id == permission_id {
            return true;
        }
        i = i + 1;
    }
    false
}

} // verus!
