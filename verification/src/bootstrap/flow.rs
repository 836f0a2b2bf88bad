//! The order in which the baseline is ensured, as a state machine. Each step takes what the
//! last repository call answered and names the call to make next; the caller makes it.
//!
//! The order is: the identity provider's application, its web and desktop clients (each
//! followed by its active key), the management application and its two clients, the
//! administrator, the administrator's `admin` role with the `*` permission in the
//! management application, and last the administrator's key.
//!
//! Ensuring an entity's active key: its master key is ensured under the entity's key
//! namespace, its active root key is looked up (and created, hardened, where there is
//! none), and the root key's derivation path is ensured in the keyring.

use vstd::prelude::*;
use vstd::string::*;

use crate::bootstrap::{
    application_name, application_uri, baseline_application_name, baseline_application_uri,
    baseline_client_application, baseline_client_id, baseline_client_name,
    baseline_client_profile, baseline_client_uri, baseline_registration, client_application,
    client_differs, client_id_of, client_name_of, client_profile_of, client_uri_of,
    corrected_client, find_permission_by_name, find_role_by_name, has_permission_id,
    has_role_id, plan_client, BootstrapConfig, ClientPlan,
};
use crate::bootstrap::BootstrapService;
use crate::model::{Application, Client, ClientRegistration, EntityType, Key, Permission, Role, User};
use crate::repo::key_service::scoped_name;

verus! {

/// The repository call that bootstrapping waits on.
#[derive(Clone, Copy, Debug, PartialEq, Eq, Structural)]
pub enum Stage {
    /// Nothing has been asked yet.
    Start,
    /// The lookup of the baseline application with this index.
    FindingApplication(usize),
    /// The creation of the baseline application with this index.
    CreatingApplication(usize),
    /// The lookup of the baseline client with this index.
    FindingClient(usize),
    /// The storing (creation or correction) of the baseline client with this index.
    StoringClient(usize),
    /// A step of ensuring the active key of the baseline client with this index.
    ClientKey(usize, KeyStep),
    /// The lookup of the administrator by email.
    FindingAdmin,
    /// The creation of the administrator.
    CreatingAdmin,
    /// The list of the management application's roles.
    ListingRoles,
    /// The creation of the `admin` role.
    CreatingRole,
    /// The list of the management application's permissions.
    ListingPermissions,
    /// The creation of the `*` permission.
    CreatingPermission,
    /// The list of the `admin` role's permissions.
    ListingRolePermissions,
    /// Granting the `*` permission to the `admin` role.
    AddingPermission,
    /// The list of the administrator's roles.
    ListingUserRoles,
    /// Granting the `admin` role to the administrator.
    AddingRole,
    /// A step of ensuring the administrator's active key.
    AdminKey(KeyStep),
    /// Everything is in place.
    Done,
}

/// The call of ensuring an active key that bootstrapping waits on.
#[derive(Clone, Copy, Debug, PartialEq, Eq, Structural)]
pub enum KeyStep {
    /// The master key under the entity's key namespace.
    MasterKey,
    /// The lookup of the entity's active root key.
    RootKey,
    /// The found root key's derivation path in the keyring.
    DerivationPath,
    /// The creation of a new root key.
    Creating,
}

/// What bootstrapping has learnt so far.
pub struct BootstrapState {
    pub stage: Stage,
    /// The baseline applications ensured so far, in order.
    pub applications: Vec<Application>,
    /// The administrator's id, once known.
    pub admin_id: i64,
    /// The `admin` role's id, once known.
    pub role_id: i64,
    /// The `*` permission's id, once known.
    pub permission_id: i64,
    /// The entity whose key is being ensured.
    pub key_owner: i64,
    /// The passphrase of that entity's master key.
    pub key_secret: String,
}

/// What a repository call answered.
pub enum BootstrapEvent {
    Started,
    ApplicationFound(Option<Application>),
    ApplicationCreated(Application),
    /// The client found under the client id, if any, and a fresh random secret for the
    /// case that one has to be registered.
    ClientFound { existing: Option<Client>, new_secret: String },
    ClientStored(Client),
    MasterKeyEnsured,
    RootKeyFound(Option<Key>),
    DerivationPathEnsured,
    KeyCreated(Key),
    AdminFound(Option<User>),
    AdminCreated(User),
    RolesListed(Vec<Role>),
    RoleCreated(Role),
    PermissionsListed(Vec<Permission>),
    PermissionCreated(Permission),
    RolePermissionsListed(Vec<Permission>),
    PermissionAdded,
    UserRolesListed(Vec<Role>),
    RoleAdded,
}

/// The repository call to make next. Roles and permissions are addressed by the
/// management application's URI.
pub enum BootstrapAction {
    FindApplication { uri: String },
    CreateApplication { name: String, uri: String },
    FindClient { client_id: String },
    UpdateClient { client: Client },
    CreateClient { registration: ClientRegistration },
    EnsureMasterKey { namespace: String, passphrase: String },
    FindActiveRootKey { entity_type: EntityType, entity_id: i64 },
    EnsureDerivationPath { namespace: String, derivation_path: String },
    CreateKey {
        parent_id: Option<u32>,
        entity_type: EntityType,
        entity_id: i64,
        hardened: bool,
        name: String,
    },
    FindAdmin { identifier: String },
    CreateAdmin { username: String, email: String, password: String },
    ListRoles { application: String, offset: u32, limit: u32 },
    CreateRole { application: String, name: String, description: Option<String> },
    ListPermissions { application: String, offset: u32, limit: u32 },
    CreatePermission { application: String, name: String, description: Option<String> },
    ListRolePermissions { application: String, role_id: i64 },
    AddPermissionToRole { application: String, role_id: i64, permission_id: i64 },
    ListUserRoles { application: String, user_id: i64 },
    AddRoleToUser { application: String, user_id: i64, role_id: i64 },
    Finish,
}

/// How many roles or permissions one listing asks for.
pub const LISTING_LIMIT: u32 = 1000;

pub open spec fn admin_role_description() -> Seq<char> {
    "Administrative role with full management permissions"@
}

pub open spec fn catch_all_description() -> Seq<char> {
    "Catch-all permission for all management actions"@
}

/// Whether the state is one that bootstrapping can be in: it holds exactly the baseline
/// applications that come before its stage.
pub open spec fn well_formed(s: BootstrapState) -> bool {
    let n = s.applications@.len();
    match s.stage {
        Stage::Start => n == 0,
        Stage::FindingApplication(i) => i < 2 && n == i,
        Stage::CreatingApplication(i) => i < 2 && n == i,
        Stage::FindingClient(j) => j < 4 && n == client_application(j as int) + 1,
        Stage::StoringClient(j) => j < 4 && n == client_application(j as int) + 1,
        Stage::ClientKey(j, _) => j < 4 && n == client_application(j as int) + 1,
        _ => n == 2,
    }
}

/// Whether the event answers the call of a key step.
pub open spec fn answers_key_step(step: KeyStep, e: BootstrapEvent) -> bool {
    match step {
        KeyStep::MasterKey => e is MasterKeyEnsured,
        KeyStep::RootKey => e is RootKeyFound,
        KeyStep::DerivationPath => e is DerivationPathEnsured,
        KeyStep::Creating => e is KeyCreated,
    }
}

/// Whether the event answers the call that the stage waits on.
pub open spec fn answers(stage: Stage, e: BootstrapEvent) -> bool {
    match stage {
        Stage::Start => e is Started,
        Stage::FindingApplication(_) => e is ApplicationFound,
        Stage::CreatingApplication(_) => e is ApplicationCreated,
        Stage::FindingClient(_) => e is ClientFound,
        Stage::StoringClient(_) => e is ClientStored,
        Stage::ClientKey(_, step) => answers_key_step(step, e),
        Stage::FindingAdmin => e is AdminFound,
        Stage::CreatingAdmin => e is AdminCreated,
        Stage::ListingRoles => e is RolesListed,
        Stage::CreatingRole => e is RoleCreated,
        Stage::ListingPermissions => e is PermissionsListed,
        Stage::CreatingPermission => e is PermissionCreated,
        Stage::ListingRolePermissions => e is RolePermissionsListed,
        Stage::AddingPermission => e is PermissionAdded,
        Stage::ListingUserRoles => e is UserRolesListed,
        Stage::AddingRole => e is RoleAdded,
        Stage::AdminKey(step) => answers_key_step(step, e),
        Stage::Done => false,
    }
}

/// The management application's URI, as the state holds it.
pub open spec fn management_uri(s: BootstrapState) -> Seq<char> {
    s.applications@[1].uri@
}

/// The key call of a key step whose call depends on the state alone: the master key
/// under the owner's namespace (`ns` is the key service's namespace), the lookup of the
/// owner's active root key, or the creation of a hardened root key named `name`.
pub open spec fn key_call(
    ns: Seq<char>,
    s: BootstrapState,
    step: KeyStep,
    entity_type: EntityType,
    name: Seq<char>,
    a: BootstrapAction,
) -> bool {
    match step {
        KeyStep::MasterKey => a matches BootstrapAction::EnsureMasterKey { namespace, passphrase }
            && namespace@ == scoped_name(ns, entity_type, s.key_owner as int)
            && passphrase@ == s.key_secret@,
        KeyStep::RootKey => a matches BootstrapAction::FindActiveRootKey { entity_type: t, entity_id }
            && t == entity_type && entity_id == s.key_owner,
        KeyStep::Creating => a matches BootstrapAction::CreateKey { parent_id, entity_type: t, entity_id, hardened, name: n }
            && parent_id is None && t == entity_type && entity_id == s.key_owner && hardened
            && n@ == name,
        KeyStep::DerivationPath => false,
    }
}

/// The call that opens the state's stage, where it depends on the state alone.
pub open spec fn opening_call(config: BootstrapConfig, ns: Seq<char>, s: BootstrapState, a: BootstrapAction) -> bool {
    match s.stage {
        Stage::FindingApplication(i) => a matches BootstrapAction::FindApplication { uri }
            && uri@ == application_uri(i as int),
        Stage::CreatingApplication(i) => a matches BootstrapAction::CreateApplication { name, uri }
            && name@ == application_name(i as int) && uri@ == application_uri(i as int),
        Stage::FindingClient(j) => a matches BootstrapAction::FindClient { client_id }
            && client_id@ == client_id_of(j as int),
        Stage::ClientKey(j, step) => key_call(ns, s, step, EntityType::Client, client_name_of(j as int), a),
        Stage::FindingAdmin => a matches BootstrapAction::FindAdmin { identifier }
            && identifier@ == config.admin_email@,
        Stage::CreatingAdmin => a matches BootstrapAction::CreateAdmin { username, email, password }
            && username@ == config.admin_username@ && email@ == config.admin_email@
            && password@ == config.admin_password@,
        Stage::ListingRoles => a matches BootstrapAction::ListRoles { application, offset, limit }
            && application@ == management_uri(s) && offset == 0 && limit == LISTING_LIMIT,
        Stage::CreatingRole => a matches BootstrapAction::CreateRole { application, name, description }
            && application@ == management_uri(s) && name@ == "admin"@
            && (description matches Some(d) && d@ == admin_role_description()),
        Stage::ListingPermissions => a matches BootstrapAction::ListPermissions { application, offset, limit }
            && application@ == management_uri(s) && offset == 0 && limit == LISTING_LIMIT,
        Stage::CreatingPermission => a matches BootstrapAction::CreatePermission { application, name, description }
            && application@ == management_uri(s) && name@ == "*"@
            && (description matches Some(d) && d@ == catch_all_description()),
        Stage::ListingRolePermissions => a matches BootstrapAction::ListRolePermissions { application, role_id }
            && application@ == management_uri(s) && role_id == s.role_id,
        Stage::AddingPermission => a matches BootstrapAction::AddPermissionToRole { application, role_id, permission_id }
            && application@ == management_uri(s) && role_id == s.role_id
            && permission_id == s.permission_id,
        Stage::ListingUserRoles => a matches BootstrapAction::ListUserRoles { application, user_id }
            && application@ == management_uri(s) && user_id == s.admin_id,
        Stage::AddingRole => a matches BootstrapAction::AddRoleToUser { application, user_id, role_id }
            && application@ == management_uri(s) && user_id == s.admin_id && role_id == s.role_id,
        Stage::AdminKey(step) => key_call(ns, s, step, EntityType::User, config.admin_username@, a),
        Stage::Done => a is Finish,
        _ => false,
    }
}

/// Whether `n` is `s` moved on to `stage`, with the ids given and the rest kept.
pub open spec fn moved(n: BootstrapState, s: BootstrapState, stage: Stage, admin_id: i64, role_id: i64, permission_id: i64) -> bool {
    &&& n.stage == stage
    &&& n.applications@ == s.applications@
    &&& n.admin_id == admin_id
    &&& n.role_id == role_id
    &&& n.permission_id == permission_id
    &&& n.key_owner == s.key_owner
    &&& n.key_secret@ == s.key_secret@
}

/// Whether `n` is `s` moved on to `stage`, with nothing else changed.
pub open spec fn kept(n: BootstrapState, s: BootstrapState, stage: Stage) -> bool {
    moved(n, s, stage, s.admin_id, s.role_id, s.permission_id)
}

/// Whether `n` is `s` moved on to the first key step of `stage`, for the key of the entity
/// `owner` whose master key is protected by `secret`.
pub open spec fn keying(n: BootstrapState, s: BootstrapState, stage: Stage, owner: i64, secret: Seq<char>) -> bool {
    &&& n.stage == stage
    &&& n.applications@ == s.applications@
    &&& n.admin_id == s.admin_id
    &&& n.role_id == s.role_id
    &&& n.permission_id == s.permission_id
    &&& n.key_owner == owner
    &&& n.key_secret@ == secret
}

/// What comes after the key of the baseline client `j`: the management application after
/// the identity provider's last client, the administrator after the last client.
pub open spec fn after_client(j: usize) -> Stage {
    if j == 1 {
        Stage::FindingApplication(1)
    } else if j == 3 {
        Stage::FindingAdmin
    } else {
        Stage::FindingClient((j + 1) as usize)
    }
}

/// The stage of a key step: of the key of the baseline client `j` (`Some(j)`) or of the
/// administrator's key (`None`).
pub open spec fn key_stage(client: Option<usize>, step: KeyStep) -> Stage {
    match client {
        Some(j) => Stage::ClientKey(j, step),
        None => Stage::AdminKey(step),
    }
}

/// The kind of entity whose key is ensured.
pub open spec fn key_entity(client: Option<usize>) -> EntityType {
    match client {
        Some(_) => EntityType::Client,
        None => EntityType::User,
    }
}

/// What follows the key once it is ensured.
pub open spec fn key_done(client: Option<usize>) -> Stage {
    match client {
        Some(j) => after_client(j),
        None => Stage::Done,
    }
}

/// The step from a key step's answer `e`: from the master key to the lookup of the root
/// key; from a found root key to its derivation path, from a missing one to a new key and
/// then to the new key's derivation path; from the derivation path to what follows the key.
pub open spec fn key_transition(
    config: BootstrapConfig,
    ns: Seq<char>,
    s: BootstrapState,
    client: Option<usize>,
    step: KeyStep,
    e: BootstrapEvent,
    n: BootstrapState,
    a: BootstrapAction,
) -> bool {
    match step {
        KeyStep::MasterKey => kept(n, s, key_stage(client, KeyStep::RootKey)) && opening_call(config, ns, n, a),
        KeyStep::RootKey => match e {
            BootstrapEvent::RootKeyFound(Some(key)) => path_call(ns, s, client, key, n, a),
            _ => kept(n, s, key_stage(client, KeyStep::Creating)) && opening_call(config, ns, n, a),
        },
        KeyStep::Creating => match e {
            BootstrapEvent::KeyCreated(key) => path_call(ns, s, client, key, n, a),
            _ => false,
        },
        KeyStep::DerivationPath => kept(n, s, key_done(client)) && opening_call(config, ns, n, a),
    }
}

/// The root key `key` is known (found or just created): its derivation path is ensured in
/// the keyring under the owner's namespace.
pub open spec fn path_call(
    ns: Seq<char>,
    s: BootstrapState,
    client: Option<usize>,
    key: Key,
    n: BootstrapState,
    a: BootstrapAction,
) -> bool {
    kept(n, s, key_stage(client, KeyStep::DerivationPath)) && (
    a matches BootstrapAction::EnsureDerivationPath { namespace, derivation_path }
        && namespace@ == scoped_name(ns, key_entity(client), s.key_owner as int)
        && derivation_path@ == key.derivation_path@)
}

pub open spec fn first_role_named(roles: Seq<Role>, name: Seq<char>, k: int) -> bool {
    &&& 0 <= k < roles.len()
    &&& roles[k].name@ == name
    &&& forall|m: int| 0 <= m < k ==> roles[m].name@ != name
}

pub open spec fn first_permission_named(permissions: Seq<Permission>, name: Seq<char>, k: int) -> bool {
    &&& 0 <= k < permissions.len()
    &&& permissions[k].name@ == name
    &&& forall|m: int| 0 <= m < k ==> permissions[m].name@ != name
}

/// The step from `s` on `e` to the state `n` with the call `a`, for a well-formed `s` and
/// an event that answers its stage; `ns` is the key service's namespace.
pub open spec fn transition(
    config: BootstrapConfig,
    ns: Seq<char>,
    s: BootstrapState,
    e: BootstrapEvent,
    n: BootstrapState,
    a: BootstrapAction,
) -> bool {
    match s.stage {
        Stage::Start => kept(n, s, Stage::FindingApplication(0)) && opening_call(config, ns, n, a),
        Stage::FindingApplication(i) => match e {
            BootstrapEvent::ApplicationFound(Some(app)) => application_ensured(config, ns, s, i, app, n, a),
            _ => kept(n, s, Stage::CreatingApplication(i)) && opening_call(config, ns, n, a),
        },
        Stage::CreatingApplication(i) => match e {
            BootstrapEvent::ApplicationCreated(app) => application_ensured(config, ns, s, i, app, n, a),
            _ => false,
        },
        Stage::FindingClient(j) => match e {
            BootstrapEvent::ClientFound { existing, new_secret } => client_found(
                config,
                ns,
                s,
                j,
                existing,
                new_secret@,
                n,
                a,
            ),
            _ => false,
        },
        Stage::StoringClient(j) => match e {
            BootstrapEvent::ClientStored(c) => keying(n, s, Stage::ClientKey(j, KeyStep::MasterKey), c.id, c.client_secret@)
                && opening_call(config, ns, n, a),
            _ => false,
        },
        Stage::ClientKey(j, step) => key_transition(config, ns, s, Some(j), step, e, n, a),
        Stage::FindingAdmin => match e {
            BootstrapEvent::AdminFound(Some(u)) => moved(n, s, Stage::ListingRoles, u.id, s.role_id, s.permission_id)
                && opening_call(config, ns, n, a),
            _ => kept(n, s, Stage::CreatingAdmin) && opening_call(config, ns, n, a),
        },
        Stage::CreatingAdmin => match e {
            BootstrapEvent::AdminCreated(u) => moved(n, s, Stage::ListingRoles, u.id, s.role_id, s.permission_id)
                && opening_call(config, ns, n, a),
            _ => false,
        },
        Stage::ListingRoles => match e {
            BootstrapEvent::RolesListed(roles) => if exists|k: int| 0 <= k < roles@.len() && roles@[k].name@ == "admin"@ {
                exists|k: int| #[trigger] first_role_named(roles@, "admin"@, k)
                    && moved(n, s, Stage::ListingPermissions, s.admin_id, roles@[k].id, s.permission_id)
                    && opening_call(config, ns, n, a)
            } else {
                kept(n, s, Stage::CreatingRole) && opening_call(config, ns, n, a)
            },
            _ => false,
        },
        Stage::CreatingRole => match e {
            BootstrapEvent::RoleCreated(r) => moved(n, s, Stage::ListingPermissions, s.admin_id, r.id, s.permission_id)
                && opening_call(config, ns, n, a),
            _ => false,
        },
        Stage::ListingPermissions => match e {
            BootstrapEvent::PermissionsListed(ps) => if exists|k: int| 0 <= k < ps@.len() && ps@[k].name@ == "*"@ {
                exists|k: int| #[trigger] first_permission_named(ps@, "*"@, k)
                    && moved(n, s, Stage::ListingRolePermissions, s.admin_id, s.role_id, ps@[k].id)
                    && opening_call(config, ns, n, a)
            } else {
                kept(n, s, Stage::CreatingPermission) && opening_call(config, ns, n, a)
            },
            _ => false,
        },
        Stage::CreatingPermission => match e {
            BootstrapEvent::PermissionCreated(p) => moved(n, s, Stage::ListingRolePermissions, s.admin_id, s.role_id, p.id)
                && opening_call(config, ns, n, a),
            _ => false,
        },
        Stage::ListingRolePermissions => match e {
            BootstrapEvent::RolePermissionsListed(ps) => if exists|k: int| 0 <= k < ps@.len() && ps@[k].id == s.permission_id {
                kept(n, s, Stage::ListingUserRoles) && opening_call(config, ns, n, a)
            } else {
                kept(n, s, Stage::AddingPermission) && opening_call(config, ns, n, a)
            },
            _ => false,
        },
        Stage::AddingPermission => kept(n, s, Stage::ListingUserRoles) && opening_call(config, ns, n, a),
        Stage::ListingUserRoles => match e {
            BootstrapEvent::UserRolesListed(rs) => if exists|k: int| 0 <= k < rs@.len() && rs@[k].id == s.role_id {
                admin_keying(config, ns, s, n, a)
            } else {
                kept(n, s, Stage::AddingRole) && opening_call(config, ns, n, a)
            },
            _ => false,
        },
        Stage::AddingRole => admin_keying(config, ns, s, n, a),
        Stage::AdminKey(step) => key_transition(config, ns, s, None, step, e, n, a),
        Stage::Done => false,
    }
}

/// The administrator's access is in place: ensuring the administrator's key begins, its
/// master key protected by the administrator's password.
pub open spec fn admin_keying(config: BootstrapConfig, ns: Seq<char>, s: BootstrapState, n: BootstrapState, a: BootstrapAction) -> bool {
    keying(n, s, Stage::AdminKey(KeyStep::MasterKey), s.admin_id, config.admin_password@)
        && opening_call(config, ns, n, a)
}

/// The baseline application `i` is now known as `app`: it joins the state and the first
/// of its clients is looked up.
pub open spec fn application_ensured(
    config: BootstrapConfig,
    ns: Seq<char>,
    s: BootstrapState,
    i: usize,
    app: Application,
    n: BootstrapState,
    a: BootstrapAction,
) -> bool {
    &&& n.stage == Stage::FindingClient((2 * i) as usize)
    &&& n.applications@ == s.applications@.push(app)
    &&& n.admin_id == s.admin_id
    &&& n.role_id == s.role_id
    &&& n.permission_id == s.permission_id
    &&& n.key_owner == s.key_owner
    &&& n.key_secret@ == s.key_secret@
    &&& opening_call(config, ns, n, a)
}

/// The lookup of the baseline client `j` answered `existing`: keep a client that matches
/// (and go on to its key), correct one that differs, register a missing one.
pub open spec fn client_found(
    config: BootstrapConfig,
    ns: Seq<char>,
    s: BootstrapState,
    j: usize,
    existing: Option<Client>,
    new_secret: Seq<char>,
    n: BootstrapState,
    a: BootstrapAction,
) -> bool {
    let application_id = s.applications@[client_application(j as int)].id;
    let name = client_name_of(j as int);
    let uri = client_uri_of(config, j as int);
    let profile = client_profile_of(j as int);
    match existing {
        Some(c) => if client_differs(c, application_id, name, uri, profile) {
            kept(n, s, Stage::StoringClient(j)) && (a matches BootstrapAction::UpdateClient { client }
                && corrected_client(client, c, application_id, name, uri, profile))
        } else {
            keying(n, s, Stage::ClientKey(j, KeyStep::MasterKey), c.id, c.client_secret@)
                && opening_call(config, ns, n, a)
        },
        None => kept(n, s, Stage::StoringClient(j)) && (a matches BootstrapAction::CreateClient {
            registration,
        } && baseline_registration(
            registration,
            application_id,
            client_id_of(j as int),
            name,
            uri,
            profile,
            new_secret,
        )),
    }
}

impl BootstrapState {
    /// The state before anything has been asked.
    pub fn new() -> (r: Self)
        ensures
            r.stage == Stage::Start,
            r.applications@.len() == 0,
            r.admin_id == 0,
            r.role_id == 0,
            r.permission_id == 0,
            r.key_owner == 0,
            r.key_secret@.len() == 0,
            well_formed(r),
    {
        BootstrapState {
            stage: Stage::Start,
            applications: Vec::new(),
            admin_id: 0,
            role_id: 0,
            permission_id: 0,
            key_owner: 0,
            key_secret: String::new(),
        }
    }
}

fn is_well_formed(s: &BootstrapState) -> (r: bool)
    ensures
        r == well_formed(*s),
{
    let n = s.applications.len();
    match s.stage {
        Stage::Start => n == 0,
        Stage::FindingApplication(i) => i < 2 && n == i,
        Stage::CreatingApplication(i) => i < 2 && n == i,
        Stage::FindingClient(j) => j < 4 && n == baseline_client_application(j) + 1,
        Stage::StoringClient(j) => j < 4 && n == baseline_client_application(j) + 1,
        Stage::ClientKey(j, _) => j < 4 && n == baseline_client_application(j) + 1,
        _ => n == 2,
    }
}

fn management_application(s: &BootstrapState) -> (r: String)
    requires
        s.applications@.len() == 2,
    ensures
        r@ == management_uri(*s),
{
    s.applications[1].uri.clone()
}

fn with_ids(s: BootstrapState, stage: Stage, admin_id: i64, role_id: i64, permission_id: i64) -> (r: BootstrapState)
    ensures
        moved(r, s, stage, admin_id, role_id, permission_id),
{
    BootstrapState {
        stage,
        applications: s.applications,
        admin_id,
        role_id,
        permission_id,
        key_owner: s.key_owner,
        key_secret: s.key_secret,
    }
}

fn with_stage(s: BootstrapState, stage: Stage) -> (r: BootstrapState)
    ensures
        kept(r, s, stage),
{
    let admin_id = s.admin_id;
    let role_id = s.role_id;
    let permission_id = s.permission_id;
    with_ids(s, stage, admin_id, role_id, permission_id)
}

fn with_key_owner(s: BootstrapState, stage: Stage, owner: i64, secret: String) -> (r: BootstrapState)
    ensures
        keying(r, s, stage, owner, secret@),
{
    BootstrapState {
        stage,
        applications: s.applications,
        admin_id: s.admin_id,
        role_id: s.role_id,
        permission_id: s.permission_id,
        key_owner: owner,
        key_secret: secret,
    }
}

fn stage_after_client(j: usize) -> (r: Stage)
    requires
        j < 4,
    ensures
        r == after_client(j),
{
    if j == 1 {
        Stage::FindingApplication(1)
    } else if j == 3 {
        Stage::FindingAdmin
    } else {
        Stage::FindingClient(j + 1)
    }
}

impl<A, C, K, U, R, P> BootstrapService<A, C, K, U, R, P> {
    /// The namespace under which the key service keeps keys.
    pub open spec fn key_namespace(&self) -> Seq<char> {
        self.key_service.namespace_text()
    }

    /// The key call of a key step that depends on the state alone.
    fn key_step_call(&self, s: &BootstrapState, step: KeyStep, entity_type: EntityType, name: String) -> (r: BootstrapAction)
        requires
            step != KeyStep::DerivationPath,
        ensures
            key_call(self.key_namespace(), *s, step, entity_type, name@, r),
    {
        match step {
            KeyStep::MasterKey => BootstrapAction::EnsureMasterKey {
                namespace: self.key_service.scoped_namespace(entity_type, s.key_owner),
                passphrase: s.key_secret.clone(),
            },
            KeyStep::RootKey => BootstrapAction::FindActiveRootKey { entity_type, entity_id: s.key_owner },
            _ => BootstrapAction::CreateKey {
                parent_id: None,
                entity_type,
                entity_id: s.key_owner,
                hardened: true,
                name,
            },
        }
    }

    /// The call that opens the stage of `s`.
    fn open_stage(&self, s: BootstrapState) -> (r: (BootstrapState, BootstrapAction))
        requires
            well_formed(s),
            !(s.stage is Start || s.stage is StoringClient),
            !(s.stage matches Stage::ClientKey(_, KeyStep::DerivationPath)),
            !(s.stage matches Stage::AdminKey(KeyStep::DerivationPath)),
        ensures
            r.0 == s,
            opening_call(self.config, self.key_namespace(), r.0, r.1),
    {
        let config = &self.config;
        let a = match s.stage {
            Stage::FindingApplication(i) => BootstrapAction::FindApplication { uri: baseline_application_uri(i) },
            Stage::CreatingApplication(i) => BootstrapAction::CreateApplication {
                name: baseline_application_name(i),
                uri: baseline_application_uri(i),
            },
            Stage::FindingClient(j) => BootstrapAction::FindClient { client_id: baseline_client_id(j) },
            Stage::ClientKey(j, step) => self.key_step_call(&s, step, EntityType::Client, baseline_client_name(j)),
            Stage::FindingAdmin => BootstrapAction::FindAdmin { identifier: config.admin_email.clone() },
            Stage::CreatingAdmin => BootstrapAction::CreateAdmin {
                username: config.admin_username.clone(),
                email: config.admin_email.clone(),
                password: config.admin_password.clone(),
            },
            Stage::ListingRoles => BootstrapAction::ListRoles {
                application: management_application(&s),
                offset: 0,
                limit: LISTING_LIMIT,
            },
            Stage::CreatingRole => BootstrapAction::CreateRole {
                application: management_application(&s),
                name: String::from_str("admin"),
                description: Some(String::from_str("Administrative role with full management permissions")),
            },
            Stage::ListingPermissions => BootstrapAction::ListPermissions {
                application: management_application(&s),
                offset: 0,
                limit: LISTING_LIMIT,
            },
            Stage::CreatingPermission => BootstrapAction::CreatePermission {
                application: management_application(&s),
                name: String::from_str("*"),
                description: Some(String::from_str("Catch-all permission for all management actions")),
            },
            Stage::ListingRolePermissions => BootstrapAction::ListRolePermissions {
                application: management_application(&s),
                role_id: s.role_id,
            },
            Stage::AddingPermission => BootstrapAction::AddPermissionToRole {
                application: management_application(&s),
                role_id: s.role_id,
                permission_id: s.permission_id,
            },
            Stage::ListingUserRoles => BootstrapAction::ListUserRoles {
                application: management_application(&s),
                user_id: s.admin_id,
            },
            Stage::AddingRole => BootstrapAction::AddRoleToUser {
                application: management_application(&s),
                user_id: s.admin_id,
                role_id: s.role_id,
            },
            Stage::AdminKey(step) => self.key_step_call(&s, step, EntityType::User, config.admin_username.clone()),
            _ => BootstrapAction::Finish,
        };
        (s, a)
    }

    fn application_known(&self, s: BootstrapState, i: usize, app: Application) -> (r: (BootstrapState, BootstrapAction))
        requires
            i < 2,
            s.applications@.len() == i,
        ensures
            application_ensured(self.config, self.key_namespace(), s, i, app, r.0, r.1),
            well_formed(r.0),
    {
        let mut applications = s.applications;
        applications.push(app);
        let n = BootstrapState {
            stage: Stage::FindingClient(2 * i),
            applications,
            admin_id: s.admin_id,
            role_id: s.role_id,
            permission_id: s.permission_id,
            key_owner: s.key_owner,
            key_secret: s.key_secret,
        };
        self.open_stage(n)
    }

    /// The derivation path of the owner's root key `key` is ensured next.
    fn path_step(&self, s: BootstrapState, client: Option<usize>, key: Key) -> (r: (BootstrapState, BootstrapAction))
        requires
            well_formed(s),
            client matches Some(j) ==> j < 4,
        ensures
            path_call(self.key_namespace(), s, client, key, r.0, r.1),
    {
        let entity_type = match client {
            Some(_) => EntityType::Client,
            None => EntityType::User,
        };
        let namespace = self.key_service.scoped_namespace(entity_type, s.key_owner);
        let n = with_stage(s, stage_of_key(client, KeyStep::DerivationPath));
        (n, BootstrapAction::EnsureDerivationPath { namespace, derivation_path: key.derivation_path })
    }

    /// The next call once `step` of a key (of the baseline client `client`, or of the
    /// administrator) is answered by `event`.
    fn key_step(&self, s: BootstrapState, client: Option<usize>, step: KeyStep, event: BootstrapEvent) -> (r: (
        BootstrapState,
        BootstrapAction,
    ))
        requires
            well_formed(s),
            answers_key_step(step, event),
            s.stage == key_stage(client, step),
        ensures
            key_transition(self.config, self.key_namespace(), s, client, step, event, r.0, r.1),
            well_formed(r.0),
    {
        match step {
            KeyStep::MasterKey => self.open_stage(with_stage(s, stage_of_key(client, KeyStep::RootKey))),
            KeyStep::RootKey | KeyStep::Creating => match event {
                BootstrapEvent::RootKeyFound(Some(key)) => self.path_step(s, client, key),
                BootstrapEvent::KeyCreated(key) => self.path_step(s, client, key),
                _ => self.open_stage(with_stage(s, stage_of_key(client, KeyStep::Creating))),
            },
            KeyStep::DerivationPath => {
                let after = match client {
                    Some(j) => stage_after_client(j),
                    None => Stage::Done,
                };
                self.open_stage(with_stage(s, after))
            },
        }
    }
}

fn answers_key_call(step: KeyStep, e: &BootstrapEvent) -> (r: bool)
    ensures
        r == answers_key_step(step, *e),
{
    match step {
        KeyStep::MasterKey => matches!(e, BootstrapEvent::MasterKeyEnsured),
        KeyStep::RootKey => matches!(e, BootstrapEvent::RootKeyFound(_)),
        KeyStep::DerivationPath => matches!(e, BootstrapEvent::DerivationPathEnsured),
        KeyStep::Creating => matches!(e, BootstrapEvent::KeyCreated(_)),
    }
}

fn stage_of_key(client: Option<usize>, step: KeyStep) -> (r: Stage)
    ensures
        r == key_stage(client, step),
{
    match client {
        Some(j) => Stage::ClientKey(j, step),
        None => Stage::AdminKey(step),
    }
}

impl<A, C, K, U, R, P> BootstrapService<A, C, K, U, R, P> {
    /// Takes the answer to the call that the state waits on and names the next call.
    /// Gives `None` where the state is not one that bootstrapping can be in, or where the
    /// event does not answer its stage.
    pub fn step(&self, state: BootstrapState, event: BootstrapEvent) -> (r: Option<(BootstrapState, BootstrapAction)>)
        ensures
            r is Some <==> well_formed(state) && answers(state.stage, event),
            r matches Some((n, a)) ==> well_formed(n) && transition(self.config, self.key_namespace(), state, event, n, a),
    {
        if !is_well_formed(&state) {
            return None;
        }
        match state.stage {
            Stage::Start => match event {
                BootstrapEvent::Started => Some(self.open_stage(with_stage(state, Stage::FindingApplication(0)))),
                _ => None,
            },
            Stage::FindingApplication(i) => match event {
                BootstrapEvent::ApplicationFound(Some(app)) => Some(self.application_known(state, i, app)),
                BootstrapEvent::ApplicationFound(None) => Some(
                    self.open_stage(with_stage(state, Stage::CreatingApplication(i))),
                ),
                _ => None,
            },
            Stage::CreatingApplication(i) => match event {
                BootstrapEvent::ApplicationCreated(app) => Some(self.application_known(state, i, app)),
                _ => None,
            },
            Stage::FindingClient(j) => match event {
                BootstrapEvent::ClientFound { existing, new_secret } => {
                    let application_id = state.applications[baseline_client_application(j)].id;
                    let plan = plan_client(
                        existing,
                        application_id,
                        baseline_client_id(j),
                        baseline_client_name(j),
                        baseline_client_uri(&self.config, j),
                        baseline_client_profile(j),
                        new_secret,
                    );
                    match plan {
                        ClientPlan::Keep(c) => {
                            let n = with_key_owner(state, Stage::ClientKey(j, KeyStep::MasterKey), c.id, c.client_secret);
                            Some(self.open_stage(n))
                        },
                        ClientPlan::Update(c) => Some(
                            (with_stage(state, Stage::StoringClient(j)), BootstrapAction::UpdateClient { client: c }),
                        ),
                        ClientPlan::Create(registration) => Some(
                            (
                                with_stage(state, Stage::StoringClient(j)),
                                BootstrapAction::CreateClient { registration },
                            ),
                        ),
                    }
                },
                _ => None,
            },
            Stage::StoringClient(j) => match event {
                BootstrapEvent::ClientStored(c) => {
                    let n = with_key_owner(state, Stage::ClientKey(j, KeyStep::MasterKey), c.id, c.client_secret);
                    Some(self.open_stage(n))
                },
                _ => None,
            },
            Stage::ClientKey(j, step) => {
                if answers_key_call(step, &event) {
                    Some(self.key_step(state, Some(j), step, event))
                } else {
                    None
                }
            },
            Stage::FindingAdmin => match event {
                BootstrapEvent::AdminFound(Some(u)) => {
                    let role_id = state.role_id;
                    let permission_id = state.permission_id;
                    Some(self.open_stage(with_ids(state, Stage::ListingRoles, u.id, role_id, permission_id)))
                },
                BootstrapEvent::AdminFound(None) => Some(self.open_stage(with_stage(state, Stage::CreatingAdmin))),
                _ => None,
            },
            Stage::CreatingAdmin => match event {
                BootstrapEvent::AdminCreated(u) => {
                    let role_id = state.role_id;
                    let permission_id = state.permission_id;
                    Some(self.open_stage(with_ids(state, Stage::ListingRoles, u.id, role_id, permission_id)))
                },
                _ => None,
            },
            Stage::ListingRoles => match event {
                BootstrapEvent::RolesListed(roles) => match find_role_by_name(&roles, "admin") {
                    Some(k) => {
                        let admin_id = state.admin_id;
                        let permission_id = state.permission_id;
                        let role_id = roles[k].id;
                        let n = with_ids(state, Stage::ListingPermissions, admin_id, role_id, permission_id);
                        let r = self.open_stage(n);
                        assert(first_role_named(roles@, "admin"@, k as int));
                        Some(r)
                    },
                    None => Some(self.open_stage(with_stage(state, Stage::CreatingRole))),
                },
                _ => None,
            },
            Stage::CreatingRole => match event {
                BootstrapEvent::RoleCreated(role) => {
                    let admin_id = state.admin_id;
                    let permission_id = state.permission_id;
                    Some(self.open_stage(with_ids(state, Stage::ListingPermissions, admin_id, role.id, permission_id)))
                },
                _ => None,
            },
            Stage::ListingPermissions => match event {
                BootstrapEvent::PermissionsListed(permissions) => match find_permission_by_name(&permissions, "*") {
                    Some(k) => {
                        let admin_id = state.admin_id;
                        let role_id = state.role_id;
                        let permission_id = permissions[k].id;
                        let n = with_ids(state, Stage::ListingRolePermissions, admin_id, role_id, permission_id);
                        let r = self.open_stage(n);
                        assert(first_permission_named(permissions@, "*"@, k as int));
                        Some(r)
                    },
                    None => Some(self.open_stage(with_stage(state, Stage::CreatingPermission))),
                },
                _ => None,
            },
            Stage::CreatingPermission => match event {
                BootstrapEvent::PermissionCreated(permission) => {
                    let admin_id = state.admin_id;
                    let role_id = state.role_id;
                    Some(
                        self.open_stage(
                            with_ids(state, Stage::ListingRolePermissions, admin_id, role_id, permission.id),
                        ),
                    )
                },
                _ => None,
            },
            Stage::ListingRolePermissions => match event {
                BootstrapEvent::RolePermissionsListed(permissions) => {
                    if has_permission_id(&permissions, state.permission_id) {
                        Some(self.open_stage(with_stage(state, Stage::ListingUserRoles)))
                    } else {
                        Some(self.open_stage(with_stage(state, Stage::AddingPermission)))
                    }
                },
                _ => None,
            },
            Stage::AddingPermission => match event {
                BootstrapEvent::PermissionAdded => Some(self.open_stage(with_stage(state, Stage::ListingUserRoles))),
                _ => None,
            },
            Stage::ListingUserRoles => match event {
                BootstrapEvent::UserRolesListed(roles) => {
                    if has_role_id(&roles, state.role_id) {
                        Some(self.admin_key_begins(state))
                    } else {
                        Some(self.open_stage(with_stage(state, Stage::AddingRole)))
                    }
                },
                _ => None,
            },
            Stage::AddingRole => match event {
                BootstrapEvent::RoleAdded => Some(self.admin_key_begins(state)),
                _ => None,
            },
            Stage::AdminKey(step) => {
                if answers_key_call(step, &event) {
                    Some(self.key_step(state, None, step, event))
                } else {
                    None
                }
            },
            Stage::Done => None,
        }
    }

    fn admin_key_begins(&self, s: BootstrapState) -> (r: (BootstrapState, BootstrapAction))
        requires
            s.applications@.len() == 2,
        ensures
            admin_keying(self.config, self.key_namespace(), s, r.0, r.1),
            well_formed(r.0),
    {
        let admin_id = s.admin_id;
        let n = with_key_owner(s, Stage::AdminKey(KeyStep::MasterKey), admin_id, self.config.admin_password.clone());
        self.open_stage(n)
    }
}

/// Whether the call certainly changes what the repositories or the keyring hold.
pub open spec fn is_write(a: BootstrapAction) -> bool {
    ||| a is CreateApplication
    ||| a is CreateClient
    ||| a is UpdateClient
    ||| a is CreateAdmin
    ||| a is CreateRole
    ||| a is CreatePermission
    ||| a is AddPermissionToRole
    ||| a is AddRoleToUser
    ||| a is CreateKey
}

/// Whether the event reports that what the stage looks for is already in place as the
/// baseline wants it.
pub open spec fn confirms(config: BootstrapConfig, s: BootstrapState, e: BootstrapEvent) -> bool {
    match e {
        BootstrapEvent::Started => true,
        BootstrapEvent::MasterKeyEnsured => true,
        BootstrapEvent::DerivationPathEnsured => true,
        BootstrapEvent::RootKeyFound(found) => found is Some,
        BootstrapEvent::ApplicationFound(found) => found is Some,
        BootstrapEvent::ClientFound { existing, new_secret } => match (existing, s.stage) {
            (Some(c), Stage::FindingClient(j)) => !client_differs(
                c,
                s.applications@[client_application(j as int)].id,
                client_name_of(j as int),
                client_uri_of(config, j as int),
                client_profile_of(j as int),
            ),
            _ => false,
        },
        BootstrapEvent::AdminFound(found) => found is Some,
        BootstrapEvent::RolesListed(roles) => exists|k: int|
            0 <= k < roles@.len() && roles@[k].name@ == "admin"@,
        BootstrapEvent::PermissionsListed(ps) => exists|k: int|
            0 <= k < ps@.len() && ps@[k].name@ == "*"@,
        BootstrapEvent::RolePermissionsListed(ps) => exists|k: int|
            0 <= k < ps@.len() && ps@[k].id == s.permission_id,
        BootstrapEvent::UserRolesListed(rs) => exists|k: int|
            0 <= k < rs@.len() && rs@[k].id == s.role_id,
        _ => false,
    }
}

/// Ensuring the baseline is idempotent: where every answer reports that what is looked
/// for is already in place as the baseline wants it, no step asks to create or change
/// anything.
pub proof fn law_settled_baseline_writes_nothing(
    config: BootstrapConfig,
    ns: Seq<char>,
    s: BootstrapState,
    e: BootstrapEvent,
    n: BootstrapState,
    a: BootstrapAction,
)
    requires
        well_formed(s),
        answers(s.stage, e),
        transition(config, ns, s, e, n, a),
        confirms(config, s, e),
    ensures
        !is_write(a),
{
}

/// A run of bootstrapping: the states it passes through, the answers it gets and the calls
/// it makes, each step as `transition` says.
pub open spec fn run_of(
    config: BootstrapConfig,
    ns: Seq<char>,
    states: Seq<BootstrapState>,
    events: Seq<BootstrapEvent>,
    actions: Seq<BootstrapAction>,
) -> bool {
    &&& states.len() == events.len() + 1
    &&& actions.len() == events.len()
    &&& forall|i: int|
        0 <= i < events.len() ==> {
            &&& well_formed(#[trigger] states[i])
            &&& answers(states[i].stage, events[i])
            &&& transition(config, ns, states[i], events[i], states[i + 1], actions[i])
        }
}

/// A whole run on an installation that already holds the baseline makes no write: where
/// every answer reports that what is looked for is in place, none of the run's calls
/// creates or changes anything.
pub proof fn law_settled_run_writes_nothing(
    config: BootstrapConfig,
    ns: Seq<char>,
    states: Seq<BootstrapState>,
    events: Seq<BootstrapEvent>,
    actions: Seq<BootstrapAction>,
)
    requires
        run_of(config, ns, states, events, actions),
        forall|i: int| 0 <= i < events.len() ==> confirms(config, #[trigger] states[i], events[i]),
    ensures
        forall|i: int| 0 <= i < actions.len() ==> !is_write(#[trigger] actions[i]),
{
    assert forall|i: int| 0 <= i < actions.len() implies !is_write(#[trigger] actions[i]) by {
        assert(well_formed(states[i]));
        assert(confirms(config, states[i], events[i]));
        law_settled_baseline_writes_nothing(config, ns, states[i], events[i], states[i + 1], actions[i]);
    }
}

/// The administrator gets the `admin` role unless the listed roles of the administrator
/// hold a role with exactly that role's id: then the grant is asked for, with that id, for
/// the administrator, in the management application; otherwise the administrator's key
/// comes next.
pub proof fn law_admin_role_granted_unless_held(
    config: BootstrapConfig,
    ns: Seq<char>,
    s: BootstrapState,
    rs: Vec<Role>,
    n: BootstrapState,
    a: BootstrapAction,
)
    requires
        well_formed(s),
        s.stage == Stage::ListingUserRoles,
        transition(config, ns, s, BootstrapEvent::UserRolesListed(rs), n, a),
    ensures
        (forall|k: int| 0 <= k < rs@.len() ==> #[trigger] rs@[k].id != s.role_id) <==> (
        a matches BootstrapAction::AddRoleToUser { application, user_id, role_id } && role_id
            == s.role_id && user_id == s.admin_id && application@ == s.applications@[1].uri@),
        (exists|k: int| 0 <= k < rs@.len() && #[trigger] rs@[k].id == s.role_id) ==> (
        n.stage == Stage::AdminKey(KeyStep::MasterKey) && a is EnsureMasterKey),
{
    if exists|k: int| 0 <= k < rs@.len() && #[trigger] rs@[k].id == s.role_id {
        let k = choose|k: int| 0 <= k < rs@.len() && #[trigger] rs@[k].id == s.role_id;
        assert(rs@[k].id == s.role_id);
    }
}

/// The `*` permission is granted to the `admin` role unless the role's listed permissions
/// hold one with exactly that permission's id.
pub proof fn law_permission_granted_unless_held(
    config: BootstrapConfig,
    ns: Seq<char>,
    s: BootstrapState,
    ps: Vec<Permission>,
    n: BootstrapState,
    a: BootstrapAction,
)
    requires
        well_formed(s),
        s.stage == Stage::ListingRolePermissions,
        transition(config, ns, s, BootstrapEvent::RolePermissionsListed(ps), n, a),
    ensures
        (forall|k: int| 0 <= k < ps@.len() ==> #[trigger] ps@[k].id != s.permission_id) <==> (
        a matches BootstrapAction::AddPermissionToRole { application, role_id, permission_id }
            && role_id == s.role_id && permission_id == s.permission_id && application@
            == s.applications@[1].uri@),
        (exists|k: int| 0 <= k < ps@.len() && #[trigger] ps@[k].id == s.permission_id) ==> (
        a matches BootstrapAction::ListUserRoles { application, user_id } && user_id == s.admin_id),
{
    if exists|k: int| 0 <= k < ps@.len() && #[trigger] ps@[k].id == s.permission_id {
        let k = choose|k: int| 0 <= k < ps@.len() && #[trigger] ps@[k].id == s.permission_id;
        assert(ps@[k].id == s.permission_id);
    }
}

/// The `admin` role is created unless a listed role is named `admin`; where one is, the
/// role taken on is one named `admin`.
pub proof fn law_admin_role_created_unless_listed(
    config: BootstrapConfig,
    ns: Seq<char>,
    s: BootstrapState,
    roles: Vec<Role>,
    n: BootstrapState,
    a: BootstrapAction,
)
    requires
        well_formed(s),
        s.stage == Stage::ListingRoles,
        transition(config, ns, s, BootstrapEvent::RolesListed(roles), n, a),
    ensures
        (forall|k: int| 0 <= k < roles@.len() ==> #[trigger] roles@[k].name@ != "admin"@) <==> (
        a matches BootstrapAction::CreateRole { application, name, description } && name@
            == "admin"@ && application@ == s.applications@[1].uri@),
        (exists|k: int| 0 <= k < roles@.len() && #[trigger] roles@[k].name@ == "admin"@) ==> (
        exists|k: int|
            0 <= k < roles@.len() && #[trigger] roles@[k].name@ == "admin"@ && n.role_id
                == roles@[k].id),
{
    if exists|k: int| 0 <= k < roles@.len() && #[trigger] roles@[k].name@ == "admin"@ {
        let k = choose|k: int| 0 <= k < roles@.len() && #[trigger] roles@[k].name@ == "admin"@;
        assert(roles@[k].name@ == "admin"@);
        let j = choose|j: int| #[trigger] first_role_named(roles@, "admin"@, j) && moved(
            n,
            s,
            Stage::ListingPermissions,
            s.admin_id,
            roles@[j].id,
            s.permission_id,
        ) && opening_call(config, ns, n, a);
        assert(roles@[j].name@ == "admin"@);
    }
}

/// The `*` permission is created unless a listed permission is named `*`; where one is,
/// the permission taken on is one named `*`.
pub proof fn law_catch_all_created_unless_listed(
    config: BootstrapConfig,
    ns: Seq<char>,
    s: BootstrapState,
    ps: Vec<Permission>,
    n: BootstrapState,
    a: BootstrapAction,
)
    requires
        well_formed(s),
        s.stage == Stage::ListingPermissions,
        transition(config, ns, s, BootstrapEvent::PermissionsListed(ps), n, a),
    ensures
        (forall|k: int| 0 <= k < ps@.len() ==> #[trigger] ps@[k].name@ != "*"@) <==> (
        a matches BootstrapAction::CreatePermission { application, name, description } && name@
            == "*"@ && application@ == s.applications@[1].uri@),
        (exists|k: int| 0 <= k < ps@.len() && #[trigger] ps@[k].name@ == "*"@) ==> (exists|k: int|
            0 <= k < ps@.len() && #[trigger] ps@[k].name@ == "*"@ && n.permission_id == ps@[k].id),
{
    if exists|k: int| 0 <= k < ps@.len() && #[trigger] ps@[k].name@ == "*"@ {
        let k = choose|k: int| 0 <= k < ps@.len() && #[trigger] ps@[k].name@ == "*"@;
        assert(ps@[k].name@ == "*"@);
        let j = choose|j: int| #[trigger] first_permission_named(ps@, "*"@, j) && moved(
            n,
            s,
            Stage::ListingRolePermissions,
            s.admin_id,
            s.role_id,
            ps@[j].id,
        ) && opening_call(config, ns, n, a);
        assert(ps@[j].name@ == "*"@);
    }
}

/// An application, the administrator and an entity's root key are each created exactly
/// when the lookup finds none; a found one is taken as it is.
pub proof fn law_created_only_when_missing(
    config: BootstrapConfig,
    ns: Seq<char>,
    s: BootstrapState,
    e: BootstrapEvent,
    n: BootstrapState,
    a: BootstrapAction,
)
    requires
        well_formed(s),
        answers(s.stage, e),
        transition(config, ns, s, e, n, a),
    ensures
        e matches BootstrapEvent::ApplicationFound(found) ==> (found is None <==> a is CreateApplication),
        e matches BootstrapEvent::ApplicationFound(Some(app)) ==> n.applications@ == s.applications@.push(app),
        e matches BootstrapEvent::AdminFound(found) ==> (found is None <==> a is CreateAdmin),
        e matches BootstrapEvent::AdminFound(Some(u)) ==> n.admin_id == u.id,
        e matches BootstrapEvent::RootKeyFound(found) ==> (found is None <==> a is CreateKey),
        e matches BootstrapEvent::RootKeyFound(Some(key)) ==> (a matches BootstrapAction::EnsureDerivationPath {
            namespace,
            derivation_path,
        } && derivation_path@ == key.derivation_path@),
{
}

} // verus!