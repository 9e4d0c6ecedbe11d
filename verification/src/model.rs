//! Data model: the external identity, the local user record, the per-tenant
//! membership record, and the staged store writes a provisioning decision
//! produces.

use vstd::prelude::*;

verus! {

/// Role a local user holds inside an organization.
#[derive(Clone, Copy, Debug, PartialEq, Eq, Structural)]
pub enum UserRole {
    Root,
    Admin,
    Member,
    Viewer,
}

/// Validated identity handed over by the external identity provider.
#[derive(Clone, Debug, PartialEq, Eq)]
pub struct ExternalIdentity {
    pub account: String,
    pub tenant_id: String,
    pub display_name: String,
}

/// Canonical internal user record; `email` is the primary key.
#[derive(Clone, Debug, PartialEq, Eq)]
pub struct LocalUser {
    pub email: String,
    pub first_name: String,
    pub last_name: String,
    pub password_hash: String,
    pub salt: String,
    pub role: UserRole,
    pub org: String,
    pub token: String,
    pub rum_token: Option<String>,
    pub is_external: bool,
    pub password_ext: Option<String>,
}

/// Per-tenant role and token binding, stored beside the user record and kept
/// in sync with it on every provisioning call.
#[derive(Clone, Debug, PartialEq, Eq)]
pub struct OrgUserRecord {
    pub org: String,
    pub email: String,
    pub role: UserRole,
    pub token: String,
    pub rum_token: Option<String>,
}

/// One organization membership inside a combined new-user record.
#[derive(Clone, Debug, PartialEq, Eq)]
pub struct UserOrg {
    pub name: String,
    pub token: String,
    pub rum_token: Option<String>,
    pub role: UserRole,
}

/// Combined record that establishes a user and its one organization
/// membership in a single store write.
#[derive(Clone, Debug, PartialEq, Eq)]
pub struct NewUserRecord {
    pub email: String,
    pub first_name: String,
    pub last_name: String,
    pub password_hash: String,
    pub salt: String,
    pub organizations: Vec<UserOrg>,
    pub is_external: bool,
    pub password_ext: Option<String>,
}

/// Field set for the user-store update call.
#[derive(Clone, Debug, PartialEq, Eq)]
pub struct UserStoreUpdate {
    pub email: String,
    pub first_name: String,
    pub last_name: String,
    pub password_hash: String,
    pub password_ext: Option<String>,
}

/// Values the out-of-scope collaborators supply for the create branch: the
/// digest the hashing primitive produced for the fixed placeholder password
/// and fixed salt, a fresh random access token, the configured RUM-token
/// override (empty when unset), and a fresh random RUM-token suffix.
#[derive(Clone, Debug, PartialEq, Eq)]
pub struct CreationMaterial {
    pub password_hash: String,
    pub token: String,
    pub fixed_rum_token: String,
    pub rum_suffix: String,
}

/// Outcome of the update branch: the refreshed user record and the two store
/// writes that persist it.
#[derive(Clone, Debug, PartialEq, Eq)]
pub struct UpdatePlan {
    pub user: LocalUser,
    pub user_write: UserStoreUpdate,
    pub org_write: OrgUserRecord,
}

/// Outcome of the create branch: the new user record and the combined record
/// to insert.
#[derive(Clone, Debug, PartialEq, Eq)]
pub struct CreatePlan {
    pub user: LocalUser,
    pub record: NewUserRecord,
}

/// The provisioning decision for one call.
#[derive(Clone, Debug, PartialEq, Eq)]
pub enum Provisioning {
    Update(UpdatePlan),
    Create(CreatePlan),
}

} // verus!
