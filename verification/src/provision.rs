//! The provisioning decision itself: canonical email synthesis, the fixed
//! placeholder credentials, the RUM-token choice, and the create / update
//! branches.

use vstd::prelude::*;
use vstd::string::StringExecFns;

use crate::model::{
    CreatePlan, CreationMaterial, ExternalIdentity, LocalUser, NewUserRecord, OrgUserRecord,
    Provisioning, UpdatePlan, UserOrg, UserRole, UserStoreUpdate,
};

verus! {

/// The canonical local email for an external identity:
/// `{account}@{tenant_id}.com`.
pub open spec fn email_of(account: Seq<char>, tenant_id: Seq<char>) -> Seq<char> {
    account + "@"@ + tenant_id + ".com"@
}

/// Synthesizes the canonical email for an identity.
pub fn canonical_email(identity: &ExternalIdentity) -> (r: String)
    ensures
        r@ == email_of(identity.account@, identity.tenant_id@),
{
    let mut email = identity.account.clone();
    email.append("@");
    email.append(identity.tenant_id.as_str());
    email.append(".com");
    email
}

/// The fixed salt stored with every externally provisioned user.
pub fn generate_fixed_salt() -> (r: String)
    ensures
        r@ == "fixed_salt_for_oauth2_users"@,
{
    String::from_str("fixed_salt_for_oauth2_users")
}

/// The fixed, publicly known placeholder password whose digest fills the
/// password slot of every externally provisioned user.  It exists only to
/// satisfy the storage schema and never authenticates anyone.
pub fn fixed_placeholder_password() -> (r: String)
    ensures
        r@ == "oldcamel"@,
{
    String::from_str("oldcamel")
}

/// The single fixed organization every externally provisioned user belongs
/// to.
pub fn fixed_org() -> (r: String)
    ensures
        r@ == "default"@,
{
    String::from_str("default")
}

/// The RUM token a newly created user receives: the configured override when
/// one is set (non-empty), otherwise `rum` followed by the fresh random
/// suffix.
pub open spec fn rum_token_of(fixed_rum_token: Seq<char>, random_suffix: Seq<char>) -> Seq<char> {
    if fixed_rum_token.len() > 0 {
        fixed_rum_token
    } else {
        "rum"@ + random_suffix
    }
}

/// Picks the RUM token for a newly created user.
pub fn choose_rum_token(fixed_rum_token: &str, random_suffix: &str) -> (r: String)
    ensures
        r@ == rum_token_of(fixed_rum_token@, random_suffix@),
{
    if !fixed_rum_token.is_empty() {
        fixed_rum_token.to_owned()
    } else {
        String::from_str("rum").concat(random_suffix)
    }
}

/// What the update branch produces from an existing record and the identity:
/// the first name is refreshed, the last name forced empty, the organization
/// forced to the fixed one; every other field of the record — in particular
/// email, role, token, RUM token, password hash and salt — is carried forward
/// unchanged, and the two staged writes persist exactly those fields.
pub open spec fn update_applied(
    existing: LocalUser,
    identity: ExternalIdentity,
    plan: UpdatePlan,
) -> bool {
    &&& plan.user.email == existing.email
    &&& plan.user.first_name == identity.display_name
    &&& plan.user.last_name@ == Seq::<char>::empty()
    &&& plan.user.org@ == "default"@
    &&& plan.user.password_hash == existing.password_hash
    &&& plan.user.salt == existing.salt
    &&& plan.user.role == existing.role
    &&& plan.user.token == existing.token
    &&& plan.user.rum_token == existing.rum_token
    &&& plan.user.is_external == existing.is_external
    &&& plan.user.password_ext == existing.password_ext
    &&& plan.user_write.email == plan.user.email
    &&& plan.user_write.first_name == plan.user.first_name
    &&& plan.user_write.last_name == plan.user.last_name
    &&& plan.user_write.password_hash == plan.user.password_hash
    &&& plan.user_write.password_ext == plan.user.password_ext
    &&& plan.org_write.org@ == "default"@
    &&& plan.org_write.email == plan.user.email
    &&& plan.org_write.role == plan.user.role
    &&& plan.org_write.token == plan.user.token
    &&& plan.org_write.rum_token == plan.user.rum_token
}

/// What the create branch produces from an identity and the collaborator
/// supplied material: a user under the canonical email, display name carried
/// over, empty last name, the supplied digest as password hash over the fixed
/// salt, the fixed privileged role in the fixed organization, the supplied
/// access token, the chosen RUM token, the external flag set — and a combined
/// store record that mirrors the returned user, with exactly one membership.
pub open spec fn create_applied(
    identity: ExternalIdentity,
    material: CreationMaterial,
    plan: CreatePlan,
) -> bool {
    &&& plan.user.email@ == email_of(identity.account@, identity.tenant_id@)
    &&& plan.user.first_name == identity.display_name
    &&& plan.user.last_name@ == Seq::<char>::empty()
    &&& plan.user.password_hash == material.password_hash
    &&& plan.user.salt@ == "fixed_salt_for_oauth2_users"@
    &&& plan.user.role == UserRole::Root
    &&& plan.user.org@ == "default"@
    &&& plan.user.token == material.token
    &&& (plan.user.rum_token matches Some(t) && t@ == rum_token_of(
        material.fixed_rum_token@,
        material.rum_suffix@,
    ))
    &&& plan.user.is_external == true
    &&& plan.user.password_ext is None
    &&& plan.record.email == plan.user.email
    &&& plan.record.first_name == plan.user.first_name
    &&& plan.record.last_name@ == Seq::<char>::empty()
    &&& plan.record.password_hash == plan.user.password_hash
    &&& plan.record.salt == plan.user.salt
    &&& plan.record.is_external == true
    &&& plan.record.password_ext is None
    &&& plan.record.organizations@.len() == 1
    &&& plan.record.organizations@[0].name@ == "default"@
    &&& plan.record.organizations@[0].token == plan.user.token
    &&& plan.record.organizations@[0].rum_token == plan.user.rum_token
    &&& plan.record.organizations@[0].role == UserRole::Root
}

/// What one provisioning call decides: an existing record selects the update
/// branch, absence selects the create branch, each with its exact outcome.
pub open spec fn provisioned(
    identity: ExternalIdentity,
    existing: Option<LocalUser>,
    material: CreationMaterial,
    r: Provisioning,
) -> bool {
    match existing {
        Some(u) => r matches Provisioning::Update(plan) && update_applied(u, identity, plan),
        None => r matches Provisioning::Create(plan) && create_applied(identity, material, plan),
    }
}

fn clone_opt_string(o: &Option<String>) -> (r: Option<String>)
    ensures
        r == *o,
{
    match o {
        Some(s) => Some(s.clone()),
        None => None,
    }
}

/// Update branch: refresh the display name, force the last name empty and the
/// organization to the fixed one, carry every credential field forward
/// unchanged, and stage the user-store and membership-store writes.
pub fn update_existing_user(existing: LocalUser, identity: &ExternalIdentity) -> (plan: UpdatePlan)
    ensures
        update_applied(existing, *identity, plan),
{
    let user = LocalUser {
        email: existing.email,
        first_name: identity.display_name.clone(),
        last_name: String::new(),
        password_hash: existing.password_hash,
        salt: existing.salt,
        role: existing.role,
        org: fixed_org(),
        token: existing.token,
        rum_token: existing.rum_token,
        is_external: existing.is_external,
        password_ext: existing.password_ext,
    };
    let user_write = UserStoreUpdate {
        email: user.email.clone(),
        first_name: user.first_name.clone(),
        last_name: user.last_name.clone(),
        password_hash: user.password_hash.clone(),
        password_ext: clone_opt_string(&user.password_ext),
    };
    let org_write = OrgUserRecord {
        org: fixed_org(),
        email: user.email.clone(),
        role: user.role,
        token: user.token.clone(),
        rum_token: clone_opt_string(&user.rum_token),
    };
    UpdatePlan { user, user_write, org_write }
}

/// Create branch: synthesize the new user from the identity and the
/// collaborator supplied material, and stage the combined record that
/// establishes the user and its one membership in a single write.
pub fn create_new_user(identity: &ExternalIdentity, material: CreationMaterial) -> (plan: CreatePlan)
    ensures
        create_applied(*identity, material, plan),
{
    let email = canonical_email(identity);
    let salt = generate_fixed_salt();
    let rum_token = choose_rum_token(
        material.fixed_rum_token.as_str(),
        material.rum_suffix.as_str(),
    );
    let membership = UserOrg {
        name: fixed_org(),
        token: material.token.clone(),
        rum_token: Some(rum_token.clone()),
        role: UserRole::Root,
    };
    let mut organizations: Vec<UserOrg> = Vec::new();
    organizations.push(membership);
    let record = NewUserRecord {
        email: email.clone(),
        first_name: identity.display_name.clone(),
        last_name: String::new(),
        password_hash: material.password_hash.clone(),
        salt: salt.clone(),
        organizations,
        is_external: true,
        password_ext: None,
    };
    let user = LocalUser {
        email,
        first_name: identity.display_name.clone(),
        last_name: String::new(),
        password_hash: material.password_hash,
        salt,
        role: UserRole::Root,
        org: fixed_org(),
        token: material.token,
        rum_token: Some(rum_token),
        is_external: true,
        password_ext: None,
    };
    CreatePlan { user, record }
}

/// The provisioning decision for one call: update when the store lookup found
/// a record under the canonical email, create when it found none.  Storage
/// failures abort before this decision and never reach it; the caller
/// performs the staged writes and propagates their errors unchanged.
pub fn create_or_update_oauth2_user(
    identity: &ExternalIdentity,
    existing: Option<LocalUser>,
    material: CreationMaterial,
) -> (r: Provisioning)
    ensures
        provisioned(*identity, existing, material, r),
{
    match existing {
        Some(found) => Provisioning::Update(update_existing_user(found, identity)),
        None => Provisioning::Create(create_new_user(identity, material)),
    }
}

} // verus!
