use oauth2_provision::model::{
    CreationMaterial, ExternalIdentity, LocalUser, NewUserRecord, Provisioning, UserRole,
};
use oauth2_provision::provision::{
    canonical_email, choose_rum_token, create_new_user, create_or_update_oauth2_user, fixed_org,
    fixed_placeholder_password, generate_fixed_salt, update_existing_user,
};

fn alice(display_name: &str) -> ExternalIdentity {
    ExternalIdentity {
        account: "alice".to_string(),
        tenant_id: "acme".to_string(),
        display_name: display_name.to_string(),
    }
}

fn material(fixed_rum_token: &str, token: &str, rum_suffix: &str) -> CreationMaterial {
    CreationMaterial {
        // stands in for hash("oldcamel", "fixed_salt_for_oauth2_users")
        password_hash: "digest-of-oldcamel".to_string(),
        token: token.to_string(),
        fixed_rum_token: fixed_rum_token.to_string(),
        rum_suffix: rum_suffix.to_string(),
    }
}

/// A user store keyed by email, honoring the primary-key uniqueness that the
/// real store enforces.
struct Store {
    records: Vec<NewUserRecord>,
}

impl Store {
    fn new() -> Store {
        Store { records: Vec::new() }
    }

    fn get(&self, email: &str) -> Option<&NewUserRecord> {
        self.records.iter().find(|r| r.email == email)
    }

    fn add(&mut self, record: NewUserRecord) -> Result<(), String> {
        if self.get(&record.email).is_some() {
            return Err("duplicate key".to_string());
        }
        self.records.push(record);
        Ok(())
    }
}

#[test]
fn canonical_email_is_account_at_tenant_dot_com() {
    let email = canonical_email(&alice("Alice A"));
    assert_eq!(email, "alice@acme.com");
}

#[test]
fn canonical_email_propagates_malformed_fields() {
    let id = ExternalIdentity {
        account: "a b".to_string(),
        tenant_id: "".to_string(),
        display_name: "X".to_string(),
    };
    assert_eq!(canonical_email(&id), "a b@.com");
}

#[test]
fn canonical_email_collides_only_through_at_signs_in_the_account() {
    // distinct identities map to distinct emails while accounts are @-free...
    let plain_a = ExternalIdentity {
        account: "x".to_string(),
        tenant_id: "y".to_string(),
        display_name: "X".to_string(),
    };
    let plain_b = ExternalIdentity {
        account: "x".to_string(),
        tenant_id: "y.com".to_string(),
        display_name: "X".to_string(),
    };
    assert_ne!(canonical_email(&plain_a), canonical_email(&plain_b));
    // ...but an @ inside the account can collide with another identity
    let split_one = ExternalIdentity {
        account: "x".to_string(),
        tenant_id: "y@z".to_string(),
        display_name: "X".to_string(),
    };
    let split_two = ExternalIdentity {
        account: "x@y".to_string(),
        tenant_id: "z".to_string(),
        display_name: "X".to_string(),
    };
    assert_eq!(canonical_email(&split_one), canonical_email(&split_two));
}

#[test]
fn fixed_constants_have_exact_values() {
    assert_eq!(generate_fixed_salt(), "fixed_salt_for_oauth2_users");
    assert_eq!(fixed_placeholder_password(), "oldcamel");
    assert_eq!(fixed_org(), "default");
}

#[test]
fn first_call_creates_alice() {
    let r = create_or_update_oauth2_user(
        &alice("Alice A"),
        None,
        material("", "tok0123456789abc", "0123456789abcdef"),
    );
    match r {
        Provisioning::Create(plan) => {
            assert_eq!(plan.user.email, "alice@acme.com");
            assert_eq!(plan.user.first_name, "Alice A");
            assert_eq!(plan.user.last_name, "");
            assert_eq!(plan.user.role, UserRole::Root);
            assert!(plan.user.is_external);
            assert_eq!(plan.user.org, "default");
            assert_eq!(plan.user.password_ext, None);
            assert_eq!(plan.record.email, "alice@acme.com");
            assert_eq!(plan.record.organizations.len(), 1);
            assert_eq!(plan.record.organizations[0].name, "default");
        }
        Provisioning::Update(_) => panic!("first call must take the create branch"),
    }
}

#[test]
fn second_call_updates_without_new_membership() {
    let first = create_or_update_oauth2_user(
        &alice("Alice A"),
        None,
        material("", "tok0123456789abc", "0123456789abcdef"),
    );
    let created = match first {
        Provisioning::Create(plan) => plan.user,
        Provisioning::Update(_) => panic!("first call must take the create branch"),
    };
    let second = create_or_update_oauth2_user(
        &alice("Alice B"),
        Some(created.clone()),
        material("", "tokffffffffffffff", "ffffffffffffffff"),
    );
    match second {
        Provisioning::Update(plan) => {
            assert_eq!(plan.user.email, created.email);
            assert_eq!(plan.user.email, "alice@acme.com");
            assert_eq!(plan.user.first_name, "Alice B");
            // the update branch stages no insert, so no new membership is created
            assert_eq!(plan.org_write.org, "default");
            assert_eq!(plan.org_write.email, "alice@acme.com");
        }
        Provisioning::Create(_) => panic!("second call must take the update branch"),
    }
}

#[test]
fn created_user_has_root_role_and_external_flag() {
    for fixed in ["", "rum-fixed"] {
        let plan = create_new_user(&alice("Alice A"), material(fixed, "t", "s"));
        assert_eq!(plan.user.role, UserRole::Root);
        assert!(plan.user.is_external);
        assert!(plan.record.is_external);
        assert_eq!(plan.record.organizations[0].role, UserRole::Root);
    }
}

#[test]
fn created_users_share_the_fixed_password_hash() {
    let a = create_new_user(&alice("Alice A"), material("", "t1", "s1"));
    let b = create_new_user(
        &ExternalIdentity {
            account: "bob".to_string(),
            tenant_id: "other".to_string(),
            display_name: "Bob".to_string(),
        },
        material("", "t2", "s2"),
    );
    assert_eq!(a.user.password_hash, "digest-of-oldcamel");
    assert_eq!(a.user.password_hash, b.user.password_hash);
    assert_eq!(a.user.salt, "fixed_salt_for_oauth2_users");
    assert_eq!(b.user.salt, "fixed_salt_for_oauth2_users");
}

#[test]
fn update_branch_preserves_credentials() {
    let existing = LocalUser {
        email: "alice@acme.com".to_string(),
        first_name: "Old Name".to_string(),
        last_name: "Something".to_string(),
        password_hash: "hash-kept".to_string(),
        salt: "salt-kept".to_string(),
        role: UserRole::Member,
        org: "elsewhere".to_string(),
        token: "token-kept".to_string(),
        rum_token: Some("rum-kept".to_string()),
        is_external: true,
        password_ext: Some("ext-kept".to_string()),
    };
    let plan = update_existing_user(existing, &alice("Alice B"));
    assert_eq!(plan.user.email, "alice@acme.com");
    assert_eq!(plan.user.first_name, "Alice B");
    assert_eq!(plan.user.last_name, "");
    assert_eq!(plan.user.org, "default");
    assert_eq!(plan.user.password_hash, "hash-kept");
    assert_eq!(plan.user.salt, "salt-kept");
    assert_eq!(plan.user.role, UserRole::Member);
    assert_eq!(plan.user.token, "token-kept");
    assert_eq!(plan.user.rum_token, Some("rum-kept".to_string()));
    assert_eq!(plan.user.password_ext, Some("ext-kept".to_string()));
    assert_eq!(plan.user_write.email, "alice@acme.com");
    assert_eq!(plan.user_write.first_name, "Alice B");
    assert_eq!(plan.user_write.password_hash, "hash-kept");
    assert_eq!(plan.org_write.token, "token-kept");
    assert_eq!(plan.org_write.rum_token, Some("rum-kept".to_string()));
    assert_eq!(plan.org_write.role, UserRole::Member);
}

#[test]
fn fixed_rum_token_override_wins() {
    let plan = create_new_user(&alice("Alice A"), material("rum-fixed", "t", "0123456789abcdef"));
    assert_eq!(plan.user.rum_token, Some("rum-fixed".to_string()));
    assert_eq!(plan.record.organizations[0].rum_token, Some("rum-fixed".to_string()));
}

#[test]
fn unset_override_gives_rum_prefixed_suffix() {
    let a = create_new_user(&alice("Alice A"), material("", "t", "0123456789abcdef"));
    let b = create_new_user(&alice("Alice A"), material("", "t", "fedcba9876543210"));
    assert_eq!(a.user.rum_token, Some("rum0123456789abcdef".to_string()));
    assert_eq!(b.user.rum_token, Some("rumfedcba9876543210".to_string()));
    // distinct fresh suffixes give distinct tokens
    assert_ne!(a.user.rum_token, b.user.rum_token);
}

#[test]
fn choose_rum_token_edge_values() {
    assert_eq!(choose_rum_token("", ""), "rum");
    assert_eq!(choose_rum_token("override", "ignored"), "override");
}

#[test]
fn concurrent_first_time_creation_leaves_at_most_one_record() {
    let mut store = Store::new();
    let email = canonical_email(&alice("Alice A"));
    // both calls observe "not found" before either write lands
    assert!(store.get(&email).is_none());
    assert!(store.get(&email).is_none());
    let first = create_new_user(&alice("Alice A"), material("", "t1", "s1"));
    let second = create_new_user(&alice("Alice A"), material("", "t2", "s2"));
    let first_write = store.add(first.record);
    let second_write = store.add(second.record);
    // the store's uniqueness constraint decides which call wins
    assert!(first_write.is_ok());
    assert!(second_write.is_err());
    assert_eq!(store.records.len(), 1);
}
