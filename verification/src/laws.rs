//! Properties the provisioning policy guarantees, stated and proved over the
//! spec predicates of [`crate::provision`].

use vstd::prelude::*;

use crate::model::{
    CreatePlan, CreationMaterial, ExternalIdentity, LocalUser, Provisioning, UpdatePlan, UserRole,
};
use crate::provision::{create_applied, email_of, provisioned, update_applied};

verus! {

/// Provisioning the same identity twice yields the same canonical email on
/// both calls, and the second call, which sees the record the first one
/// created, takes the update branch — it never creates a second record.
pub proof fn lemma_repeated_resolve_idempotent(
    identity: ExternalIdentity,
    first_material: CreationMaterial,
    second_material: CreationMaterial,
    first: CreatePlan,
    second: Provisioning,
)
    requires
        provisioned(identity, None, first_material, Provisioning::Create(first)),
        provisioned(identity, Some(first.user), second_material, second),
    ensures
        first.user.email@ == email_of(identity.account@, identity.tenant_id@),
        (second matches Provisioning::Update(plan) && plan.user.email@ == email_of(
            identity.account@,
            identity.tenant_id@,
        )),
{
}

/// Every created user holds the fixed privileged role and is marked
/// external, unconditionally.
pub proof fn lemma_created_role_and_external_flag(
    identity: ExternalIdentity,
    material: CreationMaterial,
    plan: CreatePlan,
)
    requires
        create_applied(identity, material, plan),
    ensures
        plan.user.role == UserRole::Root,
        plan.user.is_external,
{
}

/// Every created user's password hash is exactly the digest the hashing
/// collaborator produced for the fixed placeholder password and the fixed
/// salt, and the fixed salt is stored with it; two users created from the
/// same digest therefore share the same password hash, whatever their
/// identities.
pub proof fn lemma_created_password_hash_fixed(
    first_identity: ExternalIdentity,
    first_material: CreationMaterial,
    first: CreatePlan,
    second_identity: ExternalIdentity,
    second_material: CreationMaterial,
    second: CreatePlan,
)
    requires
        create_applied(first_identity, first_material, first),
        create_applied(second_identity, second_material, second),
        first_material.password_hash == second_material.password_hash,
    ensures
        first.user.password_hash == first_material.password_hash,
        first.user.salt@ == "fixed_salt_for_oauth2_users"@,
        first.user.password_hash == second.user.password_hash,
{
}

/// The update branch never changes the email, role, token, RUM token,
/// password hash, salt, external flag or password extension of an existing
/// record; it only refreshes the first name, forces the last name empty and
/// forces the organization to the fixed one.
pub proof fn lemma_update_preserves_credentials(
    existing: LocalUser,
    identity: ExternalIdentity,
    plan: UpdatePlan,
)
    requires
        update_applied(existing, identity, plan),
    ensures
        plan.user.email == existing.email,
        plan.user.role == existing.role,
        plan.user.token == existing.token,
        plan.user.rum_token == existing.rum_token,
        plan.user.password_hash == existing.password_hash,
        plan.user.salt == existing.salt,
        plan.user.is_external == existing.is_external,
        plan.user.password_ext == existing.password_ext,
        plan.user.first_name == identity.display_name,
        plan.user.last_name@ == Seq::<char>::empty(),
        plan.user.org@ == "default"@,
{
}

/// When the configured RUM-token override is set (non-empty), every created
/// user receives exactly that override; when it is unset, the user receives
/// `rum` followed by the fresh random suffix its call was given.
pub proof fn lemma_rum_token_override(
    identity: ExternalIdentity,
    material: CreationMaterial,
    plan: CreatePlan,
)
    requires
        create_applied(identity, material, plan),
    ensures
        material.fixed_rum_token@.len() > 0 ==> (plan.user.rum_token matches Some(t) && t@
            == material.fixed_rum_token@),
        material.fixed_rum_token@.len() == 0 ==> (plan.user.rum_token matches Some(t) && t@
            == "rum"@ + material.rum_suffix@),
{
}

/// When the override is unset, the RUM tokens of two created users differ
/// whenever the fresh suffixes their calls were given differ — so distinct
/// random suffixes always yield distinct RUM tokens.
pub proof fn lemma_distinct_suffixes_give_distinct_rum_tokens(
    first_identity: ExternalIdentity,
    first_material: CreationMaterial,
    first: CreatePlan,
    second_identity: ExternalIdentity,
    second_material: CreationMaterial,
    second: CreatePlan,
)
    requires
        create_applied(first_identity, first_material, first),
        create_applied(second_identity, second_material, second),
        first_material.fixed_rum_token@.len() == 0,
        second_material.fixed_rum_token@.len() == 0,
        first_material.rum_suffix@ != second_material.rum_suffix@,
    ensures
        first.user.rum_token != second.user.rum_token,
{
    let s1 = first_material.rum_suffix@;
    let s2 = second_material.rum_suffix@;
    if "rum"@ + s1 == "rum"@ + s2 {
        assert(("rum"@ + s1).len() == ("rum"@).len() + s1.len());
        assert(("rum"@ + s2).len() == ("rum"@).len() + s2.len());
        assert(s1.len() == s2.len());
        assert forall|i: int| 0 <= i < s1.len() implies s1[i] == s2[i] by {
            assert(("rum"@ + s1)[("rum"@).len() + i] == s1[i]);
            assert(("rum"@ + s2)[("rum"@).len() + i] == s2[i]);
        }
        assert(s1 =~= s2);
    }
}

/// The identity-to-email map is stable and collision-free: two identities
/// whose accounts contain no `@` receive the same canonical email only when
/// account and tenant agree.  (Without that restriction the map can collide:
/// account `x`, tenant `y@z` and account `x@y`, tenant `z` share an email.)
pub proof fn lemma_canonical_email_injective(
    a1: Seq<char>,
    t1: Seq<char>,
    a2: Seq<char>,
    t2: Seq<char>,
)
    requires
        !a1.contains('@'),
        !a2.contains('@'),
        email_of(a1, t1) == email_of(a2, t2),
    ensures
        a1 == a2,
        t1 == t2,
{
    reveal_strlit("@");
    reveal_strlit(".com");
    let e1 = email_of(a1, t1);
    let e2 = email_of(a2, t2);
    assert(e1[a1.len() as int] == '@');
    assert(e2[a2.len() as int] == '@');
    if a1.len() < a2.len() {
        assert(e2[a1.len() as int] == a2[a1.len() as int]);
        assert(a2.contains('@'));
    }
    if a2.len() < a1.len() {
        assert(e1[a2.len() as int] == a1[a2.len() as int]);
        assert(a1.contains('@'));
    }
    assert(a1.len() == a2.len());
    assert forall|i: int| 0 <= i < a1.len() implies a1[i] == a2[i] by {
        assert(e1[i] == a1[i]);
        assert(e2[i] == a2[i]);
    }
    assert(a1 =~= a2);
    assert(e1.len() == a1.len() + 1 + t1.len() + 4);
    assert(e2.len() == a2.len() + 1 + t2.len() + 4);
    assert(t1.len() == t2.len());
    assert forall|i: int| 0 <= i < t1.len() implies t1[i] == t2[i] by {
        assert(e1[a1.len() + 1 + i] == t1[i]);
        assert(e2[a2.len() + 1 + i] == t2[i]);
    }
    assert(t1 =~= t2);
}

} // verus!
