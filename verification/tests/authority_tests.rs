use unit09_core::authority::Authority;
use unit09_core::authority::Scope;
use unit09_core::authority::ROLE_ADMIN;
use unit09_core::authority::ROLE_ANY;
use unit09_core::authority::ROLE_MAINTAINER;
use unit09_core::authority::ROLE_OBSERVER;
use unit09_core::errors::EngineError;
use unit09_core::ids::Identity;

fn entry(roles: u64, scope: Scope) -> Authority {
    let mut a = Authority {
        authority: Identity { hi: 0, lo: 0 },
        roles: 0,
        scope: Scope::Global,
        created_at: 0,
        updated_at: 0,
        schema_version: 0,
    };
    let (is_global, scoped) = match scope {
        Scope::Global => (true, Identity { hi: 0, lo: 0 }),
        Scope::ScopedTo(id) => (false, id),
    };
    a.init(Identity { hi: 1, lo: 1 }, roles, is_global, scoped, 50)
        .unwrap();
    a
}

#[test]
fn role_mask_is_the_or_of_the_three_roles() {
    assert_eq!(ROLE_ADMIN, 1);
    assert_eq!(ROLE_MAINTAINER, 2);
    assert_eq!(ROLE_OBSERVER, 4);
    assert_eq!(ROLE_ANY, ROLE_ADMIN | ROLE_MAINTAINER | ROLE_OBSERVER);
}

#[test]
fn init_rejects_unknown_role_bits() {
    let mut a = Authority {
        authority: Identity { hi: 0, lo: 0 },
        roles: 0,
        scope: Scope::Global,
        created_at: 0,
        updated_at: 0,
        schema_version: 0,
    };
    let before = a;
    assert_eq!(
        a.init(Identity { hi: 1, lo: 1 }, 8, true, Identity { hi: 0, lo: 0 }, 50),
        Err(EngineError::InvalidRoleBits)
    );
    assert_eq!(a, before);
}

#[test]
fn init_with_global_scope_drops_the_resource() {
    let a = entry(ROLE_ADMIN, Scope::Global);
    assert_eq!(a.scope, Scope::Global);
    assert_eq!(a.roles, ROLE_ADMIN);
    assert_eq!(a.created_at, 50);
    assert_eq!(a.updated_at, 50);
    assert_eq!(a.schema_version, 1);
}

#[test]
fn grant_revoke_set_clear_sequences_stay_within_known_bits() {
    let mut a = entry(ROLE_OBSERVER, Scope::Global);
    a.grant_roles(ROLE_ADMIN | ROLE_MAINTAINER, 51).unwrap();
    assert_eq!(a.roles, ROLE_ADMIN | ROLE_MAINTAINER | ROLE_OBSERVER);
    assert_eq!(a.roles & !ROLE_ANY, 0);
    a.revoke_roles(ROLE_ADMIN, 52).unwrap();
    assert_eq!(a.roles, ROLE_MAINTAINER | ROLE_OBSERVER);
    assert_eq!(a.roles & !ROLE_ANY, 0);
    a.set_roles(ROLE_ADMIN, 53).unwrap();
    assert_eq!(a.roles, ROLE_ADMIN);
    assert_eq!(a.roles & !ROLE_ANY, 0);
    a.revoke_roles(u64::MAX, 54).unwrap();
    assert_eq!(a.roles, 0);
    a.grant_roles(ROLE_OBSERVER, 55).unwrap();
    a.clear_roles(56).unwrap();
    assert_eq!(a.roles, 0);
    assert_eq!(a.roles & !ROLE_ANY, 0);
    assert_eq!(a.updated_at, 56);
}

#[test]
fn grant_and_set_reject_unknown_bits_unchanged() {
    let mut a = entry(ROLE_OBSERVER, Scope::Global);
    let before = a;
    assert_eq!(a.grant_roles(1 << 60, 51), Err(EngineError::InvalidRoleBits));
    assert_eq!(a, before);
    assert_eq!(a.set_roles(ROLE_ANY + 1, 52), Err(EngineError::InvalidRoleBits));
    assert_eq!(a, before);
}

#[test]
fn has_any_and_all_roles_read_the_bitmask() {
    let a = entry(ROLE_ADMIN | ROLE_OBSERVER, Scope::Global);
    assert!(a.has_any_role(ROLE_ADMIN));
    assert!(a.has_any_role(ROLE_OBSERVER | ROLE_MAINTAINER));
    assert!(!a.has_any_role(ROLE_MAINTAINER));
    assert!(a.has_all_roles(ROLE_ADMIN | ROLE_OBSERVER));
    assert!(!a.has_all_roles(ROLE_ADMIN | ROLE_MAINTAINER));
    assert!(a.has_all_roles(0));
}

#[test]
fn global_scope_matches_every_resource() {
    let a = entry(ROLE_OBSERVER, Scope::Global);
    assert!(a.matches_resource(&Identity { hi: 3, lo: 4 }));
    assert!(a.matches_resource(&Identity { hi: 0, lo: 0 }));
}

#[test]
fn bound_scope_matches_exactly_its_resource() {
    let repo = Identity { hi: 8, lo: 9 };
    let a = entry(ROLE_MAINTAINER, Scope::ScopedTo(repo));
    assert!(a.matches_resource(&repo));
    assert!(!a.matches_resource(&Identity { hi: 8, lo: 10 }));
}

#[test]
fn set_scope_to_global_drops_the_stored_resource() {
    let repo = Identity { hi: 8, lo: 9 };
    let mut a = entry(ROLE_MAINTAINER, Scope::ScopedTo(repo));
    a.set_scope(true, repo, 60).unwrap();
    assert_eq!(a.scope, Scope::Global);
    a.set_scope(false, repo, 61).unwrap();
    assert_eq!(a.scope, Scope::ScopedTo(repo));
    assert_eq!(a.updated_at, 61);
}

#[test]
fn global_observer_lacks_admin_for_any_resource() {
    let a = entry(ROLE_OBSERVER, Scope::Global);
    for resource in [
        Identity { hi: 0, lo: 0 },
        Identity { hi: 1, lo: 1 },
        Identity { hi: u128::MAX, lo: 5 },
    ] {
        assert_eq!(
            a.assert_allowed_for_resource(Identity { hi: 1, lo: 1 }, ROLE_ADMIN, &resource),
            Err(EngineError::InsufficientRole)
        );
    }
}

#[test]
fn authorization_checks_identity_before_scope_before_roles() {
    let repo = Identity { hi: 8, lo: 9 };
    let other_repo = Identity { hi: 8, lo: 10 };
    let a = entry(ROLE_OBSERVER, Scope::ScopedTo(repo));
    let stranger = Identity { hi: 2, lo: 2 };
    // A stranger on a mismatched scope still sees the identity failure.
    assert_eq!(
        a.assert_allowed_for_resource(stranger, ROLE_ADMIN, &other_repo),
        Err(EngineError::IdentityMismatch)
    );
    // The right signer on the wrong resource sees the scope failure even
    // though the roles would also be insufficient.
    assert_eq!(
        a.assert_allowed_for_resource(Identity { hi: 1, lo: 1 }, ROLE_ADMIN, &other_repo),
        Err(EngineError::ScopeMismatch)
    );
    // The right signer on the right resource with the right role passes.
    assert_eq!(
        a.assert_allowed_for_resource(Identity { hi: 1, lo: 1 }, ROLE_OBSERVER, &repo),
        Ok(())
    );
}
