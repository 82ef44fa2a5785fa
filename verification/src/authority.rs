//! Role and scope based authorization entries.
//!
//! An [`Authority`] account maps one identity to a bitmask of protocol
//! roles and a scope: either the whole deployment or one named resource.
//! It answers whether a signer may perform an action that requires any of a
//! given set of roles on a given resource.

use vstd::prelude::*;

use crate::constants::CURRENT_SCHEMA_VERSION;
use crate::errors::EngineError;
use crate::ids::Identity;

verus! {

/// Role bit for full administrative control.
pub const ROLE_ADMIN: u64 = 1;

/// Role bit for maintenance operations.
pub const ROLE_MAINTAINER: u64 = 2;

/// Role bit for read-side observation tooling.
pub const ROLE_OBSERVER: u64 = 4;

/// Mask of every known role bit; any bit outside it is rejected.
pub const ROLE_ANY: u64 = ROLE_ADMIN | ROLE_MAINTAINER | ROLE_OBSERVER;

/// True of a bitmask that carries no bit outside the known role set.
pub open spec fn roles_valid(roles: u64) -> bool {
    roles & !ROLE_ANY == 0
}

/// Whether an access entry applies to the whole deployment or to exactly
/// one named resource. The tagged form leaves no room for an inconsistent
/// "global, yet bound to a resource" state.
#[derive(Clone, Copy, PartialEq, Eq, Structural, Debug)]
pub enum Scope {
    /// The entry applies to every resource of the deployment.
    Global,
    /// The entry applies only to the named resource.
    ScopedTo(Identity),
}

/// True when an entry with scope `s` applies to the resource `target`.
pub open spec fn scope_matches(s: Scope, target: Identity) -> bool {
    match s {
        Scope::Global => true,
        Scope::ScopedTo(id) => id == target,
    }
}

/// Law: for every sequence of grant, revoke, set and clear operations, the
/// resulting roles bitmask never carries a bit outside the known role set.
/// Each step maps a mask within [`ROLE_ANY`] to a mask within [`ROLE_ANY`]:
/// granting adds validated bits, revoking only removes bits, replacing
/// stores a validated mask, and clearing stores zero.
pub proof fn lemma_role_updates_stay_known(roles: u64, delta: u64)
    requires
        roles_valid(roles),
        roles_valid(delta),
    ensures
        roles_valid(roles | delta),
        roles_valid(roles & !delta),
        roles_valid(delta),
        roles_valid(0),
{
    assert(roles_valid(roles | delta) && roles_valid(roles & !delta) && roles_valid(0u64))
        by (bit_vector)
        requires
            roles_valid(roles) && roles_valid(delta),
    ;
}

/// An authorization entry: the protocol-level roles one identity holds,
/// and the scope they apply to.
#[derive(Clone, Copy, PartialEq, Eq, Structural, Debug)]
pub struct Authority {
    /// The identity this entry speaks for.
    pub authority: Identity,
    /// Bitmask of roles assigned to this identity.
    pub roles: u64,
    /// Whether the roles apply globally or to one resource.
    pub scope: Scope,
    /// When this entry was created.
    pub created_at: i64,
    /// When this entry was last updated.
    pub updated_at: i64,
    /// Schema version of this account layout.
    pub schema_version: u8,
}

impl Authority {
    /// Initialize a fresh entry with a validated roles bitmask.
    pub fn init(
        &mut self,
        authority: Identity,
        roles: u64,
        is_global: bool,
        resource_scope: Identity,
        now: i64,
    ) -> (r: Result<(), EngineError>)
        ensures
            !roles_valid(roles) ==> r == Err::<(), EngineError>(EngineError::InvalidRoleBits)
                && *final(self) == *old(self),
            roles_valid(roles) ==> r == Ok::<(), EngineError>(()) && *final(self) == (Authority {
                authority: authority,
                roles: roles,
                scope: if is_global {
                    Scope::Global
                } else {
                    Scope::ScopedTo(resource_scope)
                },
                created_at: now,
                updated_at: now,
                schema_version: CURRENT_SCHEMA_VERSION,
            }),
    {
        Self::validate_roles(roles)?;
        self.authority = authority;
        self.roles = roles;
        self.scope = if is_global {
            Scope::Global
        } else {
            Scope::ScopedTo(resource_scope)
        };
        self.created_at = now;
        self.updated_at = now;
        self.schema_version = CURRENT_SCHEMA_VERSION;
        Ok(())
    }

    /// Add the given roles (bitwise OR) to this entry.
    pub fn grant_roles(&mut self, roles_to_grant: u64, now: i64) -> (r: Result<(), EngineError>)
        ensures
            !roles_valid(roles_to_grant) ==> r == Err::<(), EngineError>(
                EngineError::InvalidRoleBits,
            ) && *final(self) == *old(self),
            roles_valid(roles_to_grant) ==> r == Ok::<(), EngineError>(()) && *final(self)
                == (Authority {
                roles: old(self).roles | roles_to_grant,
                updated_at: now,
                ..*old(self)
            }),
            r is Ok && roles_valid(old(self).roles) ==> roles_valid(final(self).roles),
    {
        Self::validate_roles(roles_to_grant)?;
        proof {
            if roles_valid(self.roles) {
                lemma_role_updates_stay_known(self.roles, roles_to_grant);
            }
        }
        self.roles = self.roles | roles_to_grant;
        self.updated_at = now;
        Ok(())
    }

    /// Remove the given roles (bitwise AND-NOT) from this entry.
    pub fn revoke_roles(&mut self, roles_to_revoke: u64, now: i64) -> (r: Result<(), EngineError>)
        ensures
            r == Ok::<(), EngineError>(()),
            *final(self) == (Authority {
                roles: old(self).roles & !roles_to_revoke,
                updated_at: now,
                ..*old(self)
            }),
            roles_valid(old(self).roles) ==> roles_valid(final(self).roles),
    {
        proof {
            if roles_valid(self.roles) {
                if roles_valid(roles_to_revoke) {
                    lemma_role_updates_stay_known(self.roles, roles_to_revoke);
                } else {
                    let r0: u64 = self.roles;
                    let d0: u64 = roles_to_revoke;
                    assert(roles_valid(r0) ==> roles_valid(r0 & !d0)) by (bit_vector);
                }
            }
        }
        self.roles = self.roles & !roles_to_revoke;
        self.updated_at = now;
        Ok(())
    }

    /// Replace the roles bitmask entirely with a validated new mask.
    pub fn set_roles(&mut self, new_roles: u64, now: i64) -> (r: Result<(), EngineError>)
        ensures
            !roles_valid(new_roles) ==> r == Err::<(), EngineError>(EngineError::InvalidRoleBits)
                && *final(self) == *old(self),
            roles_valid(new_roles) ==> r == Ok::<(), EngineError>(()) && *final(self)
                == (Authority { roles: new_roles, updated_at: now, ..*old(self) }),
            r is Ok ==> roles_valid(final(self).roles),
    {
        Self::validate_roles(new_roles)?;
        self.roles = new_roles;
        self.updated_at = now;
        Ok(())
    }

    /// Clear every role, effectively disabling this entry.
    pub fn clear_roles(&mut self, now: i64) -> (r: Result<(), EngineError>)
        ensures
            r == Ok::<(), EngineError>(()),
            *final(self) == (Authority { roles: 0, updated_at: now, ..*old(self) }),
            roles_valid(final(self).roles),
    {
        proof {
            assert(roles_valid(0u64)) by (bit_vector);
        }
        self.roles = 0;
        self.updated_at = now;
        Ok(())
    }

    /// Replace the scope. Switching to global drops the stored resource.
    pub fn set_scope(&mut self, is_global: bool, resource_scope: Identity, now: i64) -> (r: Result<
        (),
        EngineError,
    >)
        ensures
            r == Ok::<(), EngineError>(()),
            *final(self) == (Authority {
                scope: if is_global {
                    Scope::Global
                } else {
                    Scope::ScopedTo(resource_scope)
                },
                updated_at: now,
                ..*old(self)
            }),
    {
        self.scope = if is_global {
            Scope::Global
        } else {
            Scope::ScopedTo(resource_scope)
        };
        self.updated_at = now;
        Ok(())
    }

    /// Whether this entry holds at least one of the requested roles.
    pub fn has_any_role(&self, roles_mask: u64) -> (r: bool)
        ensures
            r == (self.roles & roles_mask != 0),
    {
        self.roles & roles_mask != 0
    }

    /// Whether this entry holds all of the requested roles.
    pub fn has_all_roles(&self, roles_mask: u64) -> (r: bool)
        ensures
            r == (self.roles & roles_mask == roles_mask),
    {
        self.roles & roles_mask == roles_mask
    }

    /// Whether this entry applies to the given resource.
    pub fn matches_resource(&self, target: &Identity) -> (r: bool)
        ensures
            r == scope_matches(self.scope, *target),
    {
        match self.scope {
            Scope::Global => true,
            Scope::ScopedTo(id) => id == *target,
        }
    }

    /// Whether the signer represented by this entry may perform an action
    /// requiring any of `required_roles` on `resource`. Checked in strict
    /// order: identity first, then scope, then roles, so that a stranger
    /// learns nothing about scope or role assignments.
    pub fn assert_allowed_for_resource(
        &self,
        signer: Identity,
        required_roles: u64,
        resource: &Identity,
    ) -> (r: Result<(), EngineError>)
        ensures
            r is Ok <==> signer == self.authority && scope_matches(self.scope, *resource)
                && self.roles & required_roles != 0,
            signer != self.authority ==> r == Err::<(), EngineError>(EngineError::IdentityMismatch),
            signer == self.authority && !scope_matches(self.scope, *resource) ==> r == Err::<
                (),
                EngineError,
            >(EngineError::ScopeMismatch),
            signer == self.authority && scope_matches(self.scope, *resource) && self.roles
                & required_roles == 0 ==> r == Err::<(), EngineError>(EngineError::InsufficientRole),
    {
        if signer != self.authority {
            return Err(EngineError::IdentityMismatch);
        }
        if !self.matches_resource(resource) {
            return Err(EngineError::ScopeMismatch);
        }
        if !self.has_any_role(required_roles) {
            return Err(EngineError::InsufficientRole);
        }
        Ok(())
    }

    /// Reject a bitmask that carries bits outside the known role set.
    fn validate_roles(roles: u64) -> (r: Result<(), EngineError>)
        ensures
            r is Ok <==> roles_valid(roles),
            !roles_valid(roles) ==> r == Err::<(), EngineError>(EngineError::InvalidRoleBits),
    {
        if roles & !ROLE_ANY != 0 {
            return Err(EngineError::InvalidRoleBits);
        }
        Ok(())
    }
}

} // verus!
