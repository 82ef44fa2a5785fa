//! The global configuration singleton.
//!
//! Created once at bootstrap, mutated only by the stored admin. It carries
//! the deployment-wide numeric bounds and the activation switch that the
//! guarded mutation protocol checks after the lifecycle gate.

use vstd::prelude::*;

use crate::constants::CURRENT_SCHEMA_VERSION;
use crate::constants::MAX_FEE_BPS;
use crate::errors::EngineError;
use crate::ids::Identity;
use crate::ids::NoteRef;

verus! {

/// The global configuration account.
#[derive(Clone, Copy, PartialEq, Eq, Structural, Debug)]
pub struct Config {
    /// Admin identity controlling configuration and admin-only operations.
    pub admin: Identity,
    /// Fee in basis points, at most [`MAX_FEE_BPS`].
    pub fee_bps: u16,
    /// Configured per-repository module ceiling hint for off-chain tooling;
    /// at least one.
    pub max_modules_per_repo: u32,
    /// Reference to an off-chain policy document.
    pub policy_ref: NoteRef,
    /// Whether the deployment is active.
    pub is_active: bool,
    /// When this account was created.
    pub created_at: i64,
    /// When any field last changed.
    pub updated_at: i64,
    /// Schema version of this account layout.
    pub schema_version: u8,
}

impl Config {
    /// Initialize the configuration: validates the fee bound and the module
    /// ceiling, stores the admin and activates the deployment.
    pub fn init(
        &mut self,
        admin: Identity,
        fee_bps: u16,
        max_modules_per_repo: u32,
        policy_ref: NoteRef,
        now: i64,
    ) -> (r: Result<(), EngineError>)
        ensures
            fee_bps > MAX_FEE_BPS ==> r == Err::<(), EngineError>(EngineError::ValueOutOfRange)
                && *final(self) == *old(self),
            fee_bps <= MAX_FEE_BPS && max_modules_per_repo == 0 ==> r == Err::<(), EngineError>(
                EngineError::ValueOutOfRange,
            ) && *final(self) == *old(self),
            fee_bps <= MAX_FEE_BPS && max_modules_per_repo > 0 ==> r == Ok::<(), EngineError>(())
                && *final(self) == (Config {
                admin: admin,
                fee_bps: fee_bps,
                max_modules_per_repo: max_modules_per_repo,
                policy_ref: policy_ref,
                is_active: true,
                created_at: now,
                updated_at: now,
                schema_version: CURRENT_SCHEMA_VERSION,
            }),
    {
        if fee_bps > MAX_FEE_BPS {
            return Err(EngineError::ValueOutOfRange);
        }
        if max_modules_per_repo == 0 {
            return Err(EngineError::ValueOutOfRange);
        }
        self.admin = admin;
        self.fee_bps = fee_bps;
        self.max_modules_per_repo = max_modules_per_repo;
        self.policy_ref = policy_ref;
        self.is_active = true;
        self.created_at = now;
        self.updated_at = now;
        self.schema_version = CURRENT_SCHEMA_VERSION;
        Ok(())
    }

    /// Refuse any signer but the stored admin.
    pub fn assert_admin(&self, signer: Identity) -> (r: Result<(), EngineError>)
        ensures
            r is Ok <==> signer == self.admin,
            signer != self.admin ==> r == Err::<(), EngineError>(EngineError::IdentityMismatch),
    {
        if signer != self.admin {
            return Err(EngineError::IdentityMismatch);
        }
        Ok(())
    }

    /// Refuse a deactivated deployment.
    pub fn assert_active(&self) -> (r: Result<(), EngineError>)
        ensures
            r is Ok <==> self.is_active,
            !self.is_active ==> r == Err::<(), EngineError>(EngineError::ConfigInactive),
    {
        if !self.is_active {
            return Err(EngineError::ConfigInactive);
        }
        Ok(())
    }
}

} // verus!
