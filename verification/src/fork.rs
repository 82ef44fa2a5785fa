//! Fork accounts: named variants of a deployment with their own metadata.
//!
//! A fork carries a label, a metadata URI and tags, and an activation flag
//! saying whether it may be selected for new flows. Field validation for
//! fork updates lives in the guarded mutation protocol; the mutator here
//! applies already-validated values.

use vstd::prelude::*;

use crate::errors::EngineError;
use crate::ids::Identity;

verus! {

/// A fork account.
#[derive(Clone, Debug)]
pub struct Fork {
    /// Key chosen to identify this fork at registration time.
    pub fork_key: Identity,
    /// Owner identity; only the owner may update the fork state.
    pub owner: Identity,
    /// Human-readable label.
    pub label: String,
    /// URI of the off-chain fork manifest.
    pub metadata_uri: String,
    /// Optional descriptive tags.
    pub tags: String,
    /// Whether this fork may be selected for new flows.
    pub is_active: bool,
    /// When this fork was registered.
    pub created_at: i64,
    /// When any field last changed.
    pub updated_at: i64,
    /// Schema version of this account layout.
    pub schema_version: u8,
}

impl Fork {
    /// Refuse any signer but the stored owner.
    pub fn assert_owner(&self, signer: Identity) -> (r: Result<(), EngineError>)
        ensures
            r is Ok <==> signer == self.owner,
            signer != self.owner ==> r == Err::<(), EngineError>(EngineError::IdentityMismatch),
    {
        if signer != self.owner {
            return Err(EngineError::IdentityMismatch);
        }
        Ok(())
    }

    /// Apply an already-validated partial update: provided fields replace
    /// the stored ones, absent fields stay untouched, and `updated_at` is
    /// re-stamped even when every argument is absent.
    pub fn apply_update(
        &mut self,
        maybe_label: Option<String>,
        maybe_metadata_uri: Option<String>,
        maybe_tags: Option<String>,
        maybe_is_active: Option<bool>,
        now: i64,
    )
        ensures
            *final(self) == (Fork {
                label: (match maybe_label {
                    Some(l) => l,
                    None => old(self).label,
                }),
                metadata_uri: (match maybe_metadata_uri {
                    Some(u) => u,
                    None => old(self).metadata_uri,
                }),
                tags: (match maybe_tags {
                    Some(t) => t,
                    None => old(self).tags,
                }),
                is_active: (match maybe_is_active {
                    Some(b) => b,
                    None => old(self).is_active,
                }),
                updated_at: now,
                ..*old(self)
            }),
    {
        match maybe_label {
            Some(l) => {
                self.label = l;
            },
            None => {},
        }
        match maybe_metadata_uri {
            Some(u) => {
                self.metadata_uri = u;
            },
            None => {},
        }
        match maybe_tags {
            Some(t) => {
                self.tags = t;
            },
            None => {},
        }
        match maybe_is_active {
            Some(b) => {
                self.is_active = b;
            },
            None => {},
        }
        self.updated_at = now;
    }
}

} // verus!
