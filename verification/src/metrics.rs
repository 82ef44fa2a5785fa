//! The global metrics singleton: deployment-wide aggregate counters.
//!
//! Created once at bootstrap with every counter zeroed. Per-repository
//! aggregation lives on the repository accounts; this account only carries
//! the deployment-wide totals for off-chain indexing.

use vstd::prelude::*;

use crate::constants::CURRENT_SCHEMA_VERSION;
use crate::errors::EngineError;

verus! {

/// The global metrics account.
#[derive(Clone, Copy, PartialEq, Eq, Structural, Debug)]
pub struct Metrics {
    /// Number of repositories registered over the deployment's lifetime.
    pub total_repositories: u64,
    /// Number of modules registered over the deployment's lifetime.
    pub total_modules: u64,
    /// Number of observation runs recorded over the deployment's lifetime.
    pub total_observations: u64,
    /// When this account was created.
    pub created_at: i64,
    /// When any field last changed.
    pub updated_at: i64,
    /// Schema version of this account layout.
    pub schema_version: u8,
}

impl Metrics {
    /// Initialize the metrics account with every counter zeroed.
    pub fn init(&mut self, now: i64) -> (r: Result<(), EngineError>)
        ensures
            r == Ok::<(), EngineError>(()),
            *final(self) == (Metrics {
                total_repositories: 0,
                total_modules: 0,
                total_observations: 0,
                created_at: now,
                updated_at: now,
                schema_version: CURRENT_SCHEMA_VERSION,
            }),
    {
        self.total_repositories = 0;
        self.total_modules = 0;
        self.total_observations = 0;
        self.created_at = now;
        self.updated_at = now;
        self.schema_version = CURRENT_SCHEMA_VERSION;
        Ok(())
    }
}

} // verus!
