//! Compiled numeric ceilings and length caps enforced by the engine.
//!
//! String caps count characters. Counter ceilings are chosen so that the
//! bounded aggregates provably never overflow their machine words: with at
//! most [`SOFT_MAX_OBSERVATIONS_PER_REPO`] observations of at most
//! [`MAX_LOC_PER_OBSERVATION`] lines and [`MAX_FILES_PER_OBSERVATION`] files
//! each, the lifetime totals stay far below `u64::MAX`.

use vstd::prelude::*;

verus! {

/// Schema version stamped into every freshly initialized account.
pub const CURRENT_SCHEMA_VERSION: u8 = 1;

/// Upper bound on a fee expressed in basis points (100% = 10_000 bps).
pub const MAX_FEE_BPS: u16 = 10_000;

/// Maximum length of a repository name.
pub const MAX_NAME_LEN: usize = 64;

/// Maximum length of a repository URL.
pub const MAX_URL_LEN: usize = 200;

/// Maximum length of a repository tags string.
pub const MAX_REPO_TAGS_LEN: usize = 128;

/// Ceiling on the number of modules registered per repository.
pub const DEFAULT_MAX_MODULES_PER_REPO: u32 = 256;

/// Per-call maximum for the lines-of-code argument of an observation.
pub const MAX_LOC_PER_OBSERVATION: u64 = 5_000_000;

/// Per-call maximum for the files-processed argument of an observation.
pub const MAX_FILES_PER_OBSERVATION: u32 = 100_000;

/// Lifetime soft cap on observations recorded per repository.
pub const SOFT_MAX_OBSERVATIONS_PER_REPO: u64 = 1_000_000;

/// Maximum length of a fork label.
pub const MAX_LABEL_LEN: usize = 64;

/// Maximum length of a fork metadata URI.
pub const MAX_METADATA_URI_LEN: usize = 200;

/// Maximum length of a fork tags string.
pub const MAX_FORK_TAGS_LEN: usize = 128;

/// Maximum length of the global metadata description.
pub const MAX_DESCRIPTION_LEN: usize = 256;

/// Maximum length of the global metadata tags string.
pub const MAX_METADATA_TAGS_LEN: usize = 128;

/// Maximum length of each global metadata URL field.
pub const MAX_METADATA_URL_LEN: usize = 200;

/// Maximum length of the global metadata icon URI.
pub const MAX_ICON_URI_LEN: usize = 200;

/// Maximum length of the unstructured extra payload string.
pub const MAX_EXTRA_JSON_LEN: usize = 512;

} // verus!
