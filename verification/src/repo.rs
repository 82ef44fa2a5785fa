//! Repository accounts: owner-gated metadata and bounded aggregate counters.
//!
//! A [`Repo`] tracks one observed codebase. Its counters are monotonic
//! except for an explicit reconciliation decrement, every counter mutation
//! uses checked arithmetic that fails closed, and a refused call leaves
//! every field at its prior value.

use vstd::prelude::*;
use vstd::string::StrSliceExecFns;

use crate::constants::CURRENT_SCHEMA_VERSION;
use crate::constants::DEFAULT_MAX_MODULES_PER_REPO;
use crate::constants::MAX_FILES_PER_OBSERVATION;
use crate::constants::MAX_LOC_PER_OBSERVATION;
use crate::constants::MAX_NAME_LEN;
use crate::constants::MAX_REPO_TAGS_LEN;
use crate::constants::MAX_URL_LEN;
use crate::constants::SOFT_MAX_OBSERVATIONS_PER_REPO;
use crate::errors::EngineError;
use crate::ids::Identity;
use crate::text::contains_char;
use crate::text::contains_seq;
use crate::text::str_contains_char;
use crate::text::str_contains_seq;

verus! {

/// A valid repository name: non-empty and within the length cap.
pub open spec fn valid_name(s: Seq<char>) -> bool {
    0 < s.len() <= MAX_NAME_LEN
}

/// The failure a name draws when it is not valid: emptiness dominates.
pub open spec fn name_error(s: Seq<char>) -> EngineError {
    if s.len() == 0 {
        EngineError::StringEmpty
    } else {
        EngineError::StringTooLong
    }
}

/// A valid repository URL: non-empty, within the length cap, and of a
/// coarse URL shape — it contains a scheme separator and a dot.
pub open spec fn valid_url(s: Seq<char>) -> bool {
    0 < s.len() <= MAX_URL_LEN && contains_seq(s, "://"@) && contains_char(s, '.')
}

/// The failure a URL draws when it is not valid: emptiness dominates the
/// length cap, which dominates the shape check.
pub open spec fn url_error(s: Seq<char>) -> EngineError {
    if s.len() == 0 {
        EngineError::StringEmpty
    } else if s.len() > MAX_URL_LEN {
        EngineError::StringTooLong
    } else {
        EngineError::MalformedUrl
    }
}

/// A valid repository tags string: within the length cap; may be empty.
pub open spec fn valid_tags(s: Seq<char>) -> bool {
    s.len() <= MAX_REPO_TAGS_LEN
}

/// An absent name, or a present and valid one.
pub open spec fn ok_name_opt(o: Option<String>) -> bool {
    match o {
        Some(n) => valid_name(n@),
        None => true,
    }
}

/// An absent URL, or a present and valid one.
pub open spec fn ok_url_opt(o: Option<String>) -> bool {
    match o {
        Some(u) => valid_url(u@),
        None => true,
    }
}

/// An absent tags string, or a present and valid one.
pub open spec fn ok_tags_opt(o: Option<String>) -> bool {
    match o {
        Some(t) => valid_tags(t@),
        None => true,
    }
}

/// The failure a partial update draws when some provided field is invalid:
/// the name is validated first, then the URL, then the tags.
pub open spec fn update_error(
    maybe_name: Option<String>,
    maybe_url: Option<String>,
    maybe_tags: Option<String>,
) -> EngineError {
    match maybe_name {
        Some(n) => if !valid_name(n@) {
            name_error(n@)
        } else {
            update_url_tags_error(maybe_url, maybe_tags)
        },
        None => update_url_tags_error(maybe_url, maybe_tags),
    }
}

/// The failure a partial update draws once the name is known good.
pub open spec fn update_url_tags_error(
    maybe_url: Option<String>,
    maybe_tags: Option<String>,
) -> EngineError {
    match maybe_url {
        Some(u) => if !valid_url(u@) {
            url_error(u@)
        } else {
            EngineError::StringTooLong
        },
        None => EngineError::StringTooLong,
    }
}

/// True when a per-call observation argument exceeds its maximum.
pub open spec fn observation_args_too_large(lines_of_code: u64, files_processed: u32) -> bool {
    lines_of_code > MAX_LOC_PER_OBSERVATION || files_processed > MAX_FILES_PER_OBSERVATION
}

/// The counter invariant of a well-formed repository: both counts respect
/// their ceilings, and each lifetime total is at most what that many
/// observations of maximal size can produce. Registration establishes it,
/// every counter mutation preserves it, and under it no checked addition
/// in [`Repo::record_observation`] can ever fail.
pub open spec fn counters_within_bounds(r: Repo) -> bool {
    r.module_count <= DEFAULT_MAX_MODULES_PER_REPO && r.observation_count
        <= SOFT_MAX_OBSERVATIONS_PER_REPO && r.total_lines_of_code <= r.observation_count
        * MAX_LOC_PER_OBSERVATION && r.total_files_processed <= r.observation_count * (
    MAX_FILES_PER_OBSERVATION as u64)
}

/// A repository account.
#[derive(Clone, Debug)]
pub struct Repo {
    /// Key chosen to identify this repository at registration time.
    pub repo_key: Identity,
    /// Authority that controls metadata and activation for this repository.
    pub authority: Identity,
    /// Human-readable name.
    pub name: String,
    /// URL pointing to the codebase.
    pub url: String,
    /// Optional descriptive tags.
    pub tags: String,
    /// Whether this repository is active; inactive ones are only deactivated,
    /// never deleted.
    pub is_active: bool,
    /// Whether automated observation runs are allowed.
    pub allow_observation: bool,
    /// Number of modules registered, at most the configured ceiling.
    pub module_count: u32,
    /// Number of observation runs recorded, at most the soft cap.
    pub observation_count: u64,
    /// Lines of code aggregated over all observations.
    pub total_lines_of_code: u64,
    /// Files processed aggregated over all observations.
    pub total_files_processed: u64,
    /// When this repository was registered.
    pub created_at: i64,
    /// When any field last changed.
    pub updated_at: i64,
    /// Schema version of this account layout.
    pub schema_version: u8,
}

impl Repo {
    /// Register a repository: validates every text field, activates the
    /// account, zeroes the counters and stamps both timestamps.
    pub fn init(
        &mut self,
        repo_key: Identity,
        authority: Identity,
        name: String,
        url: String,
        tags: String,
        allow_observation: bool,
        now: i64,
    ) -> (r: Result<(), EngineError>)
        ensures
            r is Ok <==> valid_name(name@) && valid_url(url@) && valid_tags(tags@),
            !valid_name(name@) ==> r == Err::<(), EngineError>(name_error(name@)) && *final(self)
                == *old(self),
            valid_name(name@) && !valid_url(url@) ==> r == Err::<(), EngineError>(url_error(url@))
                && *final(self) == *old(self),
            valid_name(name@) && valid_url(url@) && !valid_tags(tags@) ==> r == Err::<
                (),
                EngineError,
            >(EngineError::StringTooLong) && *final(self) == *old(self),
            r is Ok ==> counters_within_bounds(*final(self)),
            r is Ok ==> *final(self) == (Repo {
                repo_key: repo_key,
                authority: authority,
                name: name,
                url: url,
                tags: tags,
                is_active: true,
                allow_observation: allow_observation,
                module_count: 0,
                observation_count: 0,
                total_lines_of_code: 0,
                total_files_processed: 0,
                created_at: now,
                updated_at: now,
                schema_version: CURRENT_SCHEMA_VERSION,
            }),
    {
        Self::validate_name(name.as_str())?;
        Self::validate_url(url.as_str())?;
        Self::validate_tags(tags.as_str())?;
        self.repo_key = repo_key;
        self.authority = authority;
        self.name = name;
        self.url = url;
        self.tags = tags;
        self.is_active = true;
        self.allow_observation = allow_observation;
        self.module_count = 0;
        self.observation_count = 0;
        self.total_lines_of_code = 0;
        self.total_files_processed = 0;
        self.created_at = now;
        self.updated_at = now;
        self.schema_version = CURRENT_SCHEMA_VERSION;
        Ok(())
    }

    /// Apply a partial metadata update: every provided field is validated
    /// before anything is applied, so a refused call changes nothing; a
    /// successful call re-stamps `updated_at` even when every argument is
    /// absent, and changes nothing else in that case.
    pub fn apply_update(
        &mut self,
        maybe_name: Option<String>,
        maybe_url: Option<String>,
        maybe_tags: Option<String>,
        maybe_is_active: Option<bool>,
        maybe_allow_observation: Option<bool>,
        now: i64,
    ) -> (r: Result<(), EngineError>)
        ensures
            r is Ok <==> ok_name_opt(maybe_name) && ok_url_opt(maybe_url) && ok_tags_opt(
                maybe_tags,
            ),
            r is Err ==> *final(self) == *old(self) && r == Err::<(), EngineError>(
                update_error(maybe_name, maybe_url, maybe_tags),
            ),
            r is Ok ==> *final(self) == (Repo {
                name: (match maybe_name {
                    Some(n) => n,
                    None => old(self).name,
                }),
                url: (match maybe_url {
                    Some(u) => u,
                    None => old(self).url,
                }),
                tags: (match maybe_tags {
                    Some(t) => t,
                    None => old(self).tags,
                }),
                is_active: (match maybe_is_active {
                    Some(b) => b,
                    None => old(self).is_active,
                }),
                allow_observation: (match maybe_allow_observation {
                    Some(b) => b,
                    None => old(self).allow_observation,
                }),
                updated_at: now,
                ..*old(self)
            }),
    {
        match &maybe_name {
            Some(n) => {
                Self::validate_name(n.as_str())?;
            },
            None => {},
        }
        match &maybe_url {
            Some(u) => {
                Self::validate_url(u.as_str())?;
            },
            None => {},
        }
        match &maybe_tags {
            Some(t) => {
                Self::validate_tags(t.as_str())?;
            },
            None => {},
        }
        match maybe_name {
            Some(n) => {
                self.name = n;
            },
            None => {},
        }
        match maybe_url {
            Some(u) => {
                self.url = u;
            },
            None => {},
        }
        match maybe_tags {
            Some(t) => {
                self.tags = t;
            },
            None => {},
        }
        match maybe_is_active {
            Some(b) => {
                self.is_active = b;
            },
            None => {},
        }
        match maybe_allow_observation {
            Some(b) => {
                self.allow_observation = b;
            },
            None => {},
        }
        self.updated_at = now;
        Ok(())
    }

    /// Refuse any signer but the stored authority.
    pub fn assert_authority(&self, signer: Identity) -> (r: Result<(), EngineError>)
        ensures
            r is Ok <==> signer == self.authority,
            signer != self.authority ==> r == Err::<(), EngineError>(EngineError::IdentityMismatch),
    {
        if signer != self.authority {
            return Err(EngineError::IdentityMismatch);
        }
        Ok(())
    }

    /// Refuse a deactivated repository.
    pub fn assert_active(&self) -> (r: Result<(), EngineError>)
        ensures
            r is Ok <==> self.is_active,
            !self.is_active ==> r == Err::<(), EngineError>(EngineError::RepoInactive),
    {
        if !self.is_active {
            return Err(EngineError::RepoInactive);
        }
        Ok(())
    }

    /// Refuse a repository that does not allow observation runs.
    pub fn assert_observation_allowed(&self) -> (r: Result<(), EngineError>)
        ensures
            r is Ok <==> self.allow_observation,
            !self.allow_observation ==> r == Err::<(), EngineError>(
                EngineError::ObservationNotAllowed,
            ),
    {
        if !self.allow_observation {
            return Err(EngineError::ObservationNotAllowed);
        }
        Ok(())
    }

    /// Count one more registered module. The checked add fails closed, and
    /// the call that would push the counter past the ceiling fails with the
    /// counter unchanged, so the counter never exceeds the ceiling.
    pub fn increment_module_count(&mut self) -> (r: Result<(), EngineError>)
        ensures
            old(self).module_count == u32::MAX ==> r == Err::<(), EngineError>(
                EngineError::CounterOverflow,
            ) && *final(self) == *old(self),
            old(self).module_count < u32::MAX && old(self).module_count + 1
                > DEFAULT_MAX_MODULES_PER_REPO ==> r == Err::<(), EngineError>(
                EngineError::ResourceLimitReached,
            ) && *final(self) == *old(self),
            old(self).module_count + 1 <= DEFAULT_MAX_MODULES_PER_REPO ==> r == Ok::<
                (),
                EngineError,
            >(()) && *final(self) == (Repo {
                module_count: (old(self).module_count + 1) as u32,
                ..*old(self)
            }),
            counters_within_bounds(*old(self)) ==> counters_within_bounds(*final(self)),
    {
        let new_value = match self.module_count.checked_add(1) {
            Some(v) => v,
            None => {
                return Err(EngineError::CounterOverflow);
            },
        };
        if new_value > DEFAULT_MAX_MODULES_PER_REPO {
            return Err(EngineError::ResourceLimitReached);
        }
        self.module_count = new_value;
        Ok(())
    }

    /// Uncount one module, for reconciliation after an archival. The checked
    /// subtraction fails closed on underflow.
    pub fn decrement_module_count(&mut self) -> (r: Result<(), EngineError>)
        ensures
            old(self).module_count == 0 ==> r == Err::<(), EngineError>(
                EngineError::CounterOverflow,
            ) && *final(self) == *old(self),
            old(self).module_count > 0 ==> r == Ok::<(), EngineError>(()) && *final(self) == (Repo {
                module_count: (old(self).module_count - 1) as u32,
                ..*old(self)
            }),
            counters_within_bounds(*old(self)) ==> counters_within_bounds(*final(self)),
    {
        let new_value = match self.module_count.checked_sub(1) {
            Some(v) => v,
            None => {
                return Err(EngineError::CounterOverflow);
            },
        };
        self.module_count = new_value;
        Ok(())
    }

    /// Record one observation run. Every check runs before any total is
    /// touched: a refused call — an over-limit argument, the soft cap, or a
    /// checked add that would wrap — leaves the count and both totals at
    /// their prior values.
    pub fn record_observation(&mut self, lines_of_code: u64, files_processed: u32) -> (r: Result<
        (),
        EngineError,
    >)
        ensures
            observation_args_too_large(lines_of_code, files_processed) ==> r == Err::<
                (),
                EngineError,
            >(EngineError::DataTooLarge) && *final(self) == *old(self),
            !observation_args_too_large(lines_of_code, files_processed) && old(
                self,
            ).observation_count == u64::MAX ==> r == Err::<(), EngineError>(
                EngineError::CounterOverflow,
            ) && *final(self) == *old(self),
            !observation_args_too_large(lines_of_code, files_processed) && old(
                self,
            ).observation_count < u64::MAX && old(self).observation_count + 1
                > SOFT_MAX_OBSERVATIONS_PER_REPO ==> r == Err::<(), EngineError>(
                EngineError::ObservationLimitReached,
            ) && *final(self) == *old(self),
            !observation_args_too_large(lines_of_code, files_processed) && old(
                self,
            ).observation_count + 1 <= SOFT_MAX_OBSERVATIONS_PER_REPO && old(
                self,
            ).total_lines_of_code + lines_of_code > u64::MAX ==> r == Err::<(), EngineError>(
                EngineError::CounterOverflow,
            ) && *final(self) == *old(self),
            !observation_args_too_large(lines_of_code, files_processed) && old(
                self,
            ).observation_count + 1 <= SOFT_MAX_OBSERVATIONS_PER_REPO && old(
                self,
            ).total_lines_of_code + lines_of_code <= u64::MAX && old(self).total_files_processed
                + files_processed > u64::MAX ==> r == Err::<(), EngineError>(
                EngineError::CounterOverflow,
            ) && *final(self) == *old(self),
            !observation_args_too_large(lines_of_code, files_processed) && old(
                self,
            ).observation_count + 1 <= SOFT_MAX_OBSERVATIONS_PER_REPO && old(
                self,
            ).total_lines_of_code + lines_of_code <= u64::MAX && old(self).total_files_processed
                + files_processed <= u64::MAX ==> r == Ok::<(), EngineError>(()) && *final(self)
                == (Repo {
                observation_count: (old(self).observation_count + 1) as u64,
                total_lines_of_code: (old(self).total_lines_of_code + lines_of_code) as u64,
                total_files_processed: (old(self).total_files_processed + files_processed) as u64,
                ..*old(self)
            }),
            counters_within_bounds(*old(self)) ==> counters_within_bounds(*final(self)),
    {
        if lines_of_code > MAX_LOC_PER_OBSERVATION {
            return Err(EngineError::DataTooLarge);
        }
        if files_processed > MAX_FILES_PER_OBSERVATION {
            return Err(EngineError::DataTooLarge);
        }
        let new_count = match self.observation_count.checked_add(1) {
            Some(v) => v,
            None => {
                return Err(EngineError::CounterOverflow);
            },
        };
        if new_count > SOFT_MAX_OBSERVATIONS_PER_REPO {
            return Err(EngineError::ObservationLimitReached);
        }
        let new_lines = match self.total_lines_of_code.checked_add(lines_of_code) {
            Some(v) => v,
            None => {
                return Err(EngineError::CounterOverflow);
            },
        };
        let new_files = match self.total_files_processed.checked_add(files_processed as u64) {
            Some(v) => v,
            None => {
                return Err(EngineError::CounterOverflow);
            },
        };
        self.observation_count = new_count;
        self.total_lines_of_code = new_lines;
        self.total_files_processed = new_files;
        Ok(())
    }

    /// Reject an empty or over-long repository name.
    fn validate_name(name: &str) -> (r: Result<(), EngineError>)
        ensures
            r is Ok <==> valid_name(name@),
            !valid_name(name@) ==> r == Err::<(), EngineError>(name_error(name@)),
    {
        if name.is_empty() {
            return Err(EngineError::StringEmpty);
        }
        if name.unicode_len() > MAX_NAME_LEN {
            return Err(EngineError::StringTooLong);
        }
        Ok(())
    }

    /// Reject an empty, over-long or shapeless repository URL.
    fn validate_url(url: &str) -> (r: Result<(), EngineError>)
        ensures
            r is Ok <==> valid_url(url@),
            !valid_url(url@) ==> r == Err::<(), EngineError>(url_error(url@)),
    {
        if url.is_empty() {
            return Err(EngineError::StringEmpty);
        }
        if url.unicode_len() > MAX_URL_LEN {
            return Err(EngineError::StringTooLong);
        }
        if !str_contains_seq(url, "://") || !str_contains_char(url, '.') {
            return Err(EngineError::MalformedUrl);
        }
        Ok(())
    }

    /// Reject an over-long tags string.
    fn validate_tags(tags: &str) -> (r: Result<(), EngineError>)
        ensures
            r is Ok <==> valid_tags(tags@),
            !valid_tags(tags@) ==> r == Err::<(), EngineError>(EngineError::StringTooLong),
    {
        if tags.unicode_len() > MAX_REPO_TAGS_LEN {
            return Err(EngineError::StringTooLong);
        }
        Ok(())
    }
}

} // verus!
