//! The guarded mutation protocol.
//!
//! Every mutating operation sequences the same guards in front of its
//! mutation: the lifecycle write gate first, then authorization, then the
//! activation check, then field validation; only then does state change,
//! and the timestamp is stamped with the mutation. Lifecycle gating takes
//! precedence over authorization — a frozen deployment refuses even the
//! rightful owner with a lifecycle failure — and authorization precedes
//! content validation. A failure of any step leaves every touched account
//! unmodified.

use vstd::prelude::*;
use vstd::string::StrSliceExecFns;

use crate::config::Config;
use crate::constants::CURRENT_SCHEMA_VERSION;
use crate::constants::MAX_DESCRIPTION_LEN;
use crate::constants::MAX_EXTRA_JSON_LEN;
use crate::constants::MAX_FEE_BPS;
use crate::constants::MAX_FORK_TAGS_LEN;
use crate::constants::MAX_ICON_URI_LEN;
use crate::constants::MAX_LABEL_LEN;
use crate::constants::MAX_METADATA_TAGS_LEN;
use crate::constants::MAX_METADATA_URI_LEN;
use crate::constants::MAX_METADATA_URL_LEN;
use crate::errors::EngineError;
use crate::fork::Fork;
use crate::ids::Identity;
use crate::ids::NoteRef;
use crate::lifecycle::Lifecycle;
use crate::lifecycle::write_gate_error;
use crate::lifecycle::writes_allowed;
use crate::metadata::GlobalMetadata;
use crate::metadata::metadata_is_fresh;
use crate::metrics::Metrics;
use crate::text::is_prefix_of;
use crate::text::str_starts_with;

verus! {

/// Arguments for bootstrapping a fresh deployment.
#[derive(Clone, Copy, PartialEq, Eq, Structural, Debug)]
pub struct InitializeArgs {
    /// Admin identity that will control the deployment.
    pub admin: Identity,
    /// Initial fee in basis points, at most [`MAX_FEE_BPS`].
    pub fee_bps: u16,
    /// Configured per-repository module ceiling hint; at least one.
    pub max_modules_per_repo: u32,
    /// Reference to an off-chain policy document, or all zeros.
    pub policy_ref: NoteRef,
    /// Reference to an off-chain lifecycle note, or all zeros.
    pub lifecycle_note_ref: NoteRef,
}

/// Arguments for a partial update of the global metadata. Only provided
/// fields are validated and applied.
#[derive(Clone, Debug)]
pub struct SetMetadataArgs {
    /// New high-level description.
    pub description: Option<String>,
    /// New comma-separated tag string.
    pub tags: Option<String>,
    /// New canonical website URL.
    pub website_url: Option<String>,
    /// New documentation URL.
    pub docs_url: Option<String>,
    /// New dashboard URL.
    pub dashboard_url: Option<String>,
    /// New icon or logo URI.
    pub icon_uri: Option<String>,
    /// New unstructured extra payload.
    pub extra_json: Option<String>,
}

/// Arguments for a partial update of a fork. Only provided fields are
/// validated and applied.
#[derive(Clone, Debug)]
pub struct UpdateForkStateArgs {
    /// New label.
    pub label: Option<String>,
    /// New metadata URI.
    pub metadata_uri: Option<String>,
    /// New tags string.
    pub tags: Option<String>,
    /// New activation flag.
    pub is_active: Option<bool>,
}

/// A URL of the basic web shape: it starts with `http://` or `https://`.
pub open spec fn basic_url_prefix(s: Seq<char>) -> bool {
    is_prefix_of("http://"@, s) || is_prefix_of("https://"@, s)
}

/// A URI with one of the known schemes: web, IPFS or Arweave.
pub open spec fn known_uri_prefix(s: Seq<char>) -> bool {
    is_prefix_of("http://"@, s) || is_prefix_of("https://"@, s) || is_prefix_of("ipfs://"@, s)
        || is_prefix_of("ar://"@, s)
}

/// Coarse shape check used for web URLs in the global metadata.
pub fn has_basic_url_prefix(url: &str) -> (r: bool)
    ensures
        r == basic_url_prefix(url@),
{
    str_starts_with(url, "http://") || str_starts_with(url, "https://")
}

/// Coarse shape check used for fork manifest and icon URIs.
pub fn has_known_uri_prefix(uri: &str) -> (r: bool)
    ensures
        r == known_uri_prefix(uri@),
{
    str_starts_with(uri, "http://") || str_starts_with(uri, "https://") || str_starts_with(
        uri,
        "ipfs://",
    ) || str_starts_with(uri, "ar://")
}

/// An absent description, or one within its length cap.
pub open spec fn ok_description_opt(o: Option<String>) -> bool {
    match o {
        Some(s) => s@.len() <= MAX_DESCRIPTION_LEN,
        None => true,
    }
}

/// An absent metadata tags string, or one within its length cap.
pub open spec fn ok_meta_tags_opt(o: Option<String>) -> bool {
    match o {
        Some(s) => s@.len() <= MAX_METADATA_TAGS_LEN,
        None => true,
    }
}

/// A valid metadata URL: within its length cap, and of the basic web shape
/// unless left empty.
pub open spec fn valid_meta_url(s: Seq<char>) -> bool {
    s.len() <= MAX_METADATA_URL_LEN && (s.len() == 0 || basic_url_prefix(s))
}

/// An absent metadata URL, or a valid one.
pub open spec fn ok_meta_url_opt(o: Option<String>) -> bool {
    match o {
        Some(s) => valid_meta_url(s@),
        None => true,
    }
}

/// The failure an invalid metadata URL draws: the length cap dominates the
/// shape check.
pub open spec fn meta_url_opt_error(o: Option<String>) -> EngineError {
    match o {
        Some(s) => if s@.len() > MAX_METADATA_URL_LEN {
            EngineError::StringTooLong
        } else {
            EngineError::MalformedUrl
        },
        None => EngineError::StringTooLong,
    }
}

/// A valid icon URI: within its length cap, and of a known scheme unless
/// left empty.
pub open spec fn valid_icon_uri(s: Seq<char>) -> bool {
    s.len() <= MAX_ICON_URI_LEN && (s.len() == 0 || known_uri_prefix(s))
}

/// An absent icon URI, or a valid one.
pub open spec fn ok_icon_uri_opt(o: Option<String>) -> bool {
    match o {
        Some(s) => valid_icon_uri(s@),
        None => true,
    }
}

/// The failure an invalid icon URI draws: the length cap dominates the
/// shape check.
pub open spec fn icon_uri_opt_error(o: Option<String>) -> EngineError {
    match o {
        Some(s) => if s@.len() > MAX_ICON_URI_LEN {
            EngineError::StringTooLong
        } else {
            EngineError::MalformedUrl
        },
        None => EngineError::StringTooLong,
    }
}

/// An absent extra payload, or one within its length cap.
pub open spec fn ok_extra_json_opt(o: Option<String>) -> bool {
    match o {
        Some(s) => s@.len() <= MAX_EXTRA_JSON_LEN,
        None => true,
    }
}

/// Every provided metadata field is valid.
pub open spec fn metadata_args_ok(args: SetMetadataArgs) -> bool {
    ok_description_opt(args.description) && ok_meta_tags_opt(args.tags) && ok_meta_url_opt(
        args.website_url,
    ) && ok_meta_url_opt(args.docs_url) && ok_meta_url_opt(args.dashboard_url) && ok_icon_uri_opt(
        args.icon_uri,
    ) && ok_extra_json_opt(args.extra_json)
}

/// The failure an invalid metadata update draws; the fields are validated
/// in a fixed order: description, tags, website, docs, dashboard, icon,
/// extra payload.
pub open spec fn metadata_args_error(args: SetMetadataArgs) -> EngineError {
    if !ok_description_opt(args.description) {
        EngineError::StringTooLong
    } else if !ok_meta_tags_opt(args.tags) {
        EngineError::StringTooLong
    } else if !ok_meta_url_opt(args.website_url) {
        meta_url_opt_error(args.website_url)
    } else if !ok_meta_url_opt(args.docs_url) {
        meta_url_opt_error(args.docs_url)
    } else if !ok_meta_url_opt(args.dashboard_url) {
        meta_url_opt_error(args.dashboard_url)
    } else if !ok_icon_uri_opt(args.icon_uri) {
        icon_uri_opt_error(args.icon_uri)
    } else {
        EngineError::StringTooLong
    }
}

/// A valid fork label: non-empty and within its length cap.
pub open spec fn valid_label(s: Seq<char>) -> bool {
    0 < s.len() <= MAX_LABEL_LEN
}

/// An absent label, or a valid one.
pub open spec fn ok_label_opt(o: Option<String>) -> bool {
    match o {
        Some(s) => valid_label(s@),
        None => true,
    }
}

/// A valid fork metadata URI: non-empty, within its length cap and of a
/// known scheme.
pub open spec fn valid_fork_uri(s: Seq<char>) -> bool {
    0 < s.len() <= MAX_METADATA_URI_LEN && known_uri_prefix(s)
}

/// An absent fork metadata URI, or a valid one.
pub open spec fn ok_fork_uri_opt(o: Option<String>) -> bool {
    match o {
        Some(s) => valid_fork_uri(s@),
        None => true,
    }
}

/// An absent fork tags string, or one within its length cap.
pub open spec fn ok_fork_tags_opt(o: Option<String>) -> bool {
    match o {
        Some(s) => s@.len() <= MAX_FORK_TAGS_LEN,
        None => true,
    }
}

/// Every provided fork field is valid.
pub open spec fn fork_args_ok(args: UpdateForkStateArgs) -> bool {
    ok_label_opt(args.label) && ok_fork_uri_opt(args.metadata_uri) && ok_fork_tags_opt(args.tags)
}

/// The failure an invalid fork update draws; the fields are validated in a
/// fixed order: label, metadata URI, tags. Emptiness dominates the length
/// cap, which dominates the shape check.
pub open spec fn fork_args_error(args: UpdateForkStateArgs) -> EngineError {
    if !ok_label_opt(args.label) {
        match args.label {
            Some(s) => if s@.len() == 0 {
                EngineError::StringEmpty
            } else {
                EngineError::StringTooLong
            },
            None => EngineError::StringEmpty,
        }
    } else if !ok_fork_uri_opt(args.metadata_uri) {
        match args.metadata_uri {
            Some(s) => if s@.len() == 0 {
                EngineError::StringEmpty
            } else if s@.len() > MAX_METADATA_URI_LEN {
                EngineError::StringTooLong
            } else {
                EngineError::MalformedUrl
            },
            None => EngineError::StringEmpty,
        }
    } else {
        EngineError::StringTooLong
    }
}

/// Bootstrap a fresh deployment: validates the arguments against the
/// provided admin identity, then initializes the configuration, metrics
/// and lifecycle singletons. A refused call leaves all three untouched.
pub fn initialize(
    config: &mut Config,
    metrics: &mut Metrics,
    lifecycle: &mut Lifecycle,
    admin_account: Identity,
    args: &InitializeArgs,
    now: i64,
) -> (r: Result<(), EngineError>)
    ensures
        admin_account != args.admin ==> r == Err::<(), EngineError>(EngineError::IdentityMismatch)
            && *final(config) == *old(config) && *final(metrics) == *old(metrics) && *final(lifecycle) == *old(lifecycle),
        admin_account == args.admin && args.fee_bps > MAX_FEE_BPS ==> r == Err::<(), EngineError>(
            EngineError::ValueOutOfRange,
        ) && *final(config) == *old(config) && *final(metrics) == *old(metrics) && *final(lifecycle) == *old(lifecycle),
        admin_account == args.admin && args.fee_bps <= MAX_FEE_BPS && args.max_modules_per_repo
            == 0 ==> r == Err::<(), EngineError>(EngineError::ValueOutOfRange) && *final(config)
            == *old(config) && *final(metrics) == *old(metrics) && *final(lifecycle) == *old(lifecycle),
        admin_account == args.admin && args.fee_bps <= MAX_FEE_BPS && args.max_modules_per_repo
            > 0 ==> r == Ok::<(), EngineError>(()) && *final(config) == (Config {
            admin: args.admin,
            fee_bps: args.fee_bps,
            max_modules_per_repo: args.max_modules_per_repo,
            policy_ref: args.policy_ref,
            is_active: true,
            created_at: now,
            updated_at: now,
            schema_version: CURRENT_SCHEMA_VERSION,
        }) && *final(metrics) == (Metrics {
            total_repositories: 0,
            total_modules: 0,
            total_observations: 0,
            created_at: now,
            updated_at: now,
            schema_version: CURRENT_SCHEMA_VERSION,
        }) && *final(lifecycle) == (Lifecycle {
            phase: crate::lifecycle::phase_code(crate::lifecycle::LifecyclePhase::Bootstrapping),
            global_freeze: false,
            migration_required: false,
            migration_in_progress: false,
            phase_changed_at: now,
            migration_state_changed_at: 0,
            note_ref: args.lifecycle_note_ref,
            created_at: now,
            updated_at: now,
            schema_version: CURRENT_SCHEMA_VERSION,
        }),
{
    if admin_account != args.admin {
        return Err(EngineError::IdentityMismatch);
    }
    if args.fee_bps > MAX_FEE_BPS {
        return Err(EngineError::ValueOutOfRange);
    }
    if args.max_modules_per_repo == 0 {
        return Err(EngineError::ValueOutOfRange);
    }
    config.init(args.admin, args.fee_bps, args.max_modules_per_repo, args.policy_ref, now)?;
    metrics.init(now)?;
    lifecycle.init(now, args.lifecycle_note_ref)?;
    Ok(())
}

/// Update the global metadata under the full guard sequence: the lifecycle
/// write gate, then the admin check, then the activation check, then field
/// validation. On the first write the account is initialized from the
/// provided fields, absent fields defaulting to empty; afterwards only
/// provided fields are replaced. A refused call leaves the account
/// untouched.
pub fn set_metadata(
    config: &Config,
    lifecycle: &Lifecycle,
    metadata: &mut GlobalMetadata,
    admin: Identity,
    args: SetMetadataArgs,
    now: i64,
) -> (r: Result<(), EngineError>)
    ensures
        !writes_allowed(*lifecycle) ==> r == Err::<(), EngineError>(write_gate_error(*lifecycle))
            && *final(metadata) == *old(metadata),
        writes_allowed(*lifecycle) && admin != config.admin ==> r == Err::<(), EngineError>(
            EngineError::IdentityMismatch,
        ) && *final(metadata) == *old(metadata),
        writes_allowed(*lifecycle) && admin == config.admin && !config.is_active ==> r == Err::<
            (),
            EngineError,
        >(EngineError::ConfigInactive) && *final(metadata) == *old(metadata),
        writes_allowed(*lifecycle) && admin == config.admin && config.is_active
            && !metadata_args_ok(args) ==> r == Err::<(), EngineError>(metadata_args_error(args))
            && *final(metadata) == *old(metadata),
        writes_allowed(*lifecycle) && admin == config.admin && config.is_active
            && metadata_args_ok(args) ==> r == Ok::<(), EngineError>(()),
        r is Ok && metadata_is_fresh(*old(metadata)) ==> final(metadata).description@ == (
        match args.description {
            Some(v) => v@,
            None => Seq::<char>::empty(),
        }) && final(metadata).tags@ == (match args.tags {
            Some(v) => v@,
            None => Seq::<char>::empty(),
        }) && final(metadata).website_url@ == (match args.website_url {
            Some(v) => v@,
            None => Seq::<char>::empty(),
        }) && final(metadata).docs_url@ == (match args.docs_url {
            Some(v) => v@,
            None => Seq::<char>::empty(),
        }) && final(metadata).dashboard_url@ == (match args.dashboard_url {
            Some(v) => v@,
            None => Seq::<char>::empty(),
        }) && final(metadata).icon_uri@ == (match args.icon_uri {
            Some(v) => v@,
            None => Seq::<char>::empty(),
        }) && final(metadata).extra_json@ == (match args.extra_json {
            Some(v) => v@,
            None => Seq::<char>::empty(),
        }) && final(metadata).created_at == now && final(metadata).updated_at == now && final(metadata).schema_version == CURRENT_SCHEMA_VERSION,
        r is Ok && !metadata_is_fresh(*old(metadata)) ==> *final(metadata) == (GlobalMetadata {
            description: (match args.description {
                Some(v) => v,
                None => old(metadata).description,
            }),
            tags: (match args.tags {
                Some(v) => v,
                None => old(metadata).tags,
            }),
            website_url: (match args.website_url {
                Some(v) => v,
                None => old(metadata).website_url,
            }),
            docs_url: (match args.docs_url {
                Some(v) => v,
                None => old(metadata).docs_url,
            }),
            dashboard_url: (match args.dashboard_url {
                Some(v) => v,
                None => old(metadata).dashboard_url,
            }),
            icon_uri: (match args.icon_uri {
                Some(v) => v,
                None => old(metadata).icon_uri,
            }),
            extra_json: (match args.extra_json {
                Some(v) => v,
                None => old(metadata).extra_json,
            }),
            updated_at: now,
            ..*old(metadata)
        }),
{
    lifecycle.assert_writes_allowed()?;
    config.assert_admin(admin)?;
    config.assert_active()?;
    match &args.description {
        Some(d) => {
            if d.as_str().unicode_len() > MAX_DESCRIPTION_LEN {
                return Err(EngineError::StringTooLong);
            }
        },
        None => {},
    }
    match &args.tags {
        Some(t) => {
            if t.as_str().unicode_len() > MAX_METADATA_TAGS_LEN {
                return Err(EngineError::StringTooLong);
            }
        },
        None => {},
    }
    match &args.website_url {
        Some(u) => {
            let s = u.as_str();
            if s.unicode_len() > MAX_METADATA_URL_LEN {
                return Err(EngineError::StringTooLong);
            }
            if !s.is_empty() && !has_basic_url_prefix(s) {
                return Err(EngineError::MalformedUrl);
            }
        },
        None => {},
    }
    match &args.docs_url {
        Some(u) => {
            let s = u.as_str();
            if s.unicode_len() > MAX_METADATA_URL_LEN {
                return Err(EngineError::StringTooLong);
            }
            if !s.is_empty() && !has_basic_url_prefix(s) {
                return Err(EngineError::MalformedUrl);
            }
        },
        None => {},
    }
    match &args.dashboard_url {
        Some(u) => {
            let s = u.as_str();
            if s.unicode_len() > MAX_METADATA_URL_LEN {
                return Err(EngineError::StringTooLong);
            }
            if !s.is_empty() && !has_basic_url_prefix(s) {
                return Err(EngineError::MalformedUrl);
            }
        },
        None => {},
    }
    match &args.icon_uri {
        Some(u) => {
            let s = u.as_str();
            if s.unicode_len() > MAX_ICON_URI_LEN {
                return Err(EngineError::StringTooLong);
            }
            if !s.is_empty() && !has_known_uri_prefix(s) {
                return Err(EngineError::MalformedUrl);
            }
        },
        None => {},
    }
    match &args.extra_json {
        Some(x) => {
            if x.as_str().unicode_len() > MAX_EXTRA_JSON_LEN {
                return Err(EngineError::StringTooLong);
            }
        },
        None => {},
    }
    let is_new = metadata.created_at == 0 && metadata.updated_at == 0;
    if is_new {
        metadata.init(
            match args.description {
                Some(v) => v,
                None => String::new(),
            },
            match args.tags {
                Some(v) => v,
                None => String::new(),
            },
            match args.website_url {
                Some(v) => v,
                None => String::new(),
            },
            match args.docs_url {
                Some(v) => v,
                None => String::new(),
            },
            match args.dashboard_url {
                Some(v) => v,
                None => String::new(),
            },
            match args.icon_uri {
                Some(v) => v,
                None => String::new(),
            },
            match args.extra_json {
                Some(v) => v,
                None => String::new(),
            },
            now,
        );
    } else {
        metadata.apply_update(
            args.description,
            args.tags,
            args.website_url,
            args.docs_url,
            args.dashboard_url,
            args.icon_uri,
            args.extra_json,
            now,
        );
    }
    Ok(())
}

/// Update a fork under the full guard sequence: the lifecycle write gate,
/// then the activation check, then the owner check, then field validation.
/// A refused call leaves the fork untouched.
pub fn update_fork_state(
    config: &Config,
    lifecycle: &Lifecycle,
    fork: &mut Fork,
    owner: Identity,
    args: UpdateForkStateArgs,
    now: i64,
) -> (r: Result<(), EngineError>)
    ensures
        !writes_allowed(*lifecycle) ==> r == Err::<(), EngineError>(write_gate_error(*lifecycle))
            && *final(fork) == *old(fork),
        writes_allowed(*lifecycle) && !config.is_active ==> r == Err::<(), EngineError>(
            EngineError::ConfigInactive,
        ) && *final(fork) == *old(fork),
        writes_allowed(*lifecycle) && config.is_active && owner != old(fork).owner ==> r == Err::<
            (),
            EngineError,
        >(EngineError::IdentityMismatch) && *final(fork) == *old(fork),
        writes_allowed(*lifecycle) && config.is_active && owner == old(fork).owner && !fork_args_ok(
            args,
        ) ==> r == Err::<(), EngineError>(fork_args_error(args)) && *final(fork) == *old(fork),
        writes_allowed(*lifecycle) && config.is_active && owner == old(fork).owner && fork_args_ok(
            args,
        ) ==> r == Ok::<(), EngineError>(()) && *final(fork) == (Fork {
            label: (match args.label {
                Some(l) => l,
                None => old(fork).label,
            }),
            metadata_uri: (match args.metadata_uri {
                Some(u) => u,
                None => old(fork).metadata_uri,
            }),
            tags: (match args.tags {
                Some(t) => t,
                None => old(fork).tags,
            }),
            is_active: (match args.is_active {
                Some(b) => b,
                None => old(fork).is_active,
            }),
            updated_at: now,
            ..*old(fork)
        }),
{
    lifecycle.assert_writes_allowed()?;
    config.assert_active()?;
    fork.assert_owner(owner)?;
    match &args.label {
        Some(l) => {
            let s = l.as_str();
            if s.is_empty() {
                return Err(EngineError::StringEmpty);
            }
            if s.unicode_len() > MAX_LABEL_LEN {
                return Err(EngineError::StringTooLong);
            }
        },
        None => {},
    }
    match &args.metadata_uri {
        Some(u) => {
            let s = u.as_str();
            if s.is_empty() {
                return Err(EngineError::StringEmpty);
            }
            if s.unicode_len() > MAX_METADATA_URI_LEN {
                return Err(EngineError::StringTooLong);
            }
            if !has_known_uri_prefix(s) {
                return Err(EngineError::MalformedUrl);
            }
        },
        None => {},
    }
    match &args.tags {
        Some(t) => {
            if t.as_str().unicode_len() > MAX_FORK_TAGS_LEN {
                return Err(EngineError::StringTooLong);
            }
        },
        None => {},
    }
    fork.apply_update(args.label, args.metadata_uri, args.tags, args.is_active, now);
    Ok(())
}

} // verus!
