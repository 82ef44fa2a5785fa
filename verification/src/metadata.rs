//! The global human-facing metadata singleton.
//!
//! Descriptive fields for websites, explorers and dashboards. The account
//! is created lazily on the first metadata write; a fresh account is
//! recognized by both timestamps still being zero. Field validation lives
//! in the guarded mutation protocol; the mutators here apply
//! already-validated values.

use vstd::prelude::*;

use crate::constants::CURRENT_SCHEMA_VERSION;

verus! {

/// The global metadata account.
#[derive(Clone, Debug)]
pub struct GlobalMetadata {
    /// High-level description of the deployment.
    pub description: String,
    /// Comma-separated tag string.
    pub tags: String,
    /// Canonical website URL.
    pub website_url: String,
    /// Documentation URL.
    pub docs_url: String,
    /// Dashboard URL.
    pub dashboard_url: String,
    /// Icon or logo URI.
    pub icon_uri: String,
    /// Unstructured extra payload, stored as a string.
    pub extra_json: String,
    /// When this account was first written.
    pub created_at: i64,
    /// When any field last changed.
    pub updated_at: i64,
    /// Schema version of this account layout.
    pub schema_version: u8,
}

/// A metadata account that was never written: both timestamps are zero.
pub open spec fn metadata_is_fresh(m: GlobalMetadata) -> bool {
    m.created_at == 0 && m.updated_at == 0
}

impl GlobalMetadata {
    /// First-time initialization with already-validated fields.
    pub fn init(
        &mut self,
        description: String,
        tags: String,
        website_url: String,
        docs_url: String,
        dashboard_url: String,
        icon_uri: String,
        extra_json: String,
        now: i64,
    )
        ensures
            *final(self) == (GlobalMetadata {
                description: description,
                tags: tags,
                website_url: website_url,
                docs_url: docs_url,
                dashboard_url: dashboard_url,
                icon_uri: icon_uri,
                extra_json: extra_json,
                created_at: now,
                updated_at: now,
                schema_version: CURRENT_SCHEMA_VERSION,
            }),
    {
        self.description = description;
        self.tags = tags;
        self.website_url = website_url;
        self.docs_url = docs_url;
        self.dashboard_url = dashboard_url;
        self.icon_uri = icon_uri;
        self.extra_json = extra_json;
        self.created_at = now;
        self.updated_at = now;
        self.schema_version = CURRENT_SCHEMA_VERSION;
    }

    /// Apply an already-validated partial update: provided fields replace
    /// the stored ones, absent fields stay untouched, and `updated_at` is
    /// re-stamped even when every argument is absent.
    pub fn apply_update(
        &mut self,
        maybe_description: Option<String>,
        maybe_tags: Option<String>,
        maybe_website_url: Option<String>,
        maybe_docs_url: Option<String>,
        maybe_dashboard_url: Option<String>,
        maybe_icon_uri: Option<String>,
        maybe_extra_json: Option<String>,
        now: i64,
    )
        ensures
            *final(self) == (GlobalMetadata {
                description: (match maybe_description {
                    Some(v) => v,
                    None => old(self).description,
                }),
                tags: (match maybe_tags {
                    Some(v) => v,
                    None => old(self).tags,
                }),
                website_url: (match maybe_website_url {
                    Some(v) => v,
                    None => old(self).website_url,
                }),
                docs_url: (match maybe_docs_url {
                    Some(v) => v,
                    None => old(self).docs_url,
                }),
                dashboard_url: (match maybe_dashboard_url {
                    Some(v) => v,
                    None => old(self).dashboard_url,
                }),
                icon_uri: (match maybe_icon_uri {
                    Some(v) => v,
                    None => old(self).icon_uri,
                }),
                extra_json: (match maybe_extra_json {
                    Some(v) => v,
                    None => old(self).extra_json,
                }),
                updated_at: now,
                ..*old(self)
            }),
    {
        match maybe_description {
            Some(v) => {
                self.description = v;
            },
            None => {},
        }
        match maybe_tags {
            Some(v) => {
                self.tags = v;
            },
            None => {},
        }
        match maybe_website_url {
            Some(v) => {
                self.website_url = v;
            },
            None => {},
        }
        match maybe_docs_url {
            Some(v) => {
                self.docs_url = v;
            },
            None => {},
        }
        match maybe_dashboard_url {
            Some(v) => {
                self.dashboard_url = v;
            },
            None => {},
        }
        match maybe_icon_uri {
            Some(v) => {
                self.icon_uri = v;
            },
            None => {},
        }
        match maybe_extra_json {
            Some(v) => {
                self.extra_json = v;
            },
            None => {},
        }
        self.updated_at = now;
    }
}

} // verus!
