use unit09_core::config::Config;
use unit09_core::errors::EngineError;
use unit09_core::fork::Fork;
use unit09_core::ids::Identity;
use unit09_core::ids::NoteRef;
use unit09_core::lifecycle::Lifecycle;
use unit09_core::lifecycle::LifecyclePhase;
use unit09_core::metadata::GlobalMetadata;
use unit09_core::metrics::Metrics;
use unit09_core::protocol::initialize;
use unit09_core::protocol::set_metadata;
use unit09_core::protocol::update_fork_state;
use unit09_core::protocol::has_basic_url_prefix;
use unit09_core::protocol::has_known_uri_prefix;
use unit09_core::protocol::InitializeArgs;
use unit09_core::protocol::SetMetadataArgs;
use unit09_core::protocol::UpdateForkStateArgs;

fn admin() -> Identity {
    Identity { hi: 11, lo: 12 }
}

fn blank_config() -> Config {
    Config {
        admin: Identity { hi: 0, lo: 0 },
        fee_bps: 0,
        max_modules_per_repo: 0,
        policy_ref: NoteRef { hi: 0, lo: 0 },
        is_active: false,
        created_at: 0,
        updated_at: 0,
        schema_version: 0,
    }
}

fn blank_metrics() -> Metrics {
    Metrics {
        total_repositories: 0,
        total_modules: 0,
        total_observations: 0,
        created_at: 0,
        updated_at: 0,
        schema_version: 0,
    }
}

fn blank_lifecycle() -> Lifecycle {
    Lifecycle {
        phase: 0,
        global_freeze: false,
        migration_required: false,
        migration_in_progress: false,
        phase_changed_at: 0,
        migration_state_changed_at: 0,
        note_ref: NoteRef { hi: 0, lo: 0 },
        created_at: 0,
        updated_at: 0,
        schema_version: 0,
    }
}

fn blank_metadata() -> GlobalMetadata {
    GlobalMetadata {
        description: String::new(),
        tags: String::new(),
        website_url: String::new(),
        docs_url: String::new(),
        dashboard_url: String::new(),
        icon_uri: String::new(),
        extra_json: String::new(),
        created_at: 0,
        updated_at: 0,
        schema_version: 0,
    }
}

fn bootstrapped() -> (Config, Metrics, Lifecycle) {
    let mut config = blank_config();
    let mut metrics = blank_metrics();
    let mut lifecycle = blank_lifecycle();
    let args = InitializeArgs {
        admin: admin(),
        fee_bps: 250,
        max_modules_per_repo: 64,
        policy_ref: NoteRef { hi: 1, lo: 0 },
        lifecycle_note_ref: NoteRef { hi: 2, lo: 0 },
    };
    initialize(&mut config, &mut metrics, &mut lifecycle, admin(), &args, 100).unwrap();
    lifecycle.set_phase(LifecyclePhase::Operational, 101).unwrap();
    (config, metrics, lifecycle)
}

fn sample_fork() -> Fork {
    Fork {
        fork_key: Identity { hi: 21, lo: 0 },
        owner: Identity { hi: 22, lo: 0 },
        label: "alpha".to_string(),
        metadata_uri: "ipfs://old-manifest".to_string(),
        tags: "story".to_string(),
        is_active: true,
        created_at: 10,
        updated_at: 10,
        schema_version: 1,
    }
}

fn empty_metadata_args() -> SetMetadataArgs {
    SetMetadataArgs {
        description: None,
        tags: None,
        website_url: None,
        docs_url: None,
        dashboard_url: None,
        icon_uri: None,
        extra_json: None,
    }
}

fn empty_fork_args() -> UpdateForkStateArgs {
    UpdateForkStateArgs {
        label: None,
        metadata_uri: None,
        tags: None,
        is_active: None,
    }
}

#[test]
fn initialize_bootstraps_all_three_singletons() {
    let (config, metrics, lifecycle) = bootstrapped();
    assert_eq!(config.admin, admin());
    assert_eq!(config.fee_bps, 250);
    assert_eq!(config.max_modules_per_repo, 64);
    assert!(config.is_active);
    assert_eq!(config.created_at, 100);
    assert_eq!(metrics.total_repositories, 0);
    assert_eq!(metrics.total_modules, 0);
    assert_eq!(metrics.total_observations, 0);
    assert_eq!(lifecycle.phase, 1);
    assert!(!lifecycle.global_freeze);
    assert_eq!(lifecycle.note_ref, NoteRef { hi: 2, lo: 0 });
}

#[test]
fn initialize_rejects_admin_mismatch() {
    let mut config = blank_config();
    let mut metrics = blank_metrics();
    let mut lifecycle = blank_lifecycle();
    let args = InitializeArgs {
        admin: admin(),
        fee_bps: 0,
        max_modules_per_repo: 1,
        policy_ref: NoteRef { hi: 0, lo: 0 },
        lifecycle_note_ref: NoteRef { hi: 0, lo: 0 },
    };
    assert_eq!(
        initialize(
            &mut config,
            &mut metrics,
            &mut lifecycle,
            Identity { hi: 99, lo: 99 },
            &args,
            100,
        ),
        Err(EngineError::IdentityMismatch)
    );
    assert_eq!(config, blank_config());
    assert_eq!(metrics, blank_metrics());
    assert_eq!(lifecycle, blank_lifecycle());
}

#[test]
fn initialize_rejects_out_of_range_fee_and_zero_ceiling() {
    let mut config = blank_config();
    let mut metrics = blank_metrics();
    let mut lifecycle = blank_lifecycle();
    let mut args = InitializeArgs {
        admin: admin(),
        fee_bps: 10_001,
        max_modules_per_repo: 1,
        policy_ref: NoteRef { hi: 0, lo: 0 },
        lifecycle_note_ref: NoteRef { hi: 0, lo: 0 },
    };
    assert_eq!(
        initialize(&mut config, &mut metrics, &mut lifecycle, admin(), &args, 100),
        Err(EngineError::ValueOutOfRange)
    );
    args.fee_bps = 10_000;
    args.max_modules_per_repo = 0;
    assert_eq!(
        initialize(&mut config, &mut metrics, &mut lifecycle, admin(), &args, 100),
        Err(EngineError::ValueOutOfRange)
    );
    assert_eq!(config, blank_config());
    args.max_modules_per_repo = 1;
    assert_eq!(
        initialize(&mut config, &mut metrics, &mut lifecycle, admin(), &args, 100),
        Ok(())
    );
}

#[test]
fn config_guards() {
    let (config, _, _) = bootstrapped();
    assert_eq!(config.assert_admin(admin()), Ok(()));
    assert_eq!(
        config.assert_admin(Identity { hi: 0, lo: 1 }),
        Err(EngineError::IdentityMismatch)
    );
    assert_eq!(config.assert_active(), Ok(()));
    let mut inactive = config;
    inactive.is_active = false;
    assert_eq!(inactive.assert_active(), Err(EngineError::ConfigInactive));
}

#[test]
fn url_prefix_checks() {
    assert!(has_basic_url_prefix("http://example.org"));
    assert!(has_basic_url_prefix("https://example.org"));
    assert!(!has_basic_url_prefix("ipfs://example"));
    assert!(!has_basic_url_prefix("example.org"));
    assert!(has_known_uri_prefix("ipfs://anything"));
    assert!(has_known_uri_prefix("ar://anything"));
    assert!(has_known_uri_prefix("https://anything"));
    assert!(!has_known_uri_prefix("ftp://anything"));
    assert!(!has_known_uri_prefix(""));
}

#[test]
fn set_metadata_initializes_a_fresh_account() {
    let (config, _, lifecycle) = bootstrapped();
    let mut metadata = blank_metadata();
    let args = SetMetadataArgs {
        description: Some("a deployment".to_string()),
        website_url: Some("https://example.org".to_string()),
        ..empty_metadata_args()
    };
    assert_eq!(
        set_metadata(&config, &lifecycle, &mut metadata, admin(), args, 200),
        Ok(())
    );
    assert_eq!(metadata.description, "a deployment");
    assert_eq!(metadata.website_url, "https://example.org");
    assert_eq!(metadata.tags, "");
    assert_eq!(metadata.docs_url, "");
    assert_eq!(metadata.icon_uri, "");
    assert_eq!(metadata.created_at, 200);
    assert_eq!(metadata.updated_at, 200);
    assert_eq!(metadata.schema_version, 1);
}

#[test]
fn set_metadata_partially_updates_an_existing_account() {
    let (config, _, lifecycle) = bootstrapped();
    let mut metadata = blank_metadata();
    let first = SetMetadataArgs {
        description: Some("a deployment".to_string()),
        website_url: Some("https://example.org".to_string()),
        ..empty_metadata_args()
    };
    set_metadata(&config, &lifecycle, &mut metadata, admin(), first, 200).unwrap();
    let second = SetMetadataArgs {
        icon_uri: Some("ipfs://icon".to_string()),
        ..empty_metadata_args()
    };
    assert_eq!(
        set_metadata(&config, &lifecycle, &mut metadata, admin(), second, 300),
        Ok(())
    );
    assert_eq!(metadata.description, "a deployment");
    assert_eq!(metadata.website_url, "https://example.org");
    assert_eq!(metadata.icon_uri, "ipfs://icon");
    assert_eq!(metadata.created_at, 200);
    assert_eq!(metadata.updated_at, 300);
}

#[test]
fn set_metadata_is_refused_under_freeze_before_authorization() {
    let (config, _, mut lifecycle) = bootstrapped();
    lifecycle.set_global_freeze(true, 150).unwrap();
    let mut metadata = blank_metadata();
    // Even a stranger sees the lifecycle failure, not the identity failure.
    assert_eq!(
        set_metadata(
            &config,
            &lifecycle,
            &mut metadata,
            Identity { hi: 0, lo: 1 },
            empty_metadata_args(),
            200,
        ),
        Err(EngineError::LifecycleBlocked)
    );
    assert_eq!(metadata.created_at, 0);
    assert_eq!(metadata.updated_at, 0);
}

#[test]
fn set_metadata_requires_the_stored_admin() {
    let (config, _, lifecycle) = bootstrapped();
    let mut metadata = blank_metadata();
    assert_eq!(
        set_metadata(
            &config,
            &lifecycle,
            &mut metadata,
            Identity { hi: 0, lo: 1 },
            empty_metadata_args(),
            200,
        ),
        Err(EngineError::IdentityMismatch)
    );
}

#[test]
fn set_metadata_requires_an_active_config() {
    let (mut config, _, lifecycle) = bootstrapped();
    config.is_active = false;
    let mut metadata = blank_metadata();
    assert_eq!(
        set_metadata(&config, &lifecycle, &mut metadata, admin(), empty_metadata_args(), 200),
        Err(EngineError::ConfigInactive)
    );
}

#[test]
fn set_metadata_rejects_shapeless_urls_and_over_long_fields() {
    let (config, _, lifecycle) = bootstrapped();
    let mut metadata = blank_metadata();
    let bad_url = SetMetadataArgs {
        website_url: Some("example.org".to_string()),
        ..empty_metadata_args()
    };
    assert_eq!(
        set_metadata(&config, &lifecycle, &mut metadata, admin(), bad_url, 200),
        Err(EngineError::MalformedUrl)
    );
    let bad_icon = SetMetadataArgs {
        icon_uri: Some("ftp://icon".to_string()),
        ..empty_metadata_args()
    };
    assert_eq!(
        set_metadata(&config, &lifecycle, &mut metadata, admin(), bad_icon, 200),
        Err(EngineError::MalformedUrl)
    );
    let too_long = SetMetadataArgs {
        description: Some("d".repeat(257)),
        ..empty_metadata_args()
    };
    assert_eq!(
        set_metadata(&config, &lifecycle, &mut metadata, admin(), too_long, 200),
        Err(EngineError::StringTooLong)
    );
    // An empty URL is allowed: the shape check applies only when non-empty.
    let empty_url = SetMetadataArgs {
        website_url: Some(String::new()),
        ..empty_metadata_args()
    };
    assert_eq!(
        set_metadata(&config, &lifecycle, &mut metadata, admin(), empty_url, 200),
        Ok(())
    );
    assert_eq!(metadata.created_at, 200);
}

#[test]
fn update_fork_applies_partial_changes() {
    let (config, _, lifecycle) = bootstrapped();
    let mut fork = sample_fork();
    let args = UpdateForkStateArgs {
        label: Some("beta".to_string()),
        metadata_uri: Some("ar://new-manifest".to_string()),
        tags: None,
        is_active: Some(false),
    };
    assert_eq!(
        update_fork_state(&config, &lifecycle, &mut fork, Identity { hi: 22, lo: 0 }, args, 400),
        Ok(())
    );
    assert_eq!(fork.label, "beta");
    assert_eq!(fork.metadata_uri, "ar://new-manifest");
    assert_eq!(fork.tags, "story");
    assert!(!fork.is_active);
    assert_eq!(fork.created_at, 10);
    assert_eq!(fork.updated_at, 400);
}

#[test]
fn update_fork_with_all_fields_absent_changes_only_updated_at() {
    let (config, _, lifecycle) = bootstrapped();
    let mut fork = sample_fork();
    assert_eq!(
        update_fork_state(
            &config,
            &lifecycle,
            &mut fork,
            Identity { hi: 22, lo: 0 },
            empty_fork_args(),
            400,
        ),
        Ok(())
    );
    assert_eq!(fork.label, "alpha");
    assert_eq!(fork.metadata_uri, "ipfs://old-manifest");
    assert_eq!(fork.tags, "story");
    assert!(fork.is_active);
    assert_eq!(fork.updated_at, 400);
}

#[test]
fn update_fork_is_owner_gated_after_the_lifecycle_gate() {
    let (config, _, mut lifecycle) = bootstrapped();
    let mut fork = sample_fork();
    assert_eq!(
        update_fork_state(
            &config,
            &lifecycle,
            &mut fork,
            Identity { hi: 1, lo: 1 },
            empty_fork_args(),
            400,
        ),
        Err(EngineError::IdentityMismatch)
    );
    lifecycle.require_migration(150).unwrap();
    // With a migration pending, even the owner sees the lifecycle failure.
    assert_eq!(
        update_fork_state(
            &config,
            &lifecycle,
            &mut fork,
            Identity { hi: 22, lo: 0 },
            empty_fork_args(),
            400,
        ),
        Err(EngineError::LifecycleBlocked)
    );
    assert_eq!(fork.updated_at, 10);
}

#[test]
fn update_fork_validates_label_and_uri_without_any_change() {
    let (config, _, lifecycle) = bootstrapped();
    let mut fork = sample_fork();
    let owner = Identity { hi: 22, lo: 0 };
    let empty_label = UpdateForkStateArgs {
        label: Some(String::new()),
        ..empty_fork_args()
    };
    assert_eq!(
        update_fork_state(&config, &lifecycle, &mut fork, owner, empty_label, 400),
        Err(EngineError::StringEmpty)
    );
    let long_label = UpdateForkStateArgs {
        label: Some("l".repeat(65)),
        ..empty_fork_args()
    };
    assert_eq!(
        update_fork_state(&config, &lifecycle, &mut fork, owner, long_label, 400),
        Err(EngineError::StringTooLong)
    );
    let bad_uri = UpdateForkStateArgs {
        metadata_uri: Some("gopher://x".to_string()),
        ..empty_fork_args()
    };
    assert_eq!(
        update_fork_state(&config, &lifecycle, &mut fork, owner, bad_uri, 400),
        Err(EngineError::MalformedUrl)
    );
    assert_eq!(fork.label, "alpha");
    assert_eq!(fork.metadata_uri, "ipfs://old-manifest");
    assert_eq!(fork.updated_at, 10);
}
