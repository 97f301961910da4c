use framework::client::{GenesisInfo, UncConfig};
use framework::config::{ChainDefaults, ChainKind, ComponentDefaults, Config, GcConfig, NetworkSettings, RpcConfig, StoreSettings, TelemetryConfig};
use framework::duration::Duration;
use framework::load::{check_loaded_files, ConfigIssue, GenesisState, IssueKind, ValidatorKeyState};

fn chain_defaults() -> ChainDefaults {
    ChainDefaults {
        header_sync_initial_timeout: Duration::from_secs(10),
        header_sync_progress_timeout: Duration::from_secs(2),
        header_sync_stall_ban_timeout: Duration::from_secs(120),
        state_sync_timeout: Duration::from_secs(60),
        header_sync_expected_height_per_second: 10,
        sync_check_period: Duration::from_secs(10),
        sync_step_period: Duration::from_millis(10),
        sync_height_threshold: 1,
        log_summary_period: Duration::from_secs(10),
        gc: GcConfig { gc_blocks_limit: 2, gc_fork_clean_step: 100, gc_num_epochs_to_keep: 5 },
        view_client_threads: 4,
        view_client_throttle_period: Duration::from_secs(30),
        trie_viewer_state_size_limit: Some(50_000),
        state_sync_enabled: false,
        transaction_pool_size_limit: Some(100_000_000),
        enable_multiline_logging: None,
        tx_routing_height_horizon: 4,
        produce_chunk_add_transactions_time_limit: Some(Duration::from_millis(200)),
    }
}

fn component_defaults() -> ComponentDefaults {
    ComponentDefaults {
        rpc: RpcConfig { addr: "0.0.0.0:3030".to_string(), enable_debug_rpc: false },
        telemetry: TelemetryConfig { endpoints: vec!["https://t".to_string()] },
        network: NetworkSettings {
            addr: "0.0.0.0:24567".to_string(),
            boot_nodes: String::new(),
            skip_sync_wait: true,
            ttl_account_id_router: Duration::from_secs(3600),
        },
        store: StoreSettings {
            enable_statistics_export: true,
            background_migration_threads: 8,
            flat_storage_creation_enabled: true,
            flat_storage_creation_period: Duration::from_secs(1),
        },
    }
}

fn config() -> Config {
    Config::with_defaults(chain_defaults(), &component_defaults())
}

#[test]
fn clean_files_load() {
    let r = check_loaded_files(
        &config(),
        None,
        ValidatorKeyState::Loaded,
        "/h/validator_key.json",
        true,
        "/h/node_key.json",
        GenesisState::Loaded { chain: ChainKind::Mainnet, problem: None },
    );
    assert_eq!(r, Ok(()));
}

#[test]
fn public_validator_without_tracked_shards_is_refused() {
    let mut c = config();
    c.tracked_shards = vec![];
    let r = check_loaded_files(
        &c, None, ValidatorKeyState::Loaded, "/h/v", true, "/h/n",
        GenesisState::Loaded { chain: ChainKind::Testnet, problem: None },
    );
    assert_eq!(
        r.unwrap_err(),
        "\nThe following config checks failed:\ncross config files semantic issue: The `chain_id` field specified in genesis is among mainnet/betanet/testnet, so validator must track all shards. Please change `tracked_shards` field in config.json to be any non-empty vector\nPlease fix the config json files and validate again!"
    );
    // A local chain, or a node without a validator key, may track no shard.
    let r = check_loaded_files(
        &c, None, ValidatorKeyState::Loaded, "/h/v", true, "/h/n",
        GenesisState::Loaded { chain: ChainKind::Local, problem: None },
    );
    assert_eq!(r, Ok(()));
    let r = check_loaded_files(
        &c, None, ValidatorKeyState::Missing, "/h/v", true, "/h/n",
        GenesisState::Loaded { chain: ChainKind::Mainnet, problem: None },
    );
    assert_eq!(r, Ok(()));
}

#[test]
fn every_problem_is_reported_in_order() {
    let r = check_loaded_files(
        &config(),
        Some(ConfigIssue { kind: IssueKind::ConfigSemantics, message: "gc_blocks_limit must be positive".to_string() }),
        ValidatorKeyState::Unreadable,
        "/h/validator_key.json",
        false,
        "/h/node_key.json",
        GenesisState::Unreadable(ConfigIssue { kind: IssueKind::GenesisFile, message: "no such file".to_string() }),
    );
    assert_eq!(
        r.unwrap_err(),
        "\nThe following config checks failed:\
         \ngc_blocks_limit must be positive\
         \nvalidator_key.json file issue: Failed initializing validator signer from /h/validator_key.json\
         \nnode_key.json file issue: Failed reading node key file from /h/node_key.json\
         \ngenesis.json file issue: no such file\
         \nPlease fix the config json files and validate again!"
    );
}

#[test]
fn genesis_semantic_problems_are_reported() {
    let r = check_loaded_files(
        &config(), None, ValidatorKeyState::Missing, "/h/v", true, "/h/n",
        GenesisState::Loaded {
            chain: ChainKind::Local,
            problem: Some(ConfigIssue { kind: IssueKind::GenesisSemantics, message: "bad total supply".to_string() }),
        },
    );
    assert_eq!(
        r.unwrap_err(),
        "\nThe following config checks failed:\nbad total supply\nPlease fix the config json files and validate again!"
    );
}

#[test]
fn running_node_settings() {
    let mut c = config();
    c.archive = true;
    let unc = UncConfig::new(c, &GenesisInfo { chain_id: "localnet".into(), epoch_length: 12, num_block_producer_seats: 100 });
    assert_eq!(unc.client_config.chain_id, "localnet");
    assert_eq!(unc.client_config.rpc_addr, Some("0.0.0.0:3030".to_string()));
    assert_eq!(unc.rpc_addr(), Some("0.0.0.0:3030".to_string()));
    assert!(unc.client_config.settings.archive);
    // An archive node does not save trie changes unless asked.
    assert!(!unc.client_config.settings.save_trie_changes);
    // Multiline logging is on when the configuration does not say.
    assert!(unc.client_config.settings.enable_multiline_logging);
    assert!(unc.client_config.settings.skip_sync_wait);
    assert_eq!(unc.client_config.settings.epoch_length, 12);
    assert_eq!(unc.client_config.settings.num_block_producer_seats, 100);
    assert_eq!(unc.telemetry_config.endpoints, vec!["https://t".to_string()]);
    assert_eq!(unc.config.tracked_shards, vec![0]);

    let mut d = config();
    d.save_trie_changes = Some(true);
    d.archive = true;
    d.rpc = None;
    let unc = UncConfig::new(d, &GenesisInfo { chain_id: "x".into(), epoch_length: 1, num_block_producer_seats: 1 });
    assert!(unc.client_config.settings.save_trie_changes);
    assert_eq!(unc.rpc_addr(), None);
}
