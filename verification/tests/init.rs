use framework::config::{ChainDefaults, ChainKind, ComponentDefaults, Config, GcConfig, NetworkSettings, RpcConfig, StoreSettings, TelemetryConfig};
use framework::duration::Duration;
use framework::init::{
    apply_chain_settings, apply_init_overrides, chain_kind, config_download_url, first_init_step, genesis_source,
    new_node_config, next_init_step, records_download_url, resolve_chain_id, GenesisSource, InitStep,
};
use framework::constants::NUM_BLOCK_PRODUCER_SEATS;
use framework::genesis::GenesisParams;
use framework::keys::{check_loaded_key, generate_key, key_requests, plan_key, KeyStep};
use framework::shard::ShardLayout;
use framework::signer::SignerKeys;
use std::collections::HashMap;

fn chain_defaults() -> ChainDefaults {
    ChainDefaults {
        header_sync_initial_timeout: Duration::from_secs(10),
        header_sync_progress_timeout: Duration::from_secs(2),
        header_sync_stall_ban_timeout: Duration::from_secs(120),
        state_sync_timeout: Duration::from_secs(60),
        header_sync_expected_height_per_second: 10,
        sync_check_period: Duration::from_secs(10),
        sync_step_period: Duration::from_millis(10),
        sync_height_threshold: 1,
        log_summary_period: Duration::from_secs(10),
        gc: GcConfig { gc_blocks_limit: 2, gc_fork_clean_step: 100, gc_num_epochs_to_keep: 5 },
        view_client_threads: 4,
        view_client_throttle_period: Duration::from_secs(30),
        trie_viewer_state_size_limit: Some(50_000),
        state_sync_enabled: false,
        transaction_pool_size_limit: Some(100_000_000),
        enable_multiline_logging: Some(true),
        tx_routing_height_horizon: 4,
        produce_chunk_add_transactions_time_limit: Some(Duration::from_millis(200)),
    }
}

fn component_defaults() -> ComponentDefaults {
    ComponentDefaults {
        rpc: RpcConfig { addr: "0.0.0.0:3030".to_string(), enable_debug_rpc: false },
        telemetry: TelemetryConfig { endpoints: vec![] },
        network: NetworkSettings {
            addr: "0.0.0.0:24567".to_string(),
            boot_nodes: String::new(),
            skip_sync_wait: false,
            ttl_account_id_router: Duration::from_secs(3600),
        },
        store: StoreSettings {
            enable_statistics_export: true,
            background_migration_threads: 8,
            flat_storage_creation_enabled: true,
            flat_storage_creation_period: Duration::from_secs(1),
        },
    }
}

fn new_config(chain: ChainKind, fast: bool) -> Config {
    new_node_config(chain_defaults(), &component_defaults(), chain, fast)
}

#[test]
fn chain_id_given_or_random() {
    assert_eq!(resolve_chain_id(Some("localnet".to_string()), "xyz12"), "localnet");
    assert_eq!(resolve_chain_id(None, "xyz12"), "test-chain-xyz12");
}

#[test]
fn fresh_config_tracks_shard_zero_with_chain_delays() {
    let c = new_config(ChainKind::Local, true);
    assert_eq!(c.tracked_shards, vec![0]);
    assert_eq!(c.consensus.min_block_production_delay, Duration::from_millis(3_600));
    let m = new_config(ChainKind::Mainnet, false);
    assert_eq!(m.consensus.max_block_production_delay, Duration::from_millis(90_000));
}

#[test]
fn config_download_address() {
    assert_eq!(config_download_url("testnet", Some("http://x/c.json"), false), Some("http://x/c.json".to_string()));
    assert_eq!(config_download_url("testnet", Some("http://x/c.json"), true), Some("http://x/c.json".to_string()));
    assert_eq!(
        config_download_url("testnet", None, true),
        Some("https://unc-s3.jongun2038.win/testnet/config.json.xz".to_string())
    );
    assert_eq!(config_download_url("testnet", None, false), None);
}

#[test]
fn overrides_apply_where_given() {
    let mut c = new_config(ChainKind::Local, false);
    apply_init_overrides(&mut c, None, None);
    assert_eq!(c.network.boot_nodes, "");
    assert_eq!(c.max_gas_burnt_view, None);
    apply_init_overrides(&mut c, Some("ed25519:K@1.2.3.4:24567"), Some(300_000_000_000_000));
    assert_eq!(c.network.boot_nodes, "ed25519:K@1.2.3.4:24567");
    assert_eq!(c.max_gas_burnt_view, Some(300_000_000_000_000));
}

#[test]
fn public_networks_refuse_test_seeds() {
    let mut c = new_config(ChainKind::Mainnet, false);
    let r = apply_chain_settings(&mut c, ChainKind::Mainnet, "mainnet", true);
    assert_eq!(r, Err("Test seed is not supported for mainnet".to_string()));
    assert!(c.telemetry.endpoints.is_empty());

    let r = apply_chain_settings(&mut c, ChainKind::Mainnet, "mainnet", false);
    assert_eq!(r, Ok(()));
    assert_eq!(c.telemetry.endpoints, vec!["https://explorer.mainnet.utnet.org/api/nodes".to_string()]);
    assert!(!c.network.skip_sync_wait);

    let mut l = new_config(ChainKind::Local, false);
    assert_eq!(apply_chain_settings(&mut l, ChainKind::Local, "localnet", true), Ok(()));
    assert!(l.network.skip_sync_wait);
    assert!(l.telemetry.endpoints.is_empty());
}

#[test]
fn records_download_address() {
    let file = Some("records.json".to_string());
    assert_eq!(records_download_url(&None, "testnet", Some("http://x/r"), true), None);
    assert_eq!(records_download_url(&file, "testnet", Some("http://x/r"), false), Some("http://x/r".to_string()));
    assert_eq!(
        records_download_url(&file, "testnet", None, true),
        Some("https://unc-s3.jongun2038.win/testnet/records.json.xz".to_string())
    );
    assert_eq!(records_download_url(&file, "testnet", None, false), None);
}

#[test]
fn genesis_sources() {
    match genesis_source("testnet", Some("http://x/g"), false, Some("/g.json")).unwrap() {
        GenesisSource::Download(u) => assert_eq!(u, "http://x/g"),
        other => panic!("{other:?}"),
    }
    match genesis_source("testnet", None, true, Some("/g.json")).unwrap() {
        GenesisSource::Download(u) => assert_eq!(u, "https://unc-s3.jongun2038.win/testnet/genesis.json.xz"),
        other => panic!("{other:?}"),
    }
    match genesis_source("testnet", None, false, Some("/g.json")).unwrap() {
        GenesisSource::File(p) => assert_eq!(p, "/g.json"),
        other => panic!("{other:?}"),
    }
    assert_eq!(
        genesis_source("testnet", None, false, None).unwrap_err(),
        "Genesis file is required for testnet.\nUse <--genesis|--download-genesis>"
    );
}

/// A home directory kept in memory: the configuration, the genesis and the key files that
/// node initialization writes there.
struct Home {
    config: Option<Config>,
    genesis: Option<GenesisParams>,
    keys: HashMap<String, SignerKeys>,
}

fn copy_key(k: &SignerKeys) -> SignerKeys {
    SignerKeys { account_id: k.account_id.clone(), public_key: k.public_key.clone(), secret_key: k.secret_key.clone() }
}

/// Block producer seats spread over the shards, the first shards taking the remainder,
/// each at least one.
fn seats_per_shard(num_shards: u64, num_seats: u64) -> Vec<u64> {
    (0..num_shards)
        .map(|shard| {
            let mut seats = num_seats / num_shards;
            if shard < num_seats % num_shards {
                seats += 1;
            }
            seats.max(1)
        })
        .collect()
}

/// The shard of an account under a layout that splits at boundary accounts.
fn shard_of(layout: &ShardLayout, account: &str) -> u64 {
    match layout {
        ShardLayout::V0 { num_shards, .. } => {
            assert_eq!(*num_shards, 1);
            0
        }
        ShardLayout::V1 { boundary_accounts, .. } => {
            boundary_accounts.iter().filter(|b| b.as_str() <= account).count() as u64
        }
    }
}

impl Home {
    fn empty() -> Home {
        Home { config: None, genesis: None, keys: HashMap::new() }
    }

    fn make_keys(&mut self, config: &Config, chain: ChainKind, account_id: Option<&str>, seed: Option<&str>) -> Result<(), String> {
        let requests = key_requests(config, chain, &account_id.map(str::to_string), &seed.map(str::to_string));
        for request in requests {
            let exists = self.keys.contains_key(&request.filename);
            match plan_key(exists, request.account_id, request.test_seed) {
                KeyStep::Load { expected_account } => {
                    let found = self.keys[&request.filename].account_id.clone();
                    check_loaded_key(&request.filename, &found, &expected_account)?;
                }
                KeyStep::Generate { account_id, test_seed } => {
                    let key = generate_key(&account_id, test_seed.as_deref());
                    self.keys.insert(request.filename, key);
                }
                KeyStep::Skip => {}
            }
        }
        Ok(())
    }

    /// Initializes the home directory for `chain_id`, taking the steps in the order that
    /// the library gives.
    fn init(&mut self, chain_id: &str, account_id: Option<&str>, seed: Option<&str>, num_shards: u64) -> Result<(), String> {
        let chain_id = resolve_chain_id(Some(chain_id.to_string()), "");
        let chain = chain_kind(&chain_id);
        let exists = self.config.is_some();
        let mut config: Option<Config> = None;
        let mut refusal: Option<String> = None;
        let mut step = first_init_step(exists);
        loop {
            let ok = match step {
                InitStep::ReadExisting => {
                    config = Some(self.config.as_ref().unwrap().duplicate());
                    self.genesis.is_some()
                }
                InitStep::MakeConfig => {
                    config = Some(new_config(chain, false));
                    true
                }
                InitStep::MakeKeys => match self.make_keys(config.as_ref().unwrap(), chain, account_id, seed) {
                    Ok(()) => true,
                    Err(e) => {
                        refusal = Some(e);
                        false
                    }
                },
                InitStep::ApplyChainSettings => {
                    match apply_chain_settings(config.as_mut().unwrap(), chain, &chain_id, seed.is_some()) {
                        Ok(()) => true,
                        Err(m) => {
                            refusal = Some(m);
                            false
                        }
                    }
                }
                InitStep::WriteConfig => {
                    self.config = Some(config.as_ref().unwrap().duplicate());
                    true
                }
                InitStep::WriteGenesis => {
                    assert_eq!(chain, ChainKind::Local);
                    let c = config.as_ref().unwrap();
                    let validator = copy_key(&self.keys[&c.validator_key_file]);
                    let seats = seats_per_shard(num_shards, NUM_BLOCK_PRODUCER_SEATS);
                    self.genesis = Some(GenesisParams::localnet(chain_id.clone(), &validator, num_shards, false, seats));
                    true
                }
                InitStep::Finished => return Ok(()),
                InitStep::Failed => return Err(refusal.unwrap_or_default()),
            };
            step = next_init_step(exists, step, ok);
        }
    }

    fn init_localnet(&mut self, account_id: Option<&str>, seed: Option<&str>, num_shards: u64) -> Result<(), String> {
        self.init("localnet", account_id, seed, num_shards)
    }
}

#[test]
fn test_init_config_localnet() {
    // Check that we can initialize the config with multiple shards.
    let mut home = Home::empty();
    home.init_localnet(None, Some("seed1"), 3).unwrap();
    let genesis = home.genesis.as_ref().unwrap();
    assert_eq!(genesis.chain_id, "localnet");
    assert_eq!(genesis.shard_layout.num_shards(), 3);
    assert_eq!(shard_of(&genesis.shard_layout, "foobar.unc"), 0);
    assert_eq!(shard_of(&genesis.shard_layout, "shard1.test.unc"), 1);
    assert_eq!(shard_of(&genesis.shard_layout, "shard2.test.unc"), 2);
}

#[test]
fn test_init_config_localnet_keep_config_create_node_key() {
    let mut home = Home::empty();
    // Initialize all config and key files.
    home.init_localnet(Some("account.unc"), Some("seed1"), 3).unwrap();

    // Check that the key files exist.
    let config = home.config.as_ref().unwrap().duplicate();
    assert!(home.genesis.is_some());
    assert!(home.keys.contains_key(&config.node_key_file));
    assert!(home.keys.contains_key(&config.validator_key_file));
    let first_genesis_chain = home.genesis.as_ref().unwrap().chain_id.clone();

    // Remove the key files.
    home.keys.remove(&config.node_key_file);
    home.keys.remove(&config.validator_key_file);
    assert!(!home.keys.contains_key(&config.node_key_file));

    // Run the initialization again: the config and genesis are kept, the keys made.
    assert_eq!(first_init_step(true), InitStep::ReadExisting);
    home.init_localnet(Some("account.unc"), Some("seed1"), 3).unwrap();
    assert!(home.keys.contains_key(&config.node_key_file));
    assert!(home.keys.contains_key(&config.validator_key_file));
    assert_eq!(home.keys[&config.validator_key_file].account_id, "account.unc");
    assert_eq!(home.keys[&config.node_key_file].account_id, "node");
    assert_eq!(home.genesis.as_ref().unwrap().chain_id, first_genesis_chain);
}

#[test]
fn local_layout_of_one_shard() {
    let validator = generate_key("test.unc", Some("seed1"));
    let g = GenesisParams::localnet("localnet".into(), &validator, 1, false, vec![100]);
    assert!(matches!(g.shard_layout, ShardLayout::V0 { num_shards: 1, version: 0 }));
    assert_eq!(shard_of(&g.shard_layout, "anything.unc"), 0);
    assert_eq!(seats_per_shard(3, NUM_BLOCK_PRODUCER_SEATS), vec![34, 33, 33]);
    assert_eq!(first_init_step(false), InitStep::MakeConfig);
}

#[test]
fn chain_kinds_by_name() {
    assert_eq!(chain_kind("mainnet"), ChainKind::Mainnet);
    assert_eq!(chain_kind("testnet"), ChainKind::Testnet);
    assert_eq!(chain_kind("localnet"), ChainKind::Local);
    assert_eq!(chain_kind("test-chain-abcde"), ChainKind::Local);
    assert_eq!(chain_kind("Mainnet"), ChainKind::Local);
}

#[test]
fn init_step_order() {
    // A new configuration.
    let mut steps = vec![first_init_step(false)];
    while !matches!(steps.last(), Some(InitStep::Finished)) {
        steps.push(next_init_step(false, *steps.last().unwrap(), true));
    }
    assert_eq!(
        steps,
        vec![
            InitStep::MakeConfig,
            InitStep::MakeKeys,
            InitStep::ApplyChainSettings,
            InitStep::WriteConfig,
            InitStep::WriteGenesis,
            InitStep::Finished,
        ]
    );
    // An existing one: only the keys are made.
    assert_eq!(next_init_step(true, InitStep::ReadExisting, true), InitStep::MakeKeys);
    assert_eq!(next_init_step(true, InitStep::MakeKeys, true), InitStep::Finished);
    // A refused step ends it.
    assert_eq!(next_init_step(false, InitStep::ApplyChainSettings, false), InitStep::Failed);
    assert_eq!(next_init_step(false, InitStep::Failed, true), InitStep::Failed);
}

#[test]
fn refused_test_seed_writes_no_config() {
    let mut home = Home::empty();
    let r = home.init("mainnet", None, Some("seed1"), 1);
    assert_eq!(r, Err("Test seed is not supported for mainnet".to_string()));
    assert!(home.config.is_none());
    assert!(home.genesis.is_none());
}
