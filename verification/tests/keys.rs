use framework::account::parse_account_id;
use std::collections::HashMap;

use framework::config::{ChainDefaults, ChainKind, ComponentDefaults, Config, GcConfig, NetworkSettings, RpcConfig, StoreSettings, TelemetryConfig};
use framework::duration::Duration;
use framework::json::strip_comments;
use framework::keys::{check_loaded_key, generate_key, key_requests, plan_key, KeyStep, NodeKeyFile};
use framework::signer::SignerKeys;

fn chain_defaults() -> ChainDefaults {
    ChainDefaults {
        header_sync_initial_timeout: Duration::from_secs(10),
        header_sync_progress_timeout: Duration::from_secs(2),
        header_sync_stall_ban_timeout: Duration::from_secs(120),
        state_sync_timeout: Duration::from_secs(60),
        header_sync_expected_height_per_second: 10,
        sync_check_period: Duration::from_secs(10),
        sync_step_period: Duration::from_millis(10),
        sync_height_threshold: 1,
        log_summary_period: Duration::from_secs(10),
        gc: GcConfig { gc_blocks_limit: 2, gc_fork_clean_step: 100, gc_num_epochs_to_keep: 5 },
        view_client_threads: 4,
        view_client_throttle_period: Duration::from_secs(30),
        trie_viewer_state_size_limit: Some(50_000),
        state_sync_enabled: false,
        transaction_pool_size_limit: Some(100_000_000),
        enable_multiline_logging: Some(true),
        tx_routing_height_horizon: 4,
        produce_chunk_add_transactions_time_limit: Some(Duration::from_millis(200)),
    }
}

fn component_defaults() -> ComponentDefaults {
    ComponentDefaults {
        rpc: RpcConfig { addr: "0.0.0.0:3030".to_string(), enable_debug_rpc: false },
        telemetry: TelemetryConfig { endpoints: vec![] },
        network: NetworkSettings {
            addr: "0.0.0.0:24567".to_string(),
            boot_nodes: String::new(),
            skip_sync_wait: false,
            ttl_account_id_router: Duration::from_secs(3600),
        },
        store: StoreSettings {
            enable_statistics_export: true,
            background_migration_threads: 8,
            flat_storage_creation_enabled: true,
            flat_storage_creation_period: Duration::from_secs(1),
        },
    }
}

/// Key files kept in memory, handled the way a node handles them on disk.
struct Home {
    files: HashMap<String, Result<SignerKeys, String>>,
}

fn same_key(a: &SignerKeys, b: &SignerKeys) -> bool {
    a.account_id == b.account_id && a.public_key == b.public_key && a.secret_key == b.secret_key
}

fn copy_key(k: &SignerKeys) -> SignerKeys {
    SignerKeys { account_id: k.account_id.clone(), public_key: k.public_key.clone(), secret_key: k.secret_key.clone() }
}

impl Home {
    fn generate_or_load_key(&mut self, filename: &str, account: Option<&str>, seed: Option<&str>) -> Result<Option<SignerKeys>, String> {
        let step = plan_key(self.files.contains_key(filename), account.map(str::to_string), seed.map(str::to_string));
        match step {
            KeyStep::Load { expected_account } => {
                let loaded = match &self.files[filename] {
                    Ok(k) => copy_key(k),
                    Err(e) => return Err(e.clone()),
                };
                check_loaded_key(filename, &loaded.account_id, &expected_account)?;
                Ok(Some(loaded))
            }
            KeyStep::Generate { account_id, test_seed } => {
                let key = generate_key(&account_id, test_seed.as_deref());
                self.files.insert(filename.to_string(), Ok(copy_key(&key)));
                Ok(Some(key))
            }
            KeyStep::Skip => Ok(None),
        }
    }
}

#[test]
fn test_generate_or_load_key() {
    let mut home = Home { files: HashMap::new() };

    // account_id == None -> do nothing, return None
    assert!(home.generate_or_load_key("key", None, None).unwrap().is_none());
    assert!(!home.files.contains_key("key"));

    // account_id == Some, file doesn't exist -> create new key
    let key = home.generate_or_load_key("key", Some("fred"), None).unwrap().unwrap();
    assert!(home.files.contains_key("key"));
    assert_eq!("fred", key.account_id.as_str());

    // file exists -> load key, compare account if given
    assert!(same_key(&key, &home.generate_or_load_key("key", None, None).unwrap().unwrap()));
    assert!(same_key(&key, &home.generate_or_load_key("key", Some("fred"), None).unwrap().unwrap()));
    assert!(home.generate_or_load_key("key", Some("barney"), None).is_err());

    // test_seed == Some -> the same key is generated
    let k1 = home.generate_or_load_key("k1", Some("fred"), Some("foo")).unwrap().unwrap();
    let k2 = home.generate_or_load_key("k2", Some("barney"), Some("foo")).unwrap().unwrap();
    let k3 = home.generate_or_load_key("k3", Some("fred"), Some("bar")).unwrap().unwrap();
    assert!(k1.public_key == k2.public_key && k1.secret_key == k2.secret_key);
    assert!(!same_key(&k1, &k3));

    // file contains invalid JSON -> should return an error
    let text = strip_comments(&"not JSON\n".to_string()).unwrap();
    let parsed: Result<serde_json::Value, _> = serde_json::from_str(&text);
    home.files.insert("bad_key".to_string(), parsed.map(|_| unreachable!()).map_err(|e| e.to_string()));
    assert!(home.generate_or_load_key("bad_key", Some("fred"), None).is_err());
}

#[test]
fn plan_key_cases() {
    assert!(matches!(plan_key(true, None, Some("s".to_string())), KeyStep::Load { expected_account: None }));
    match plan_key(false, Some("a.unc".to_string()), Some("s".to_string())) {
        KeyStep::Generate { account_id, test_seed } => {
            assert_eq!(account_id, "a.unc");
            assert_eq!(test_seed, Some("s".to_string()));
        }
        _ => panic!("expected a generated key"),
    }
    assert!(matches!(plan_key(false, None, None), KeyStep::Skip));
}

#[test]
fn loaded_key_mismatch_message() {
    let r = check_loaded_key("/home/key.json", "fred", &Some("barney".to_string()));
    assert_eq!(r, Err("‘/home/key.json’ contains key for fred but expecting key for barney".to_string()));
    assert_eq!(check_loaded_key("/home/key.json", "fred", &Some("fred".to_string())), Ok(()));
    assert_eq!(check_loaded_key("/home/key.json", "fred", &None), Ok(()));
}

#[test]
fn seeded_keys_are_ed25519_and_deterministic() {
    let a = generate_key("alice.unc", Some("seed1"));
    let b = generate_key("bob.unc", Some("seed1"));
    assert!(a.public_key.starts_with("ed25519:"));
    assert!(a.secret_key.starts_with("ed25519:"));
    assert_ne!(a.public_key, "seed1");
    assert_eq!(a.public_key, b.public_key);
    assert_eq!(a.account_id, "alice.unc");
    assert_eq!(b.account_id, "bob.unc");
    let r1 = generate_key("alice.unc", None);
    let r2 = generate_key("alice.unc", None);
    assert_eq!(r1.account_id, "alice.unc");
    assert_ne!(r1.secret_key, r2.secret_key);
}

#[test]
fn key_requests_by_chain() {
    let c = Config::with_defaults(chain_defaults(), &component_defaults());
    let r = key_requests(&c, ChainKind::Mainnet, &Some("val.unc".to_string()), &Some("seed".to_string()));
    assert_eq!(r.len(), 2);
    assert_eq!(r[0].filename, "node_key.json");
    assert_eq!(r[0].account_id, Some("node".to_string()));
    assert_eq!(r[0].test_seed, None);
    assert_eq!(r[1].filename, "validator_key.json");
    assert_eq!(r[1].account_id, Some("val.unc".to_string()));
    assert_eq!(r[1].test_seed, None);

    let r = key_requests(&c, ChainKind::Testnet, &None, &None);
    assert_eq!(r[1].account_id, None);

    let r = key_requests(&c, ChainKind::Local, &None, &Some("seed".to_string()));
    assert_eq!(r[1].account_id, Some("test.unc".to_string()));
    assert_eq!(r[1].test_seed, Some("seed".to_string()));
}

#[test]
fn node_key_file_account_defaults_to_node() {
    let k = NodeKeyFile { account_id: String::new(), public_key: "ed25519:P".to_string(), private_key: "ed25519:S".to_string() }
        .into_key_file()
        .unwrap();
    assert_eq!(k.account_id, "node");
    assert_eq!(k.public_key, "ed25519:P");
    assert_eq!(k.secret_key, "ed25519:S");
    let k = NodeKeyFile { account_id: "relay.unc".to_string(), public_key: "p".to_string(), private_key: "s".to_string() }
        .into_key_file()
        .unwrap();
    assert_eq!(k.account_id, "relay.unc");
    let bad = NodeKeyFile { account_id: "Bad..Id".to_string(), public_key: "p".to_string(), private_key: "s".to_string() };
    assert!(bad.into_key_file().is_none());
    for invalid in ["a", "-ab", "ab-", "a..b", "ab_.c", "ƒelicia.unc"] {
        let f = NodeKeyFile { account_id: invalid.to_string(), public_key: "p".to_string(), private_key: "s".to_string() };
        assert!(f.into_key_file().is_none(), "{invalid}");
    }
    let long_ok = "a".repeat(64);
    let long_bad = "a".repeat(65);
    assert!(NodeKeyFile { account_id: long_ok, public_key: String::new(), private_key: String::new() }.into_key_file().is_some());
    assert!(NodeKeyFile { account_id: long_bad, public_key: String::new(), private_key: String::new() }.into_key_file().is_none());
}

#[test]
fn seeds_give_keys_by_their_first_bytes() {
    // A seed is padded with spaces to 32 bytes and cut there.
    let short = generate_key("a.unc", Some("foo"));
    let padded = generate_key("b.unc", Some("foo "));
    assert_eq!(short.secret_key, padded.secret_key);
    let long1 = generate_key("a.unc", Some("0123456789abcdef0123456789abcdefX"));
    let long2 = generate_key("a.unc", Some("0123456789abcdef0123456789abcdefY"));
    assert_eq!(long1.secret_key, long2.secret_key);
    let other = generate_key("a.unc", Some("0123456789abcdef0123456789abcdeX"));
    assert_ne!(long1.secret_key, other.secret_key);
    assert_ne!(short.public_key, short.secret_key);
    // A random key pair: the public key is not the secret key, and two draws differ.
    let r = generate_key("a.unc", None);
    assert_ne!(r.public_key, r.secret_key);
    assert!(r.public_key.starts_with("ed25519:"));
}

#[test]
fn account_ids_parse() {
    assert_eq!(parse_account_id("alice.unc"), Some("alice.unc".to_string()));
    assert_eq!(parse_account_id("a"), None);
    assert_eq!(parse_account_id("Alice.unc"), None);
    assert_eq!(parse_account_id("alice..unc"), None);
    assert_eq!(parse_account_id("test.unc"), Some("test.unc".to_string()));
}
