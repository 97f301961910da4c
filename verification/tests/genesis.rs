use framework::constants::{
    EXPECTED_EPOCH_LENGTH, FAST_EPOCH_LENGTH, NUM_BLOCK_PRODUCER_SEATS, TESTING_INIT_BALANCE,
    TESTING_INIT_PLEDGE, TESTING_INIT_POWER,
};
use framework::genesis::{
    add_account_with_key, add_protocol_account, default_code_hash, test_chain_id, zeros, GenesisParams, StateRecord,
};
use framework::shard::{local_shard_layout, ShardLayout};
use framework::keys::generate_key;

fn account(r: &StateRecord) -> (&str, u128, u128, u128) {
    match r {
        StateRecord::Account { account_id, amount, pledging, power, code_hash } => {
            assert_eq!(*code_hash, [0u8; 32]);
            (account_id.as_str(), *amount, *pledging, *power)
        }
        _ => panic!("expected an account record"),
    }
}

fn access_key(r: &StateRecord) -> (&str, &str) {
    match r {
        StateRecord::AccessKey { account_id, public_key } => (account_id.as_str(), public_key.as_str()),
        _ => panic!("expected an access key record"),
    }
}

#[test]
fn account_with_key_adds_two_records() {
    let mut records = vec![];
    add_account_with_key(&mut records, "alice.unc".to_string(), &"ed25519:K".to_string(), 10, 3, 7, default_code_hash());
    assert_eq!(records.len(), 2);
    assert_eq!(account(&records[0]), ("alice.unc", 10, 3, 7));
    assert_eq!(access_key(&records[1]), ("alice.unc", "ed25519:K"));
}

#[test]
fn protocol_account_has_test_balance_and_own_key() {
    let mut records = vec![];
    add_protocol_account(&mut records);
    assert_eq!(records.len(), 2);
    assert_eq!(account(&records[0]), ("unc", TESTING_INIT_BALANCE, 0, 0));
    let key = generate_key("unc", Some("unc"));
    assert_eq!(access_key(&records[1]), ("unc", key.public_key.as_str()));
}

#[test]
fn test_genesis_validators_and_records() {
    let accounts: Vec<String> = vec!["test0".into(), "test1".into(), "test2".into()];
    let g = GenesisParams::test_with_seeds("test-chain-x".into(), &accounts, 2, vec![1, 1]);
    assert_eq!(g.chain_id, "test-chain-x");
    assert_eq!(g.num_block_producer_seats, 2);
    assert_eq!(g.num_block_producer_seats_per_shard, vec![1, 1]);
    assert_eq!(g.avg_hidden_validator_seats_per_shard, vec![0, 0]);
    assert_eq!(g.epoch_length, FAST_EPOCH_LENGTH);
    assert_eq!(g.validators.len(), 2);
    assert_eq!(g.validators[0].account_id, "test0");
    assert_eq!(g.validators[1].account_id, "test1");
    assert_eq!(g.validators[0].pledging, TESTING_INIT_PLEDGE);
    assert_eq!(g.validators[0].power, TESTING_INIT_POWER);
    assert_eq!(g.validators[0].public_key, generate_key("test0", Some("test0")).public_key);
    assert_eq!(g.records.len(), 2 * 3 + 2);
    assert_eq!(account(&g.records[0]), ("test0", TESTING_INIT_BALANCE - TESTING_INIT_PLEDGE, TESTING_INIT_PLEDGE, TESTING_INIT_POWER));
    assert_eq!(account(&g.records[4]), ("test2", TESTING_INIT_BALANCE, 0, TESTING_INIT_POWER));
    assert_eq!(access_key(&g.records[5]).0, "test2");
    assert_eq!(account(&g.records[6]), ("unc", TESTING_INIT_BALANCE, 0, 0));
    assert_eq!(g.protocol_treasury_account, "unc");
    assert!(!g.set_online_thresholds);
    assert_eq!(g.shard_layout.num_shards(), 2);
    assert!(matches!(g.shard_layout, ShardLayout::V0 { num_shards: 2, version: 0 }));
    // Every account pledges exactly when it is a validator, keeping the test balance.
    for i in 0..3 {
        let (_, amount, pledging, _) = account(&g.records[2 * i]);
        assert_eq!(pledging > 0, i < g.validators.len());
        assert_eq!(amount + pledging, TESTING_INIT_BALANCE);
    }
}

#[test]
fn test_genesis_with_more_seats_than_accounts() {
    let accounts: Vec<String> = vec!["aa".into()];
    let g = GenesisParams::test("c".into(), &accounts, 5);
    assert_eq!(g.validators.len(), 1);
    assert_eq!(g.num_block_producer_seats_per_shard, vec![5]);
    let s = GenesisParams::test_sharded("c".into(), &accounts, 1, vec![1, 0, 0]);
    assert_eq!(s.avg_hidden_validator_seats_per_shard, vec![0, 0, 0]);
    let n = GenesisParams::test_sharded_new_version("c".into(), &accounts, 1, vec![1, 0, 0]);
    assert_eq!(n.num_block_producer_seats_per_shard, vec![1, 0, 0]);
}

#[test]
fn localnet_genesis() {
    let validator = generate_key("test.unc", Some("seed1"));
    let g = GenesisParams::localnet("localnet".into(), &validator, 3, false, vec![34, 33, 33]);
    assert_eq!(g.chain_id, "localnet");
    assert_eq!(g.num_block_producer_seats, NUM_BLOCK_PRODUCER_SEATS);
    assert_eq!(g.avg_hidden_validator_seats_per_shard, vec![0, 0, 0]);
    assert_eq!(g.epoch_length, EXPECTED_EPOCH_LENGTH);
    assert_eq!(EXPECTED_EPOCH_LENGTH, 12);
    assert_eq!(g.validators.len(), 1);
    assert_eq!(g.validators[0].account_id, "test.unc");
    assert_eq!(g.protocol_treasury_account, "test.unc");
    assert_eq!(g.records.len(), 4);
    assert_eq!(account(&g.records[0]), ("test.unc", TESTING_INIT_BALANCE, TESTING_INIT_PLEDGE, TESTING_INIT_POWER));
    assert_eq!(access_key(&g.records[1]), ("test.unc", validator.public_key.as_str()));
    assert!(g.set_online_thresholds);
    assert_eq!(g.shard_layout.num_shards(), 3);
    match &g.shard_layout {
        ShardLayout::V1 { boundary_accounts, .. } => {
            assert_eq!(boundary_accounts, &vec!["shard1.test.unc".to_string(), "shard2.test.unc".to_string()]);
        }
        other => panic!("unexpected layout {:?}", other),
    }
    let fast = GenesisParams::localnet("localnet".into(), &validator, 1, true, vec![100]);
    assert_eq!(fast.epoch_length, FAST_EPOCH_LENGTH);
}

#[test]
fn chain_id_and_zeros() {
    assert_eq!(test_chain_id("abcde"), "test-chain-abcde");
    assert_eq!(zeros(3), vec![0, 0, 0]);
    assert!(zeros(0).is_empty());
}

#[test]
fn account_with_code_hash() {
    let mut records = vec![];
    let mut hash = [0u8; 32];
    hash[0] = 7;
    add_account_with_key(&mut records, "bob.unc".to_string(), &"ed25519:B".to_string(), 1, 0, 0, hash);
    match &records[0] {
        StateRecord::Account { code_hash, .. } => assert_eq!(*code_hash, hash),
        _ => panic!("expected an account record"),
    }
    assert_eq!(default_code_hash(), [0u8; 32]);
}

#[test]
fn local_layouts_by_shard_count() {
    assert!(matches!(local_shard_layout(0), ShardLayout::V0 { num_shards: 1, version: 0 }));
    assert!(matches!(local_shard_layout(1), ShardLayout::V0 { num_shards: 1, version: 0 }));
    assert_eq!(local_shard_layout(0).num_shards(), 1);
    let four = local_shard_layout(4);
    assert_eq!(four.num_shards(), 4);
    match four {
        ShardLayout::V1 { boundary_accounts, version } => {
            assert_eq!(version, 0);
            assert_eq!(boundary_accounts, vec!["shard1.test.unc", "shard2.test.unc", "shard3.test.unc"]);
        }
        other => panic!("unexpected layout {:?}", other),
    }
    let twelve = local_shard_layout(12);
    match twelve {
        ShardLayout::V1 { boundary_accounts, .. } => assert_eq!(boundary_accounts[10], "shard11.test.unc"),
        other => panic!("unexpected layout {:?}", other),
    }
}
