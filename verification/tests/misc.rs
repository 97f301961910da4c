use framework::json::{strip_comments, strip_config_comments};
use framework::load::IssueKind;
use framework::shard::ShardLayout;
use framework::snapshot::shard_layout_for_version;
use framework::text::to_decimal;
use framework::urls::network_telemetry_url;

#[test]
fn comments_are_taken_out() {
    let text = "{\n  // the genesis\n  \"genesis_file\": \"genesis.json\" /* here */\n}\n".to_string();
    let stripped = strip_comments(&text).unwrap();
    assert!(!stripped.contains("the genesis"));
    assert!(!stripped.contains("here"));
    let v: serde_json::Value = serde_json::from_str(&stripped).unwrap();
    assert_eq!(v["genesis_file"], "genesis.json");
    let s = strip_config_comments(&"# hash comment\n{}".to_string(), "/h/config.json").unwrap();
    assert!(!s.contains("hash comment"));
    assert_eq!(IssueKind::ConfigFile, IssueKind::ConfigFile);
}

#[test]
fn shard_layout_versions() {
    for v in 0..=2u32 {
        match shard_layout_for_version(v) {
            Ok(ShardLayout::V0 { num_shards, version }) => {
                assert_eq!(num_shards, 1);
                assert_eq!(version, 0);
            }
            other => panic!("unexpected layout {:?}", other),
        }
    }
    assert_eq!(shard_layout_for_version(3).unwrap_err(), "Unsupported shard layout version! 3");
    assert_eq!(shard_layout_for_version(1024).unwrap_err(), "Unsupported shard layout version! 1024");
}

#[test]
fn decimal_text() {
    assert_eq!(to_decimal(0), "0");
    assert_eq!(to_decimal(7), "7");
    assert_eq!(to_decimal(1234567890), "1234567890");
    assert_eq!(to_decimal(u64::MAX), u64::MAX.to_string());
}

#[test]
fn telemetry_endpoint_of_chain() {
    assert_eq!(network_telemetry_url("testnet"), "https://explorer.testnet.utnet.org/api/nodes");
    assert_eq!(
        network_telemetry_url("mainnet"),
        framework::constants::NETWORK_TELEMETRY_URL.replace("{}", "mainnet")
    );
}
