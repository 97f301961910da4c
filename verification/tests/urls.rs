use framework::urls::{get_config_url, get_genesis_url, get_records_url};

#[test]
fn genesis_url_of_chain() {
    assert_eq!(get_genesis_url("testnet"), "https://unc-s3.jongun2038.win/testnet/genesis.json.xz");
    assert_eq!(get_records_url("testnet"), "https://unc-s3.jongun2038.win/testnet/records.json.xz");
    assert_eq!(get_config_url("testnet"), "https://unc-s3.jongun2038.win/testnet/config.json.xz");
}
