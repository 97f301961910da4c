use vstd::prelude::*;

verus! {

/// One UNC, divisible by 10^24.
pub const UNC_BASE: u128 = 1_000_000_000_000_000_000_000_000;

/// MilliUNC, 1/1000 of UNC.
pub const MILLI_UNC: u128 = UNC_BASE / 1000;

/// Initial balance used in tests.
pub const TESTING_INIT_BALANCE: u128 = 1_000_000_000 * UNC_BASE;

/// Validator's pledge used in tests.
pub const TESTING_INIT_PLEDGE: u128 = 50_000_000 * UNC_BASE;

/// Validator's power used in tests.
pub const TESTING_INIT_POWER: u128 = 5_000_000_000_000u128;

/// Block production tracking delay, in milliseconds.
pub const BLOCK_PRODUCTION_TRACKING_DELAY: u64 = 100 * 30;

/// Expected block production time, in milliseconds.
pub const MIN_BLOCK_PRODUCTION_DELAY: u64 = 980 * 30;

/// Minimum block production delay of mainnet validators, in milliseconds.
pub const MAINNET_MIN_BLOCK_PRODUCTION_DELAY: u64 = 1_300 * 30;

/// Minimum block production delay of testnet validators, in milliseconds.
pub const TESTNET_MIN_BLOCK_PRODUCTION_DELAY: u64 = 1_000 * 30;

/// Maximum time to delay block production without approvals, in milliseconds.
pub const MAX_BLOCK_PRODUCTION_DELAY: u64 = 2_000 * 30;

/// Maximum block production delay of mainnet validators, in milliseconds.
pub const MAINNET_MAX_BLOCK_PRODUCTION_DELAY: u64 = 3_000 * 30;

/// Maximum block production delay of testnet validators, in milliseconds.
pub const TESTNET_MAX_BLOCK_PRODUCTION_DELAY: u64 = 2_500 * 30;

/// Maximum time until skipping the previous block, in milliseconds.
pub const MAX_BLOCK_WAIT_DELAY: u64 = 6_000 * 10;

/// Horizon at which instead of fetching block, fetch full state.
pub const BLOCK_FETCH_HORIZON: u64 = 50;

/// Behind this horizon header fetch kicks in.
pub const BLOCK_HEADER_FETCH_HORIZON: u64 = 50;

/// Time between check to perform catchup, in milliseconds.
pub const CATCHUP_STEP_PERIOD: u64 = 100 * 30;

/// Time between checking to re-request chunks, in milliseconds.
pub const CHUNK_REQUEST_RETRY_PERIOD: u64 = 400;

/// Expected epoch length.
pub const EXPECTED_EPOCH_LENGTH: u64 = (6 * 60 * 1000) / MIN_BLOCK_PRODUCTION_DELAY;

/// Criterion for kicking out block producers.
pub const BLOCK_PRODUCER_KICKOUT_THRESHOLD: u8 = 90;

/// Criterion for kicking out chunk producers.
pub const CHUNK_PRODUCER_KICKOUT_THRESHOLD: u8 = 90;

/// Fast mode minimum block production delay, in milliseconds.
pub const FAST_MIN_BLOCK_PRODUCTION_DELAY: u64 = 120 * 30;

/// Fast mode maximum block production delay, in milliseconds.
pub const FAST_MAX_BLOCK_PRODUCTION_DELAY: u64 = 500 * 30;

/// Epoch length in fast mode.
pub const FAST_EPOCH_LENGTH: u64 = 20;

/// Expected number of blocks per year.
pub const NUM_BLOCKS_PER_YEAR: u64 = 365 * 24 * 60 * 60 / 30;

/// Initial gas limit.
pub const INITIAL_GAS_LIMIT: u64 = 1_000_000_000_000_000;

/// Initial and minimum gas price.
pub const MIN_GAS_PRICE: u128 = 100_000_000;

/// Protocol treasury account.
pub const PROTOCOL_TREASURY_ACCOUNT: &'static str = "unc";

/// Fishermen pledge threshold.
pub const FISHERMEN_THRESHOLD: u128 = 10 * UNC_BASE;

/// Number of blocks for which a given transaction is valid.
pub const TRANSACTION_VALIDITY_PERIOD: u64 = 10;

/// Number of seats for block producers.
pub const NUM_BLOCK_PRODUCER_SEATS: u64 = 100;

/// The minimum pledge required for staking is last seat price divided by this number.
pub const MINIMUM_STAKE_DIVISOR: u64 = 10;

/// Name of the node configuration file.
pub const CONFIG_FILENAME: &'static str = "config.json";

/// Name of the genesis file.
pub const GENESIS_CONFIG_FILENAME: &'static str = "genesis.json";

/// Name of the node key file.
pub const NODE_KEY_FILE: &'static str = "node_key.json";

/// Name of the validator key file.
pub const VALIDATOR_KEY_FILE: &'static str = "validator_key.json";

/// Telemetry endpoint of a public network; `{}` stands for the chain id.
pub const NETWORK_TELEMETRY_URL: &'static str = "https://explorer.{}.utnet.org/api/nodes";

/// The account that the node key file names when it names none.
pub const NODE_ACCOUNT: &'static str = "node";

/// The validator account of a local network when the operator names none.
pub const DEFAULT_LOCAL_VALIDATOR: &'static str = "test.unc";

/// The prefix of a randomly named local chain.
pub const TEST_CHAIN_PREFIX: &'static str = "test-chain-";

/// Timeout for the doomslug timer, in milliseconds.
pub const DOOMSLUG_STEP_PERIOD: u64 = 100;

/// Minimum number of peers to start syncing, by default.
pub const DEFAULT_MIN_NUM_PEERS: usize = 3;

/// The chain id of the main network.
pub const MAINNET: &'static str = "mainnet";

/// The chain id of the public test network.
pub const TESTNET: &'static str = "testnet";

} // verus!
