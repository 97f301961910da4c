//! The node configuration: its consensus timing, storage, logging and networking settings,
//! with the defaults that a new node starts from.
use vstd::prelude::*;

use crate::constants::{
    BLOCK_FETCH_HORIZON, BLOCK_HEADER_FETCH_HORIZON, BLOCK_PRODUCTION_TRACKING_DELAY,
    CATCHUP_STEP_PERIOD, CHUNK_REQUEST_RETRY_PERIOD, DEFAULT_MIN_NUM_PEERS, DOOMSLUG_STEP_PERIOD,
    FAST_MAX_BLOCK_PRODUCTION_DELAY, FAST_MIN_BLOCK_PRODUCTION_DELAY, GENESIS_CONFIG_FILENAME,
    MAINNET_MAX_BLOCK_PRODUCTION_DELAY, MAINNET_MIN_BLOCK_PRODUCTION_DELAY,
    TESTNET_MAX_BLOCK_PRODUCTION_DELAY, TESTNET_MIN_BLOCK_PRODUCTION_DELAY, MAX_BLOCK_PRODUCTION_DELAY, MAX_BLOCK_WAIT_DELAY,
    MIN_BLOCK_PRODUCTION_DELAY, NODE_KEY_FILE, VALIDATOR_KEY_FILE,
};
use crate::duration::Duration;
use crate::text::{copy_strings, opt_text, owned, texts};

verus! {

/// How the node prints its periodic status line.
#[derive(Clone, Copy, Debug, PartialEq, Eq, Structural)]
pub enum LogSummaryStyle {
    Plain,
    Colored,
}

/// Garbage collection configuration.
#[derive(Clone, Copy, Debug, PartialEq, Eq, Structural)]
pub struct GcConfig {
    /// Maximum number of blocks to garbage collect at every garbage collection call.
    pub gc_blocks_limit: u64,
    /// Maximum number of height to go through at each garbage collection step.
    pub gc_fork_clean_step: u64,
    /// Number of epochs for which we keep store data.
    pub gc_num_epochs_to_keep: u64,
}

/// The settings of the underlying store that the node's client reads.
#[derive(Clone, Copy, Debug, PartialEq, Eq, Structural)]
pub struct StoreSettings {
    pub enable_statistics_export: bool,
    pub background_migration_threads: usize,
    pub flat_storage_creation_enabled: bool,
    pub flat_storage_creation_period: Duration,
}

/// Consensus timing and sync settings.
#[derive(Clone, Copy, Debug, PartialEq, Eq, Structural)]
pub struct Consensus {
    /// Minimum number of peers to start syncing.
    pub min_num_peers: usize,
    /// Duration to check for producing / skipping block.
    pub block_production_tracking_delay: Duration,
    /// Minimum duration before producing block.
    pub min_block_production_delay: Duration,
    /// Maximum wait for approvals before producing block.
    pub max_block_production_delay: Duration,
    /// Maximum duration before skipping given height.
    pub max_block_wait_delay: Duration,
    /// Produce empty blocks, use `false` for testing.
    pub produce_empty_blocks: bool,
    /// Horizon at which instead of fetching block, fetch full state.
    pub block_fetch_horizon: u64,
    /// Behind this horizon header fetch kicks in.
    pub block_header_fetch_horizon: u64,
    /// Time between check to perform catchup.
    pub catchup_step_period: Duration,
    /// Time between checking to re-request chunks.
    pub chunk_request_retry_period: Duration,
    /// How much time to wait after initial header sync.
    pub header_sync_initial_timeout: Duration,
    /// How much time to wait after some progress is made in header sync.
    pub header_sync_progress_timeout: Duration,
    /// How much time to wait before banning a peer in header sync if sync is too slow.
    pub header_sync_stall_ban_timeout: Duration,
    /// How much to wait for a state sync response before re-requesting.
    pub state_sync_timeout: Duration,
    /// Expected increase of header head weight per second during header sync.
    pub header_sync_expected_height_per_second: u64,
    /// How frequently we check whether we need to sync.
    pub sync_check_period: Duration,
    /// During sync the time we wait before reentering the sync loop.
    pub sync_step_period: Duration,
    /// Time between running doomslug timer.
    pub doomslug_step_period: Duration,
    pub sync_height_threshold: u64,
}

/// Configuration for the split storage.
#[derive(Clone, Copy, Debug, PartialEq, Eq, Structural)]
pub struct SplitStorageConfig {
    pub enable_split_storage_view_client: bool,
    pub cold_store_initial_migration_batch_size: usize,
    pub cold_store_initial_migration_loop_sleep_duration: Duration,
    pub cold_store_loop_sleep_duration: Duration,
}

/// The settings that a node takes, when its configuration names none, from the chain
/// configuration: timeouts, periods and limits of the client.
#[derive(Clone, Copy, Debug, PartialEq, Eq, Structural)]
pub struct ChainDefaults {
    pub header_sync_initial_timeout: Duration,
    pub header_sync_progress_timeout: Duration,
    pub header_sync_stall_ban_timeout: Duration,
    pub state_sync_timeout: Duration,
    pub header_sync_expected_height_per_second: u64,
    pub sync_check_period: Duration,
    pub sync_step_period: Duration,
    pub sync_height_threshold: u64,
    pub log_summary_period: Duration,
    pub gc: GcConfig,
    pub view_client_threads: usize,
    pub view_client_throttle_period: Duration,
    pub trie_viewer_state_size_limit: Option<u64>,
    pub state_sync_enabled: bool,
    pub transaction_pool_size_limit: Option<u64>,
    pub enable_multiline_logging: Option<bool>,
    pub tx_routing_height_horizon: u64,
    pub produce_chunk_add_transactions_time_limit: Option<Duration>,
}

/// The settings of the JSON-RPC server that the node configuration reads and writes.
#[derive(Debug)]
pub struct RpcConfig {
    /// The address the server listens on.
    pub addr: String,
    /// Whether the debug pages are served.
    pub enable_debug_rpc: bool,
}

/// The view of [`RpcConfig`].
pub struct RpcConfigView {
    pub addr: Seq<char>,
    pub enable_debug_rpc: bool,
}

impl View for RpcConfig {
    type V = RpcConfigView;

    open spec fn view(&self) -> RpcConfigView {
        RpcConfigView { addr: self.addr@, enable_debug_rpc: self.enable_debug_rpc }
    }
}

impl RpcConfig {
    /// A copy of these settings.
    pub fn duplicate(&self) -> (r: RpcConfig)
        ensures
            r@ == self@,
    {
        RpcConfig { addr: self.addr.clone(), enable_debug_rpc: self.enable_debug_rpc }
    }
}

/// The telemetry settings: where the node reports to.
#[derive(Debug)]
pub struct TelemetryConfig {
    pub endpoints: Vec<String>,
}

impl View for TelemetryConfig {
    type V = Seq<Seq<char>>;

    open spec fn view(&self) -> Seq<Seq<char>> {
        texts(self.endpoints@)
    }
}

impl TelemetryConfig {
    /// A copy of these settings.
    pub fn duplicate(&self) -> (r: TelemetryConfig)
        ensures
            r@ == self@,
    {
        TelemetryConfig { endpoints: copy_strings(&self.endpoints) }
    }
}

/// The settings of the peer-to-peer network that the node configuration reads and writes.
#[derive(Debug)]
pub struct NetworkSettings {
    /// Local address to listen for incoming connections.
    pub addr: String,
    /// Comma separated list of nodes to connect to.
    pub boot_nodes: String,
    /// Skips waiting for peers before starting node.
    pub skip_sync_wait: bool,
    /// Time to persist Accounts Id in the router without removing them.
    pub ttl_account_id_router: Duration,
}

/// The view of [`NetworkSettings`].
pub struct NetworkSettingsView {
    pub addr: Seq<char>,
    pub boot_nodes: Seq<char>,
    pub skip_sync_wait: bool,
    pub ttl_account_id_router: Duration,
}

impl View for NetworkSettings {
    type V = NetworkSettingsView;

    open spec fn view(&self) -> NetworkSettingsView {
        NetworkSettingsView {
            addr: self.addr@,
            boot_nodes: self.boot_nodes@,
            skip_sync_wait: self.skip_sync_wait,
            ttl_account_id_router: self.ttl_account_id_router,
        }
    }
}

impl NetworkSettings {
    /// A copy of these settings.
    pub fn duplicate(&self) -> (r: NetworkSettings)
        ensures
            r@ == self@,
    {
        NetworkSettings {
            addr: self.addr.clone(),
            boot_nodes: self.boot_nodes.clone(),
            skip_sync_wait: self.skip_sync_wait,
            ttl_account_id_router: self.ttl_account_id_router,
        }
    }
}

/// The defaults of the components that the node configuration embeds: the RPC server,
/// telemetry, the network and the store.
#[derive(Debug)]
pub struct ComponentDefaults {
    pub rpc: RpcConfig,
    pub telemetry: TelemetryConfig,
    pub network: NetworkSettings,
    pub store: StoreSettings,
}

/// The view of [`ComponentDefaults`].
pub struct ComponentDefaultsView {
    pub rpc: RpcConfigView,
    pub telemetry: Seq<Seq<char>>,
    pub network: NetworkSettingsView,
    pub store: StoreSettings,
}

impl View for ComponentDefaults {
    type V = ComponentDefaultsView;

    open spec fn view(&self) -> ComponentDefaultsView {
        ComponentDefaultsView {
            rpc: self.rpc@,
            telemetry: self.telemetry@,
            network: self.network@,
            store: self.store,
        }
    }
}

/// The node configuration, as `config.json` holds it.
#[derive(Debug)]
pub struct Config {
    pub genesis_file: String,
    pub genesis_records_file: Option<String>,
    pub validator_key_file: String,
    pub node_key_file: String,
    pub rpc: Option<RpcConfig>,
    pub telemetry: TelemetryConfig,
    pub network: NetworkSettings,
    pub consensus: Consensus,
    pub tracked_shards: Vec<u64>,
    pub archive: bool,
    /// If not set, it is inferred from `archive`: `save_trie_changes = !archive`.
    pub save_trie_changes: Option<bool>,
    pub log_summary_style: LogSummaryStyle,
    pub log_summary_period: Duration,
    /// Allows more detailed logging, for example a list of orphaned blocks.
    pub enable_multiline_logging: Option<bool>,
    /// Garbage collection configuration.
    pub gc: GcConfig,
    pub view_client_threads: usize,
    pub view_client_throttle_period: Duration,
    pub trie_viewer_state_size_limit: Option<u64>,
    /// If set, overrides value in genesis configuration.
    pub max_gas_burnt_view: Option<u64>,
    /// Parameters of the underlying storage.
    pub store: StoreSettings,
    /// Parameters of the underlying cold storage.
    pub cold_store: Option<StoreSettings>,
    /// Configuration for the split storage.
    pub split_storage: Option<SplitStorageConfig>,
    /// The node will stop after the head exceeds this height.
    pub expected_shutdown: Option<u64>,
    /// Whether to use state sync or do a block sync instead.
    pub state_sync_enabled: bool,
    /// Limit of the size of per-shard transaction pool measured in bytes.
    pub transaction_pool_size_limit: Option<u64>,
    /// If the node is not a chunk producer within that many blocks, then route
    /// to upcoming chunk producers.
    pub tx_routing_height_horizon: u64,
    /// Limit the time of adding transactions to a chunk.
    pub produce_chunk_add_transactions_time_limit: Option<Duration>,
}

/// The view of [`Config`].
pub struct ConfigView {
    pub genesis_file: Seq<char>,
    pub genesis_records_file: Option<Seq<char>>,
    pub validator_key_file: Seq<char>,
    pub node_key_file: Seq<char>,
    pub rpc: Option<RpcConfigView>,
    pub telemetry: Seq<Seq<char>>,
    pub network: NetworkSettingsView,
    pub consensus: Consensus,
    pub tracked_shards: Seq<u64>,
    pub archive: bool,
    pub save_trie_changes: Option<bool>,
    pub log_summary_style: LogSummaryStyle,
    pub log_summary_period: Duration,
    pub enable_multiline_logging: Option<bool>,
    pub gc: GcConfig,
    pub view_client_threads: usize,
    pub view_client_throttle_period: Duration,
    pub trie_viewer_state_size_limit: Option<u64>,
    pub max_gas_burnt_view: Option<u64>,
    pub store: StoreSettings,
    pub cold_store: Option<StoreSettings>,
    pub split_storage: Option<SplitStorageConfig>,
    pub expected_shutdown: Option<u64>,
    pub state_sync_enabled: bool,
    pub transaction_pool_size_limit: Option<u64>,
    pub tx_routing_height_horizon: u64,
    pub produce_chunk_add_transactions_time_limit: Option<Duration>,
}

/// The view of optional RPC settings.
pub open spec fn opt_rpc_view(o: Option<RpcConfig>) -> Option<RpcConfigView> {
    match o {
        Some(r) => Some(r@),
        None => None,
    }
}

impl View for Config {
    type V = ConfigView;

    open spec fn view(&self) -> ConfigView {
        ConfigView {
            genesis_file: self.genesis_file@,
            genesis_records_file: opt_text(self.genesis_records_file),
            validator_key_file: self.validator_key_file@,
            node_key_file: self.node_key_file@,
            rpc: opt_rpc_view(self.rpc),
            telemetry: self.telemetry@,
            network: self.network@,
            consensus: self.consensus,
            tracked_shards: self.tracked_shards@,
            archive: self.archive,
            save_trie_changes: self.save_trie_changes,
            log_summary_style: self.log_summary_style,
            log_summary_period: self.log_summary_period,
            enable_multiline_logging: self.enable_multiline_logging,
            gc: self.gc,
            view_client_threads: self.view_client_threads,
            view_client_throttle_period: self.view_client_throttle_period,
            trie_viewer_state_size_limit: self.trie_viewer_state_size_limit,
            max_gas_burnt_view: self.max_gas_burnt_view,
            store: self.store,
            cold_store: self.cold_store,
            split_storage: self.split_storage,
            expected_shutdown: self.expected_shutdown,
            state_sync_enabled: self.state_sync_enabled,
            transaction_pool_size_limit: self.transaction_pool_size_limit,
            tx_routing_height_horizon: self.tx_routing_height_horizon,
            produce_chunk_add_transactions_time_limit: self.produce_chunk_add_transactions_time_limit,
        }
    }
}

/// The period of the doomslug timer when the configuration names none.
pub fn default_doomslug_step_period() -> (d: Duration)
    ensures
        d == Duration::spec_from_millis(DOOMSLUG_STEP_PERIOD),
{
    Duration::from_millis(DOOMSLUG_STEP_PERIOD)
}

/// Whether `value` is `false`; a field for which it holds is left out when the
/// configuration is written.
pub fn is_false(value: &bool) -> (r: bool)
    ensures
        r == !*value,
{
    !*value
}

/// The split-storage view client is off by default.
pub fn default_enable_split_storage_view_client() -> (b: bool)
    ensures
        b == false,
{
    false
}

/// The batch size of the initial cold store migration, by default.
pub fn default_cold_store_initial_migration_batch_size() -> (n: usize)
    ensures
        n == 500_000_000,
{
    500_000_000
}

/// The pause between loops of the initial cold store migration, by default.
pub fn default_cold_store_initial_migration_loop_sleep_duration() -> (d: Duration)
    ensures
        d == Duration::spec_from_secs(30),
{
    Duration::from_secs(30)
}

/// The pause between loops of the cold store, by default.
pub fn default_cold_store_loop_sleep_duration() -> (d: Duration)
    ensures
        d == Duration::spec_from_secs(1),
{
    Duration::from_secs(1)
}

/// The split storage settings that a node starts from.
pub open spec fn spec_default_split_storage() -> SplitStorageConfig {
    SplitStorageConfig {
        enable_split_storage_view_client: false,
        cold_store_initial_migration_batch_size: 500_000_000,
        cold_store_initial_migration_loop_sleep_duration: Duration::spec_from_secs(30),
        cold_store_loop_sleep_duration: Duration::spec_from_secs(1),
    }
}

impl Default for SplitStorageConfig {
    fn default() -> (r: SplitStorageConfig)
        ensures
            r == spec_default_split_storage(),
    {
        SplitStorageConfig {
            enable_split_storage_view_client: default_enable_split_storage_view_client(),
            cold_store_initial_migration_batch_size:
                default_cold_store_initial_migration_batch_size(),
            cold_store_initial_migration_loop_sleep_duration:
                default_cold_store_initial_migration_loop_sleep_duration(),
            cold_store_loop_sleep_duration: default_cold_store_loop_sleep_duration(),
        }
    }
}

/// The consensus settings that a node starts from.
pub open spec fn spec_default_consensus(d: ChainDefaults) -> Consensus {
    Consensus {
        min_num_peers: DEFAULT_MIN_NUM_PEERS,
        block_production_tracking_delay: Duration::spec_from_millis(BLOCK_PRODUCTION_TRACKING_DELAY),
        min_block_production_delay: Duration::spec_from_millis(MIN_BLOCK_PRODUCTION_DELAY),
        max_block_production_delay: Duration::spec_from_millis(MAX_BLOCK_PRODUCTION_DELAY),
        max_block_wait_delay: Duration::spec_from_millis(MAX_BLOCK_WAIT_DELAY),
        produce_empty_blocks: true,
        block_fetch_horizon: BLOCK_FETCH_HORIZON,
        block_header_fetch_horizon: BLOCK_HEADER_FETCH_HORIZON,
        catchup_step_period: Duration::spec_from_millis(CATCHUP_STEP_PERIOD),
        chunk_request_retry_period: Duration::spec_from_millis(CHUNK_REQUEST_RETRY_PERIOD),
        header_sync_initial_timeout: d.header_sync_initial_timeout,
        header_sync_progress_timeout: d.header_sync_progress_timeout,
        header_sync_stall_ban_timeout: d.header_sync_stall_ban_timeout,
        state_sync_timeout: d.state_sync_timeout,
        header_sync_expected_height_per_second: d.header_sync_expected_height_per_second,
        sync_check_period: d.sync_check_period,
        sync_step_period: d.sync_step_period,
        doomslug_step_period: Duration::spec_from_millis(DOOMSLUG_STEP_PERIOD),
        sync_height_threshold: d.sync_height_threshold,
    }
}

impl Consensus {
    /// The consensus settings that a node starts from, with the chain's defaults for
    /// the sync timeouts.
    pub fn with_defaults(d: ChainDefaults) -> (c: Consensus)
        ensures
            c == spec_default_consensus(d),
    {
        Consensus {
            min_num_peers: DEFAULT_MIN_NUM_PEERS,
            block_production_tracking_delay: Duration::from_millis(BLOCK_PRODUCTION_TRACKING_DELAY),
            min_block_production_delay: Duration::from_millis(MIN_BLOCK_PRODUCTION_DELAY),
            max_block_production_delay: Duration::from_millis(MAX_BLOCK_PRODUCTION_DELAY),
            max_block_wait_delay: Duration::from_millis(MAX_BLOCK_WAIT_DELAY),
            produce_empty_blocks: true,
            block_fetch_horizon: BLOCK_FETCH_HORIZON,
            block_header_fetch_horizon: BLOCK_HEADER_FETCH_HORIZON,
            catchup_step_period: Duration::from_millis(CATCHUP_STEP_PERIOD),
            chunk_request_retry_period: Duration::from_millis(CHUNK_REQUEST_RETRY_PERIOD),
            header_sync_initial_timeout: d.header_sync_initial_timeout,
            header_sync_progress_timeout: d.header_sync_progress_timeout,
            header_sync_stall_ban_timeout: d.header_sync_stall_ban_timeout,
            state_sync_timeout: d.state_sync_timeout,
            header_sync_expected_height_per_second: d.header_sync_expected_height_per_second,
            sync_check_period: d.sync_check_period,
            sync_step_period: d.sync_step_period,
            doomslug_step_period: default_doomslug_step_period(),
            sync_height_threshold: d.sync_height_threshold,
        }
    }
}

/// The configuration that a node starts from.
pub open spec fn spec_default_config(d: ChainDefaults, c: ComponentDefaultsView) -> ConfigView {
    ConfigView {
        genesis_file: GENESIS_CONFIG_FILENAME@,
        genesis_records_file: None,
        validator_key_file: VALIDATOR_KEY_FILE@,
        node_key_file: NODE_KEY_FILE@,
        rpc: Some(c.rpc),
        telemetry: c.telemetry,
        network: c.network,
        consensus: spec_default_consensus(d),
        tracked_shards: seq![0u64],
        archive: false,
        save_trie_changes: None,
        log_summary_style: LogSummaryStyle::Colored,
        log_summary_period: d.log_summary_period,
        enable_multiline_logging: d.enable_multiline_logging,
        gc: d.gc,
        view_client_threads: d.view_client_threads,
        view_client_throttle_period: d.view_client_throttle_period,
        trie_viewer_state_size_limit: d.trie_viewer_state_size_limit,
        max_gas_burnt_view: None,
        store: c.store,
        cold_store: None,
        split_storage: None,
        expected_shutdown: None,
        state_sync_enabled: d.state_sync_enabled,
        transaction_pool_size_limit: d.transaction_pool_size_limit,
        tx_routing_height_horizon: d.tx_routing_height_horizon,
        produce_chunk_add_transactions_time_limit: d.produce_chunk_add_transactions_time_limit,
    }
}

impl Config {
    /// The configuration that a node starts from, with the chain's defaults and the
    /// components' defaults.
    pub fn with_defaults(d: ChainDefaults, c: &ComponentDefaults) -> (r: Config)
        ensures
            r@ == spec_default_config(d, c@),
            r.transaction_pool_size_limit == d.transaction_pool_size_limit,
            r.state_sync_enabled == d.state_sync_enabled,
            r.gc == d.gc,
            r.consensus.header_sync_initial_timeout == d.header_sync_initial_timeout,
            r.consensus.state_sync_timeout == d.state_sync_timeout,
            r.expected_shutdown is None,
    {
        let mut tracked_shards: Vec<u64> = Vec::new();
        tracked_shards.push(0);
        let r = Config {
            genesis_file: owned(GENESIS_CONFIG_FILENAME),
            genesis_records_file: None,
            validator_key_file: owned(VALIDATOR_KEY_FILE),
            node_key_file: owned(NODE_KEY_FILE),
            rpc: Some(c.rpc.duplicate()),
            telemetry: c.telemetry.duplicate(),
            network: c.network.duplicate(),
            consensus: Consensus::with_defaults(d),
            tracked_shards,
            archive: false,
            save_trie_changes: None,
            log_summary_style: LogSummaryStyle::Colored,
            log_summary_period: d.log_summary_period,
            enable_multiline_logging: d.enable_multiline_logging,
            gc: d.gc,
            view_client_threads: d.view_client_threads,
            view_client_throttle_period: d.view_client_throttle_period,
            trie_viewer_state_size_limit: d.trie_viewer_state_size_limit,
            max_gas_burnt_view: None,
            store: c.store,
            cold_store: None,
            split_storage: None,
            expected_shutdown: None,
            state_sync_enabled: d.state_sync_enabled,
            transaction_pool_size_limit: d.transaction_pool_size_limit,
            tx_routing_height_horizon: d.tx_routing_height_horizon,
            produce_chunk_add_transactions_time_limit: d.produce_chunk_add_transactions_time_limit,
        };
        assert(r.tracked_shards@ =~= seq![0u64]);
        r
    }
}

/// Which network a chain id names: one of the two public networks, or any other chain.
#[derive(Clone, Copy, Debug, PartialEq, Eq, Structural)]
pub enum ChainKind {
    Mainnet,
    Testnet,
    Local,
}

impl ChainKind {
    /// Whether the chain is one of the public networks.
    pub open spec fn is_public(self) -> bool {
        self is Mainnet || self is Testnet
    }
}

/// The address of the RPC server that a configuration names, if it has one.
pub open spec fn spec_rpc_addr(c: ConfigView) -> Option<Seq<char>> {
    match c.rpc {
        Some(r) => Some(r.addr),
        None => None,
    }
}

/// The configuration `c` with its RPC server listening on `addr`; where `c` has no RPC
/// settings, the default ones `d` are taken first.
pub open spec fn spec_set_rpc_addr(c: ConfigView, addr: Seq<char>, d: RpcConfigView) -> ConfigView {
    let rpc = match c.rpc {
        Some(r) => RpcConfigView { addr, enable_debug_rpc: r.enable_debug_rpc },
        None => RpcConfigView { addr, enable_debug_rpc: d.enable_debug_rpc },
    };
    ConfigView { rpc: Some(rpc), ..c }
}

/// The block production delays, as `(minimum, maximum)` in milliseconds, that a chain of
/// kind `chain` prescribes; `None` where the configuration keeps its own.
pub open spec fn spec_production_delays(chain: ChainKind, fast: bool) -> Option<(u64, u64)> {
    match chain {
        ChainKind::Mainnet => Some((MAINNET_MIN_BLOCK_PRODUCTION_DELAY, MAINNET_MAX_BLOCK_PRODUCTION_DELAY)),
        ChainKind::Testnet => Some((TESTNET_MIN_BLOCK_PRODUCTION_DELAY, TESTNET_MAX_BLOCK_PRODUCTION_DELAY)),
        ChainKind::Local => if fast {
            Some((FAST_MIN_BLOCK_PRODUCTION_DELAY, FAST_MAX_BLOCK_PRODUCTION_DELAY))
        } else {
            None
        },
    }
}

/// The consensus settings `c` with the block production delays of `chain`.
pub open spec fn spec_with_production_delays(c: Consensus, chain: ChainKind, fast: bool) -> Consensus {
    match spec_production_delays(chain, fast) {
        Some((lo, hi)) => Consensus {
            min_block_production_delay: Duration::spec_from_millis(lo),
            max_block_production_delay: Duration::spec_from_millis(hi),
            ..c
        },
        None => c,
    }
}

/// Sets the block production delays that the chain prescribes: the mainnet and testnet
/// delays on those networks, the fast delays on any other chain when `fast` is set.
pub fn set_block_production_delay(chain: ChainKind, fast: bool, config: &mut Config)
    ensures
        final(config)@ == (ConfigView {
            consensus: spec_with_production_delays(old(config).consensus, chain, fast),
            ..old(config)@
        }),
{
    match chain {
        ChainKind::Mainnet => {
            config.consensus.min_block_production_delay =
                Duration::from_millis(MAINNET_MIN_BLOCK_PRODUCTION_DELAY);
            config.consensus.max_block_production_delay =
                Duration::from_millis(MAINNET_MAX_BLOCK_PRODUCTION_DELAY);
        },
        ChainKind::Testnet => {
            config.consensus.min_block_production_delay =
                Duration::from_millis(TESTNET_MIN_BLOCK_PRODUCTION_DELAY);
            config.consensus.max_block_production_delay =
                Duration::from_millis(TESTNET_MAX_BLOCK_PRODUCTION_DELAY);
        },
        ChainKind::Local => {
            if fast {
                config.consensus.min_block_production_delay =
                    Duration::from_millis(FAST_MIN_BLOCK_PRODUCTION_DELAY);
                config.consensus.max_block_production_delay =
                    Duration::from_millis(FAST_MAX_BLOCK_PRODUCTION_DELAY);
            }
        },
    }
}

impl Config {
    /// The address of the RPC server, if the configuration has RPC settings.
    pub fn rpc_addr(&self) -> (r: Option<String>)
        ensures
            opt_text(r) == spec_rpc_addr(self@),
    {
        match &self.rpc {
            Some(rpc) => Some(rpc.addr.clone()),
            None => None,
        }
    }

    /// Makes the RPC server listen on `addr`, starting from the default RPC settings
    /// `default_rpc` where the configuration has none.
    pub fn set_rpc_addr(&mut self, addr: String, default_rpc: &RpcConfig)
        ensures
            final(self)@ == spec_set_rpc_addr(old(self)@, addr@, default_rpc@),
    {
        let current = self.rpc.take();
        let updated = match current {
            Some(rpc) => RpcConfig { addr, enable_debug_rpc: rpc.enable_debug_rpc },
            None => RpcConfig { addr, enable_debug_rpc: default_rpc.enable_debug_rpc },
        };
        self.rpc = Some(updated);
    }
}

/// Reading the RPC address after setting it gives back what was set, whatever the
/// configuration held before.
pub proof fn law_rpc_addr_reads_back_set(c: ConfigView, addr: Seq<char>, d: RpcConfigView)
    ensures
        spec_rpc_addr(spec_set_rpc_addr(c, addr, d)) == Some(addr),
{
}

/// Setting the RPC address touches nothing but the RPC settings.
pub proof fn law_set_rpc_addr_keeps_other_settings(c: ConfigView, addr: Seq<char>, d: RpcConfigView)
    ensures
        (ConfigView { rpc: c.rpc, ..spec_set_rpc_addr(c, addr, d) }) == c,
{
}

/// Setting the block production delays twice gives what setting them once gives.
pub proof fn law_production_delays_idempotent(c: Consensus, chain: ChainKind, fast: bool)
    ensures
        spec_with_production_delays(spec_with_production_delays(c, chain, fast), chain, fast)
            == spec_with_production_delays(c, chain, fast),
{
}

/// Every delay pair that a chain prescribes has its minimum below its maximum, so a
/// configuration whose delays were in order stays in order.
pub proof fn law_production_delays_ordered(c: Consensus, chain: ChainKind, fast: bool)
    requires
        c.min_block_production_delay.total_nanos() <= c.max_block_production_delay.total_nanos(),
    ensures
        spec_with_production_delays(c, chain, fast).min_block_production_delay.total_nanos()
            <= spec_with_production_delays(c, chain, fast).max_block_production_delay.total_nanos(),
{
}

/// The consensus settings that a node starts from have their block production delays in
/// order.
pub proof fn law_default_production_delays_ordered(d: ChainDefaults)
    ensures
        spec_default_consensus(d).min_block_production_delay.total_nanos()
            <= spec_default_consensus(d).max_block_production_delay.total_nanos(),
{
}

/// Every span of the consensus settings is well-formed.
pub open spec fn consensus_wf(c: Consensus) -> bool {
    &&& c.block_production_tracking_delay.wf()
    &&& c.min_block_production_delay.wf()
    &&& c.max_block_production_delay.wf()
    &&& c.max_block_wait_delay.wf()
    &&& c.catchup_step_period.wf()
    &&& c.chunk_request_retry_period.wf()
    &&& c.header_sync_initial_timeout.wf()
    &&& c.header_sync_progress_timeout.wf()
    &&& c.header_sync_stall_ban_timeout.wf()
    &&& c.state_sync_timeout.wf()
    &&& c.sync_check_period.wf()
    &&& c.sync_step_period.wf()
    &&& c.doomslug_step_period.wf()
}

/// Every sync span that the chain's defaults give is well-formed.
pub open spec fn chain_defaults_wf(d: ChainDefaults) -> bool {
    &&& d.header_sync_initial_timeout.wf()
    &&& d.header_sync_progress_timeout.wf()
    &&& d.header_sync_stall_ban_timeout.wf()
    &&& d.state_sync_timeout.wf()
    &&& d.sync_check_period.wf()
    &&& d.sync_step_period.wf()
}

/// The consensus settings that a node starts from are well-formed wherever the chain's
/// defaults are.
pub proof fn law_default_consensus_wf(d: ChainDefaults)
    requires
        chain_defaults_wf(d),
    ensures
        consensus_wf(spec_default_consensus(d)),
{
}

/// Setting the block production delays keeps the consensus settings well-formed.
pub proof fn law_production_delays_keep_wf(c: Consensus, chain: ChainKind, fast: bool)
    requires
        consensus_wf(c),
    ensures
        consensus_wf(spec_with_production_delays(c, chain, fast)),
{
}


/// The default configuration takes every chain default and every component default
/// unchanged, and sets none of the optional limits that are not defaults: no expected
/// shutdown, no gas limit for views, no cold store or split storage, no records file.
pub proof fn law_default_config_takes_defaults(d: ChainDefaults, c: ComponentDefaultsView)
    ensures
        ({
            let r = spec_default_config(d, c);
            &&& r.consensus.header_sync_initial_timeout == d.header_sync_initial_timeout
            &&& r.consensus.header_sync_progress_timeout == d.header_sync_progress_timeout
            &&& r.consensus.header_sync_stall_ban_timeout == d.header_sync_stall_ban_timeout
            &&& r.consensus.state_sync_timeout == d.state_sync_timeout
            &&& r.consensus.header_sync_expected_height_per_second == d.header_sync_expected_height_per_second
            &&& r.consensus.sync_check_period == d.sync_check_period
            &&& r.consensus.sync_step_period == d.sync_step_period
            &&& r.consensus.sync_height_threshold == d.sync_height_threshold
            &&& r.log_summary_period == d.log_summary_period
            &&& r.gc == d.gc
            &&& r.view_client_threads == d.view_client_threads
            &&& r.view_client_throttle_period == d.view_client_throttle_period
            &&& r.trie_viewer_state_size_limit == d.trie_viewer_state_size_limit
            &&& r.state_sync_enabled == d.state_sync_enabled
            &&& r.transaction_pool_size_limit == d.transaction_pool_size_limit
            &&& r.enable_multiline_logging == d.enable_multiline_logging
            &&& r.tx_routing_height_horizon == d.tx_routing_height_horizon
            &&& r.produce_chunk_add_transactions_time_limit == d.produce_chunk_add_transactions_time_limit
            &&& r.rpc == Some(c.rpc)
            &&& r.telemetry == c.telemetry
            &&& r.network == c.network
            &&& r.store == c.store
            &&& r.expected_shutdown is None
            &&& r.max_gas_burnt_view is None
            &&& r.cold_store is None
            &&& r.split_storage is None
            &&& r.genesis_records_file is None
            &&& !r.archive
            &&& r.save_trie_changes is None
        }),
{
}

} // verus!
