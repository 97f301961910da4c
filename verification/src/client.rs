//! The settings that a running node is assembled from its configuration and genesis.
use vstd::prelude::*;

use crate::config::{
    opt_rpc_view, spec_rpc_addr, Config, ConfigView, GcConfig, LogSummaryStyle, RpcConfig,
    RpcConfigView, TelemetryConfig,
};
use crate::duration::Duration;
use crate::text::{copy_opt_string, copy_u64s, opt_text};

verus! {

/// What the node reads of its genesis when it starts.
#[derive(Debug)]
pub struct GenesisInfo {
    pub chain_id: String,
    pub epoch_length: u64,
    pub num_block_producer_seats: u64,
}

/// The client settings other than the chain id and the RPC address.
#[derive(Clone, Copy, Debug, PartialEq, Eq, Structural)]
pub struct ClientSettings {
    pub expected_shutdown: Option<u64>,
    pub block_production_tracking_delay: Duration,
    pub min_block_production_delay: Duration,
    pub max_block_production_delay: Duration,
    pub max_block_wait_delay: Duration,
    pub skip_sync_wait: bool,
    pub sync_check_period: Duration,
    pub sync_step_period: Duration,
    pub sync_height_threshold: u64,
    pub header_sync_initial_timeout: Duration,
    pub header_sync_progress_timeout: Duration,
    pub header_sync_stall_ban_timeout: Duration,
    pub header_sync_expected_height_per_second: u64,
    pub state_sync_timeout: Duration,
    pub min_num_peers: usize,
    pub log_summary_period: Duration,
    pub produce_empty_blocks: bool,
    pub epoch_length: u64,
    pub num_block_producer_seats: u64,
    pub ttl_account_id_router: Duration,
    pub block_fetch_horizon: u64,
    pub block_header_fetch_horizon: u64,
    pub catchup_step_period: Duration,
    pub chunk_request_retry_period: Duration,
    pub doomslug_step_period: Duration,
    pub archive: bool,
    pub save_trie_changes: bool,
    pub log_summary_style: LogSummaryStyle,
    pub gc: GcConfig,
    pub view_client_threads: usize,
    pub view_client_throttle_period: Duration,
    pub trie_viewer_state_size_limit: Option<u64>,
    pub max_gas_burnt_view: Option<u64>,
    pub enable_statistics_export: bool,
    pub client_background_migration_threads: usize,
    pub flat_storage_creation_enabled: bool,
    pub flat_storage_creation_period: Duration,
    pub state_sync_enabled: bool,
    pub transaction_pool_size_limit: Option<u64>,
    pub enable_multiline_logging: bool,
    pub tx_routing_height_horizon: u64,
    pub produce_chunk_add_transactions_time_limit: Option<Duration>,
}

/// The settings of the node's client.
#[derive(Debug)]
pub struct ClientConfig {
    pub chain_id: String,
    pub rpc_addr: Option<String>,
    pub settings: ClientSettings,
}

/// The client settings that a configuration and a genesis give: the configuration's
/// values, the genesis' epoch length and seats, trie changes saved unless the node
/// archives (where the configuration does not say), and multiline logging on where the
/// configuration does not say.
pub open spec fn spec_client_settings(c: ConfigView, epoch_length: u64, num_block_producer_seats: u64) -> ClientSettings {
    ClientSettings {
        expected_shutdown: c.expected_shutdown,
        block_production_tracking_delay: c.consensus.block_production_tracking_delay,
        min_block_production_delay: c.consensus.min_block_production_delay,
        max_block_production_delay: c.consensus.max_block_production_delay,
        max_block_wait_delay: c.consensus.max_block_wait_delay,
        skip_sync_wait: c.network.skip_sync_wait,
        sync_check_period: c.consensus.sync_check_period,
        sync_step_period: c.consensus.sync_step_period,
        sync_height_threshold: c.consensus.sync_height_threshold,
        header_sync_initial_timeout: c.consensus.header_sync_initial_timeout,
        header_sync_progress_timeout: c.consensus.header_sync_progress_timeout,
        header_sync_stall_ban_timeout: c.consensus.header_sync_stall_ban_timeout,
        header_sync_expected_height_per_second: c.consensus.header_sync_expected_height_per_second,
        state_sync_timeout: c.consensus.state_sync_timeout,
        min_num_peers: c.consensus.min_num_peers,
        log_summary_period: c.log_summary_period,
        produce_empty_blocks: c.consensus.produce_empty_blocks,
        epoch_length,
        num_block_producer_seats,
        ttl_account_id_router: c.network.ttl_account_id_router,
        block_fetch_horizon: c.consensus.block_fetch_horizon,
        block_header_fetch_horizon: c.consensus.block_header_fetch_horizon,
        catchup_step_period: c.consensus.catchup_step_period,
        chunk_request_retry_period: c.consensus.chunk_request_retry_period,
        doomslug_step_period: c.consensus.doomslug_step_period,
        archive: c.archive,
        save_trie_changes: match c.save_trie_changes {
            Some(b) => b,
            None => !c.archive,
        },
        log_summary_style: c.log_summary_style,
        gc: c.gc,
        view_client_threads: c.view_client_threads,
        view_client_throttle_period: c.view_client_throttle_period,
        trie_viewer_state_size_limit: c.trie_viewer_state_size_limit,
        max_gas_burnt_view: c.max_gas_burnt_view,
        enable_statistics_export: c.store.enable_statistics_export,
        client_background_migration_threads: c.store.background_migration_threads,
        flat_storage_creation_enabled: c.store.flat_storage_creation_enabled,
        flat_storage_creation_period: c.store.flat_storage_creation_period,
        state_sync_enabled: c.state_sync_enabled,
        transaction_pool_size_limit: c.transaction_pool_size_limit,
        enable_multiline_logging: match c.enable_multiline_logging {
            Some(b) => b,
            None => true,
        },
        tx_routing_height_horizon: c.tx_routing_height_horizon,
        produce_chunk_add_transactions_time_limit: c.produce_chunk_add_transactions_time_limit,
    }
}

impl Config {
    /// A copy of this configuration.
    pub fn duplicate(&self) -> (r: Config)
        ensures
            r@ == self@,
    {
        let rpc = match &self.rpc {
            Some(r) => Some(r.duplicate()),
            None => None,
        };
        Config {
            genesis_file: self.genesis_file.clone(),
            genesis_records_file: copy_opt_string(&self.genesis_records_file),
            validator_key_file: self.validator_key_file.clone(),
            node_key_file: self.node_key_file.clone(),
            rpc,
            telemetry: self.telemetry.duplicate(),
            network: self.network.duplicate(),
            consensus: self.consensus,
            tracked_shards: copy_u64s(&self.tracked_shards),
            archive: self.archive,
            save_trie_changes: self.save_trie_changes,
            log_summary_style: self.log_summary_style,
            log_summary_period: self.log_summary_period,
            enable_multiline_logging: self.enable_multiline_logging,
            gc: self.gc,
            view_client_threads: self.view_client_threads,
            view_client_throttle_period: self.view_client_throttle_period,
            trie_viewer_state_size_limit: self.trie_viewer_state_size_limit,
            max_gas_burnt_view: self.max_gas_burnt_view,
            store: self.store,
            cold_store: self.cold_store,
            split_storage: self.split_storage,
            expected_shutdown: self.expected_shutdown,
            state_sync_enabled: self.state_sync_enabled,
            transaction_pool_size_limit: self.transaction_pool_size_limit,
            tx_routing_height_horizon: self.tx_routing_height_horizon,
            produce_chunk_add_transactions_time_limit: self.produce_chunk_add_transactions_time_limit,
        }
    }
}

/// The settings of a running node: its configuration, the client settings made from it
/// and the genesis, and the RPC and telemetry settings taken from the configuration.
#[derive(Debug)]
pub struct UncConfig {
    pub config: Config,
    pub client_config: ClientConfig,
    pub rpc_config: Option<RpcConfig>,
    pub telemetry_config: TelemetryConfig,
}

impl UncConfig {
    /// Assembles the settings of a running node from its configuration and what it reads
    /// of its genesis.
    pub fn new(config: Config, genesis: &GenesisInfo) -> (r: UncConfig)
        ensures
            r.config@ == config@,
            r.client_config.chain_id@ == genesis.chain_id@,
            opt_text(r.client_config.rpc_addr) == spec_rpc_addr(config@),
            r.client_config.settings == spec_client_settings(
                config@,
                genesis.epoch_length,
                genesis.num_block_producer_seats,
            ),
            opt_rpc_view(r.rpc_config) == config@.rpc,
            r.telemetry_config@ == config@.telemetry,
            r.client_config.settings.expected_shutdown == config@.expected_shutdown,
            r.client_config.settings.transaction_pool_size_limit == config@.transaction_pool_size_limit,
            r.client_config.settings.epoch_length == genesis.epoch_length,
            r.client_config.settings.num_block_producer_seats == genesis.num_block_producer_seats,
            r.client_config.settings.archive == config@.archive,
            r.client_config.settings.min_num_peers == config@.consensus.min_num_peers,
    {
        let kept = config.duplicate();
        let rpc_addr = config.rpc_addr();
        let settings = ClientSettings {
            expected_shutdown: config.expected_shutdown,
            block_production_tracking_delay: config.consensus.block_production_tracking_delay,
            min_block_production_delay: config.consensus.min_block_production_delay,
            max_block_production_delay: config.consensus.max_block_production_delay,
            max_block_wait_delay: config.consensus.max_block_wait_delay,
            skip_sync_wait: config.network.skip_sync_wait,
            sync_check_period: config.consensus.sync_check_period,
            sync_step_period: config.consensus.sync_step_period,
            sync_height_threshold: config.consensus.sync_height_threshold,
            header_sync_initial_timeout: config.consensus.header_sync_initial_timeout,
            header_sync_progress_timeout: config.consensus.header_sync_progress_timeout,
            header_sync_stall_ban_timeout: config.consensus.header_sync_stall_ban_timeout,
            header_sync_expected_height_per_second: config.consensus.header_sync_expected_height_per_second,
            state_sync_timeout: config.consensus.state_sync_timeout,
            min_num_peers: config.consensus.min_num_peers,
            log_summary_period: config.log_summary_period,
            produce_empty_blocks: config.consensus.produce_empty_blocks,
            epoch_length: genesis.epoch_length,
            num_block_producer_seats: genesis.num_block_producer_seats,
            ttl_account_id_router: config.network.ttl_account_id_router,
            block_fetch_horizon: config.consensus.block_fetch_horizon,
            block_header_fetch_horizon: config.consensus.block_header_fetch_horizon,
            catchup_step_period: config.consensus.catchup_step_period,
            chunk_request_retry_period: config.consensus.chunk_request_retry_period,
            doomslug_step_period: config.consensus.doomslug_step_period,
            archive: config.archive,
            save_trie_changes: match config.save_trie_changes {
                Some(b) => b,
                None => !config.archive,
            },
            log_summary_style: config.log_summary_style,
            gc: config.gc,
            view_client_threads: config.view_client_threads,
            view_client_throttle_period: config.view_client_throttle_period,
            trie_viewer_state_size_limit: config.trie_viewer_state_size_limit,
            max_gas_burnt_view: config.max_gas_burnt_view,
            enable_statistics_export: config.store.enable_statistics_export,
            client_background_migration_threads: config.store.background_migration_threads,
            flat_storage_creation_enabled: config.store.flat_storage_creation_enabled,
            flat_storage_creation_period: config.store.flat_storage_creation_period,
            state_sync_enabled: config.state_sync_enabled,
            transaction_pool_size_limit: config.transaction_pool_size_limit,
            enable_multiline_logging: match config.enable_multiline_logging {
                Some(b) => b,
                None => true,
            },
            tx_routing_height_horizon: config.tx_routing_height_horizon,
            produce_chunk_add_transactions_time_limit: config.produce_chunk_add_transactions_time_limit,
        };
        let client_config = ClientConfig { chain_id: genesis.chain_id.clone(), rpc_addr, settings };
        UncConfig {
            config: kept,
            client_config,
            rpc_config: config.rpc,
            telemetry_config: config.telemetry,
        }
    }

    /// The address of the RPC server, if the node serves RPC.
    pub fn rpc_addr(&self) -> (r: Option<String>)
        ensures
            opt_text(r) == match opt_rpc_view(self.rpc_config) {
                Some(v) => Some(v.addr),
                None => None,
            },
    {
        match &self.rpc_config {
            Some(rpc) => Some(rpc.addr.clone()),
            None => None,
        }
    }
}

/// A running node serves RPC at the address its configuration names: the address of the
/// assembled settings equals the configuration's.
pub proof fn law_running_node_keeps_rpc_addr(c: ConfigView, rpc: Option<RpcConfigView>)
    requires
        rpc == c.rpc,
    ensures
        match rpc {
            Some(v) => Some(v.addr),
            None => None,
        } == spec_rpc_addr(c),
{
}

/// Trie changes are saved exactly when the configuration asks for them or, where it does
/// not say, when the node does not archive.
pub proof fn law_save_trie_changes(c: ConfigView, epoch_length: u64, seats: u64)
    ensures
        spec_client_settings(c, epoch_length, seats).save_trie_changes
            == (c.save_trie_changes == Some(true) || (c.save_trie_changes is None && !c.archive)),
{
}


/// The settings of a running node mirror its configuration: each setting that the
/// configuration holds is taken from it unchanged, the epoch length and the number of
/// block producer seats come from the genesis, trie changes are saved unless an archive
/// node says otherwise, and multiline logging is on unless the configuration turns it off.
pub proof fn law_client_settings_mirror_config(c: ConfigView, epoch_length: u64, num_block_producer_seats: u64)
    ensures
        ({
            let s = spec_client_settings(c, epoch_length, num_block_producer_seats);
            &&& s.expected_shutdown == c.expected_shutdown
            &&& s.block_production_tracking_delay == c.consensus.block_production_tracking_delay
            &&& s.min_block_production_delay == c.consensus.min_block_production_delay
            &&& s.max_block_production_delay == c.consensus.max_block_production_delay
            &&& s.max_block_wait_delay == c.consensus.max_block_wait_delay
            &&& s.skip_sync_wait == c.network.skip_sync_wait
            &&& s.sync_check_period == c.consensus.sync_check_period
            &&& s.sync_step_period == c.consensus.sync_step_period
            &&& s.sync_height_threshold == c.consensus.sync_height_threshold
            &&& s.header_sync_initial_timeout == c.consensus.header_sync_initial_timeout
            &&& s.header_sync_progress_timeout == c.consensus.header_sync_progress_timeout
            &&& s.header_sync_stall_ban_timeout == c.consensus.header_sync_stall_ban_timeout
            &&& s.header_sync_expected_height_per_second == c.consensus.header_sync_expected_height_per_second
            &&& s.state_sync_timeout == c.consensus.state_sync_timeout
            &&& s.min_num_peers == c.consensus.min_num_peers
            &&& s.log_summary_period == c.log_summary_period
            &&& s.produce_empty_blocks == c.consensus.produce_empty_blocks
            &&& s.epoch_length == epoch_length
            &&& s.num_block_producer_seats == num_block_producer_seats
            &&& s.ttl_account_id_router == c.network.ttl_account_id_router
            &&& s.block_fetch_horizon == c.consensus.block_fetch_horizon
            &&& s.block_header_fetch_horizon == c.consensus.block_header_fetch_horizon
            &&& s.catchup_step_period == c.consensus.catchup_step_period
            &&& s.chunk_request_retry_period == c.consensus.chunk_request_retry_period
            &&& s.doomslug_step_period == c.consensus.doomslug_step_period
            &&& s.archive == c.archive
            &&& (c.save_trie_changes matches Some(b) ==> s.save_trie_changes == b)
            &&& (c.save_trie_changes is None ==> s.save_trie_changes == !c.archive)
            &&& s.log_summary_style == c.log_summary_style
            &&& s.gc == c.gc
            &&& s.view_client_threads == c.view_client_threads
            &&& s.view_client_throttle_period == c.view_client_throttle_period
            &&& s.trie_viewer_state_size_limit == c.trie_viewer_state_size_limit
            &&& s.max_gas_burnt_view == c.max_gas_burnt_view
            &&& s.enable_statistics_export == c.store.enable_statistics_export
            &&& s.client_background_migration_threads == c.store.background_migration_threads
            &&& s.flat_storage_creation_enabled == c.store.flat_storage_creation_enabled
            &&& s.flat_storage_creation_period == c.store.flat_storage_creation_period
            &&& s.state_sync_enabled == c.state_sync_enabled
            &&& s.transaction_pool_size_limit == c.transaction_pool_size_limit
            &&& (c.enable_multiline_logging matches Some(b) ==> s.enable_multiline_logging == b)
            &&& (c.enable_multiline_logging is None ==> s.enable_multiline_logging)
        }),
{
}

} // verus!
