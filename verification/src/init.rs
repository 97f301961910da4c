//! The decisions of node initialization: which chain, which configuration, where the
//! configuration, records and genesis come from, and what public networks demand.
use vstd::prelude::*;

use crate::config::{
    set_block_production_delay, spec_default_config, spec_with_production_delays, ChainDefaults,
    ChainKind, ComponentDefaults, ComponentDefaultsView, Config, ConfigView, NetworkSettingsView,
};
use crate::genesis::test_chain_id;
use crate::constants::{MAINNET, TEST_CHAIN_PREFIX, TESTNET};
use crate::text::{owned, texts};
use crate::urls::{
    artifact_url, get_config_url, get_genesis_url, get_records_url, network_telemetry_url,
    telemetry_url, CONFIG_ARTIFACT, GENESIS_ARTIFACT, RECORDS_ARTIFACT,
};

verus! {

/// The kind of chain that `chain_id` names: the main network, the public test network,
/// or any other (local) chain.
pub open spec fn spec_chain_kind(chain_id: Seq<char>) -> ChainKind {
    if chain_id == MAINNET@ {
        ChainKind::Mainnet
    } else if chain_id == TESTNET@ {
        ChainKind::Testnet
    } else {
        ChainKind::Local
    }
}

/// The kind of chain that `chain_id` names: see [`spec_chain_kind`].
pub fn chain_kind(chain_id: &str) -> (r: ChainKind)
    ensures
        r == spec_chain_kind(chain_id@),
{
    let id = owned(chain_id);
    if id == owned(MAINNET) {
        ChainKind::Mainnet
    } else if id == owned(TESTNET) {
        ChainKind::Testnet
    } else {
        ChainKind::Local
    }
}

/// A step of node initialization, in the order the steps are taken.
#[derive(Clone, Copy, Debug, PartialEq, Eq, Structural)]
pub enum InitStep {
    /// Read the configuration that is there, and the genesis it names.
    ReadExisting,
    /// Make the fresh configuration, downloading it where asked, with the overrides.
    MakeConfig,
    /// Make the key files that are missing, and check those that are there.
    MakeKeys,
    /// Apply the chain's own settings; a public network refuses a test seed here.
    ApplyChainSettings,
    /// Write the configuration.
    WriteConfig,
    /// Write the genesis of the chain.
    WriteGenesis,
    /// Initialization is done.
    Finished,
    /// A step failed; nothing more is done.
    Failed,
}

/// The first step of node initialization: reading the configuration where one is there,
/// making one otherwise.
pub open spec fn spec_first_init_step(config_exists: bool) -> InitStep {
    if config_exists { InitStep::ReadExisting } else { InitStep::MakeConfig }
}

/// The step that follows `step` when it succeeded (`ok`) or failed. An existing
/// configuration is read, its keys made, and initialization ends; a new one is made, its
/// keys made, the chain's settings applied, and then the configuration and the genesis
/// are written. A failed step ends initialization.
pub open spec fn spec_next_init_step(config_exists: bool, step: InitStep, ok: bool) -> InitStep {
    if !ok {
        InitStep::Failed
    } else {
        match step {
            InitStep::ReadExisting => InitStep::MakeKeys,
            InitStep::MakeConfig => InitStep::MakeKeys,
            InitStep::MakeKeys => if config_exists { InitStep::Finished } else { InitStep::ApplyChainSettings },
            InitStep::ApplyChainSettings => InitStep::WriteConfig,
            InitStep::WriteConfig => InitStep::WriteGenesis,
            InitStep::WriteGenesis => InitStep::Finished,
            InitStep::Finished => InitStep::Finished,
            InitStep::Failed => InitStep::Failed,
        }
    }
}

/// The first step of node initialization: see [`spec_first_init_step`].
pub fn first_init_step(config_exists: bool) -> (r: InitStep)
    ensures
        r == spec_first_init_step(config_exists),
{
    if config_exists { InitStep::ReadExisting } else { InitStep::MakeConfig }
}

/// The step of node initialization that follows `step`, given whether it succeeded: see
/// [`spec_next_init_step`].
pub fn next_init_step(config_exists: bool, step: InitStep, ok: bool) -> (r: InitStep)
    ensures
        r == spec_next_init_step(config_exists, step, ok),
{
    if !ok {
        return InitStep::Failed;
    }
    match step {
        InitStep::ReadExisting => InitStep::MakeKeys,
        InitStep::MakeConfig => InitStep::MakeKeys,
        InitStep::MakeKeys => if config_exists { InitStep::Finished } else { InitStep::ApplyChainSettings },
        InitStep::ApplyChainSettings => InitStep::WriteConfig,
        InitStep::WriteConfig => InitStep::WriteGenesis,
        InitStep::WriteGenesis => InitStep::Finished,
        InitStep::Finished => InitStep::Finished,
        InitStep::Failed => InitStep::Failed,
    }
}

/// The steps that node initialization takes when the steps before the last succeed or
/// fail as `outcomes` says: the first step, then one step for each outcome.
pub open spec fn init_steps(config_exists: bool, outcomes: Seq<bool>) -> Seq<InitStep>
    decreases outcomes.len(),
{
    if outcomes.len() == 0 {
        seq![spec_first_init_step(config_exists)]
    } else {
        let before = init_steps(config_exists, outcomes.drop_last());
        before.push(spec_next_init_step(config_exists, before.last(), outcomes.last()))
    }
}

/// The steps of an initialization: one more than there are outcomes.
pub proof fn lemma_init_steps_len(config_exists: bool, outcomes: Seq<bool>)
    ensures
        init_steps(config_exists, outcomes).len() == outcomes.len() + 1,
    decreases outcomes.len(),
{
    if outcomes.len() > 0 {
        lemma_init_steps_len(config_exists, outcomes.drop_last());
    }
}

/// A step taken where a configuration is there already: reading it, making its keys,
/// or the end.
pub open spec fn keeps_existing(step: InitStep) -> bool {
    step == InitStep::ReadExisting || step == InitStep::MakeKeys || step == InitStep::Finished
        || step == InitStep::Failed
}

/// An existing configuration is never overwritten: where one is there, whatever the steps
/// do, initialization neither makes a configuration, nor applies chain settings to one,
/// nor writes a configuration or a genesis.
pub proof fn law_existing_config_never_written(outcomes: Seq<bool>, k: int)
    requires
        0 <= k <= outcomes.len(),
    ensures
        keeps_existing(init_steps(true, outcomes)[k]),
    decreases outcomes.len(),
{
    lemma_init_steps_len(true, outcomes);
    if outcomes.len() > 0 {
        let before = outcomes.drop_last();
        lemma_init_steps_len(true, before);
        if k < outcomes.len() {
            law_existing_config_never_written(before, k);
        } else {
            law_existing_config_never_written(before, k - 1);
        }
    }
}

/// The configuration is written only right after the chain's settings were applied
/// successfully: where they fail, as a test seed on a public network makes them, no
/// configuration (and no genesis) is written.
pub proof fn law_config_written_only_after_chain_settings(config_exists: bool, outcomes: Seq<bool>, k: int)
    requires
        0 <= k <= outcomes.len(),
        init_steps(config_exists, outcomes)[k] == InitStep::WriteConfig,
    ensures
        k > 0,
        init_steps(config_exists, outcomes)[k - 1] == InitStep::ApplyChainSettings,
        outcomes[k - 1],
    decreases outcomes.len(),
{
    lemma_init_steps_len(config_exists, outcomes);
    if outcomes.len() > 0 {
        let before = outcomes.drop_last();
        lemma_init_steps_len(config_exists, before);
        if k < outcomes.len() {
            law_config_written_only_after_chain_settings(config_exists, before, k);
            assert(init_steps(config_exists, outcomes)[k - 1] == init_steps(config_exists, before)[k - 1]);
        }
    }
}

/// A failed step ends initialization: every later step is the failure.
pub proof fn law_failure_is_final(config_exists: bool, outcomes: Seq<bool>, j: int, k: int)
    requires
        0 <= j <= k <= outcomes.len(),
        init_steps(config_exists, outcomes)[j] == InitStep::Failed,
    ensures
        init_steps(config_exists, outcomes)[k] == InitStep::Failed,
    decreases outcomes.len(),
{
    lemma_init_steps_len(config_exists, outcomes);
    if outcomes.len() > 0 {
        let before = outcomes.drop_last();
        lemma_init_steps_len(config_exists, before);
        if j < outcomes.len() {
            if k < outcomes.len() {
                law_failure_is_final(config_exists, before, j, k);
            } else {
                law_failure_is_final(config_exists, before, j, k - 1);
            }
        }
    }
}

/// The chain a node is initialized for: the one asked for, or a test chain named with
/// the random suffix where none is asked for. An empty chain id is never asked for.
pub fn resolve_chain_id(chain_id: Option<String>, random_suffix: &str) -> (r: String)
    requires
        chain_id matches Some(c) ==> c@.len() > 0,
    ensures
        chain_id matches Some(c) ==> r == c,
        chain_id is None ==> r@ == TEST_CHAIN_PREFIX@ + random_suffix@,
{
    match chain_id {
        Some(c) => c,
        None => test_chain_id(random_suffix),
    }
}

/// The configuration of a node that is initialized afresh: the defaults, tracking shard
/// `0`, with the block production delays of its chain.
pub open spec fn spec_new_node_config(d: ChainDefaults, c: ComponentDefaultsView, chain: ChainKind, fast: bool) -> ConfigView {
    let base = spec_default_config(d, c);
    ConfigView {
        tracked_shards: seq![0u64],
        consensus: spec_with_production_delays(base.consensus, chain, fast),
        ..base
    }
}

/// The configuration of a node that is initialized afresh: see [`spec_new_node_config`].
pub fn new_node_config(d: ChainDefaults, c: &ComponentDefaults, chain: ChainKind, fast: bool) -> (r: Config)
    ensures
        r@ == spec_new_node_config(d, c@, chain, fast),
{
    let mut config = Config::with_defaults(d, c);
    let mut shards: Vec<u64> = Vec::new();
    shards.push(0);
    config.tracked_shards = shards;
    set_block_production_delay(chain, fast, &mut config);
    assert(config.tracked_shards@ =~= seq![0u64]);
    config
}

/// Where the configuration is downloaded from, if it is: the address given, or the
/// published config of the chain when a download is asked for without an address.
pub fn config_download_url(chain_id: &str, download_config_url: Option<&str>, should_download_config: bool) -> (r: Option<String>)
    ensures
        download_config_url is Some ==> (r is Some && r->0@ == download_config_url->0@),
        download_config_url is None && should_download_config ==> (r is Some
            && r->0@ == artifact_url(chain_id@, CONFIG_ARTIFACT@)),
        download_config_url is None && !should_download_config ==> r is None,
{
    match download_config_url {
        Some(u) => Some(owned(u)),
        None => if should_download_config { Some(get_config_url(chain_id)) } else { None },
    }
}

/// The configuration with the operator's boot nodes and gas limit for view calls, each
/// where given.
pub open spec fn spec_init_overrides(c: ConfigView, boot_nodes: Option<Seq<char>>, max_gas_burnt_view: Option<u64>) -> ConfigView {
    let network = match boot_nodes {
        Some(b) => NetworkSettingsView { boot_nodes: b, ..c.network },
        None => c.network,
    };
    let max_gas = match max_gas_burnt_view {
        Some(g) => Some(g),
        None => c.max_gas_burnt_view,
    };
    ConfigView { network, max_gas_burnt_view: max_gas, ..c }
}

/// Applies the operator's boot nodes and gas limit for view calls, each where given.
pub fn apply_init_overrides(config: &mut Config, boot_nodes: Option<&str>, max_gas_burnt_view: Option<u64>)
    ensures
        final(config)@ == spec_init_overrides(
            old(config)@,
            match boot_nodes { Some(b) => Some(b@), None => None },
            max_gas_burnt_view,
        ),
{
    if let Some(nodes) = boot_nodes {
        config.network.boot_nodes = owned(nodes);
    }
    if let Some(g) = max_gas_burnt_view {
        config.max_gas_burnt_view = Some(g);
    }
}

/// The complaint about a test seed asked for on the public network `chain_id`.
pub open spec fn test_seed_message(chain_id: Seq<char>) -> Seq<char> {
    "Test seed is not supported for "@ + chain_id
}

/// The configuration after the chain's own settings: on a public network its telemetry
/// endpoint is added, on any other chain the node does not wait for peers to sync.
pub open spec fn spec_chain_settings(c: ConfigView, chain: ChainKind, chain_id: Seq<char>) -> ConfigView {
    if chain.is_public() {
        ConfigView { telemetry: c.telemetry.push(telemetry_url(chain_id)), ..c }
    } else {
        ConfigView { network: NetworkSettingsView { skip_sync_wait: true, ..c.network }, ..c }
    }
}

/// Applies the chain's own settings, see [`spec_chain_settings`]. A public network
/// refuses a test seed: then the configuration is left as it was and the complaint is
/// returned.
pub fn apply_chain_settings(config: &mut Config, chain: ChainKind, chain_id: &str, has_test_seed: bool) -> (r: Result<(), String>)
    ensures
        r is Err <==> (chain.is_public() && has_test_seed),
        r matches Err(m) ==> (m@ == test_seed_message(chain_id@) && final(config)@ == old(config)@),
        r is Ok ==> final(config)@ == spec_chain_settings(old(config)@, chain, chain_id@),
        r is Ok && (chain == ChainKind::Mainnet || chain == ChainKind::Testnet) ==> final(config)@.telemetry
            == old(config)@.telemetry.push(telemetry_url(chain_id@)) && final(config)@.network == old(config)@.network,
        r is Ok && chain == ChainKind::Local ==> final(config)@.network.skip_sync_wait
            && final(config)@.telemetry == old(config)@.telemetry,
{
    match chain {
        ChainKind::Mainnet | ChainKind::Testnet => {
            if has_test_seed {
                let mut m = owned("Test seed is not supported for ");
                m.append(chain_id);
                return Err(m);
            }
            let url = network_telemetry_url(chain_id);
            let ghost before = config.telemetry.endpoints@;
            config.telemetry.endpoints.push(url);
            assert(texts(config.telemetry.endpoints@) =~= texts(before).push(telemetry_url(chain_id@)));
            Ok(())
        },
        ChainKind::Local => {
            config.network.skip_sync_wait = true;
            Ok(())
        },
    }
}

/// Where the records of a testnet genesis are downloaded from, if they are: only where
/// the configuration names a records file; then from the address given, or from the
/// published records of the chain when the genesis is to be downloaded.
pub fn records_download_url(
    genesis_records_file: &Option<String>,
    chain_id: &str,
    download_records_url: Option<&str>,
    should_download_genesis: bool,
) -> (r: Option<String>)
    ensures
        genesis_records_file is None ==> r is None,
        genesis_records_file is Some && download_records_url is Some
            ==> (r is Some && r->0@ == download_records_url->0@),
        genesis_records_file is Some && download_records_url is None && should_download_genesis
            ==> (r is Some && r->0@ == artifact_url(chain_id@, RECORDS_ARTIFACT@)),
        genesis_records_file is Some && download_records_url is None && !should_download_genesis ==> r is None,
{
    match genesis_records_file {
        None => None,
        Some(_) => match download_records_url {
            Some(u) => Some(owned(u)),
            None => if should_download_genesis { Some(get_records_url(chain_id)) } else { None },
        },
    }
}

/// Where the genesis of a testnet node comes from.
#[derive(Debug)]
pub enum GenesisSource {
    /// Downloaded from this address into the node's `genesis.json`.
    Download(String),
    /// Read from this file, as the operator gave it.
    File(String),
}

/// The complaint about a testnet genesis that is neither given nor to be downloaded.
pub open spec fn genesis_required_message(chain_id: Seq<char>) -> Seq<char> {
    "Genesis file is required for "@ + chain_id + ".\nUse <--genesis|--download-genesis>"@
}

/// Where the genesis of a testnet node comes from: the address given; else the published
/// genesis of the chain where a download is asked for; else the file the operator gave;
/// with none of these, initialization fails.
pub fn genesis_source(
    chain_id: &str,
    download_genesis_url: Option<&str>,
    should_download_genesis: bool,
    genesis: Option<&str>,
) -> (r: Result<GenesisSource, String>)
    ensures
        download_genesis_url is Some ==> (r matches Ok(GenesisSource::Download(s))
            && s@ == download_genesis_url->0@),
        download_genesis_url is None && should_download_genesis ==> (r matches Ok(
            GenesisSource::Download(s),
        ) && s@ == artifact_url(chain_id@, GENESIS_ARTIFACT@)),
        download_genesis_url is None && !should_download_genesis && genesis is Some
            ==> (r matches Ok(GenesisSource::File(s)) && s@ == genesis->0@),
        download_genesis_url is None && !should_download_genesis && genesis is None
            ==> (r matches Err(m) && m@ == genesis_required_message(chain_id@)),
{
    match download_genesis_url {
        Some(u) => Ok(GenesisSource::Download(owned(u))),
        None => if should_download_genesis {
            Ok(GenesisSource::Download(get_genesis_url(chain_id)))
        } else {
            match genesis {
                Some(g) => Ok(GenesisSource::File(owned(g))),
                None => {
                    let mut m = owned("Genesis file is required for ");
                    m.append(chain_id);
                    m.append(".\nUse <--genesis|--download-genesis>");
                    Err(m)
                },
            }
        },
    }
}


/// The chain's own settings by network. On a public network, the test network as well as
/// the main one, they append exactly the chain's telemetry endpoint after those already
/// there and leave the network settings alone; on any other chain they make the node skip
/// waiting for peers and leave the telemetry alone. Nothing else in the configuration
/// changes.
pub proof fn law_chain_settings_by_network(c: ConfigView, chain: ChainKind, chain_id: Seq<char>)
    ensures
        ({
            let r = spec_chain_settings(c, chain, chain_id);
            &&& (chain == ChainKind::Mainnet || chain == ChainKind::Testnet) ==> {
                &&& r.telemetry.len() == c.telemetry.len() + 1
                &&& r.telemetry.take(c.telemetry.len() as int) == c.telemetry
                &&& r.telemetry.last() == telemetry_url(chain_id)
                &&& r.network == c.network
            }
            &&& chain == ChainKind::Local ==> {
                &&& r.network.skip_sync_wait
                &&& r.network.addr == c.network.addr
                &&& r.network.boot_nodes == c.network.boot_nodes
                &&& r.network.ttl_account_id_router == c.network.ttl_account_id_router
                &&& r.telemetry == c.telemetry
            }
            &&& (ConfigView { telemetry: c.telemetry, network: c.network, ..r }) == c
        }),
{
    let r = spec_chain_settings(c, chain, chain_id);
    if chain == ChainKind::Mainnet || chain == ChainKind::Testnet {
        assert(r.telemetry.take(c.telemetry.len() as int) =~= c.telemetry);
    }
}

} // verus!
