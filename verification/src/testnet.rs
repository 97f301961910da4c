//! Configurations of the nodes of a test network, and of a single test node.
use vstd::prelude::*;

use crate::account::{lemma_node_account_valid, valid_account_id};
use crate::config::{
    opt_rpc_view, spec_default_config, spec_set_rpc_addr, ChainDefaults, ComponentDefaults,
    ComponentDefaultsView, Config, ConfigView, Consensus, NetworkSettingsView, RpcConfig, RpcConfigView,
};
use crate::constants::{DEFAULT_MIN_NUM_PEERS, FAST_MAX_BLOCK_PRODUCTION_DELAY, FAST_MIN_BLOCK_PRODUCTION_DELAY, NODE_ACCOUNT};
use crate::duration::Duration;
use crate::genesis::{account_texts, spec_test_genesis, GenesisParams};
use crate::client::{spec_client_settings, GenesisInfo, UncConfig};
use crate::signer::{
    public_key_of, seed_block, seeded_key_pair, signer_from_random, signer_from_seed, SignerKeys, SignerKeysView,
};
use crate::text::{copy_u64s, decimal, opt_text, owned, push_decimal};

verus! {

/// The minimum block production delay of a test network node, in milliseconds.
pub const TESTNET_NODE_MIN_DELAY: u64 = 600;

/// The maximum block production delay of a test network node, in milliseconds.
pub const TESTNET_NODE_MAX_DELAY: u64 = 2000;

/// The boot node that every test network node but the first connects to: the first
/// node's network key at its address.
pub open spec fn boot_node(public_key: Seq<char>, addr: Seq<char>) -> Seq<char> {
    public_key + "@"@ + addr
}

/// The smaller of two counts.
pub open spec fn min_count(a: int, b: int) -> int {
    if a < b { a } else { b }
}

/// The configuration of the `i`-th node of a test network with `num_validator_seats`
/// validators: the defaults with the debug RPC pages on, the test network's block
/// production delays, at most one peer fewer than there are validators to start syncing,
/// the given archive and tracked-shards settings; and, where `local_ports` is set, the
/// node's own network and RPC addresses, with every node but the first booting from the
/// first, and no waiting for peers where there is a single validator.
pub open spec fn spec_testnet_node_config(
    d: ChainDefaults,
    c: ComponentDefaultsView,
    i: int,
    num_validator_seats: int,
    local_ports: bool,
    archive: bool,
    tracked_shards: Seq<u64>,
    network_addr: Seq<char>,
    rpc_addr: Seq<char>,
    first_key: Seq<char>,
    first_addr: Seq<char>,
) -> ConfigView {
    let base = spec_default_config(d, c);
    let debug_rpc = ConfigView { rpc: Some(RpcConfigView { enable_debug_rpc: true, ..c.rpc }), ..base };
    let consensus = Consensus {
        min_block_production_delay: Duration::spec_from_millis(TESTNET_NODE_MIN_DELAY),
        max_block_production_delay: Duration::spec_from_millis(TESTNET_NODE_MAX_DELAY),
        min_num_peers: min_count(num_validator_seats - 1, DEFAULT_MIN_NUM_PEERS as int) as usize,
        ..base.consensus
    };
    let local = if local_ports {
        let with_rpc = spec_set_rpc_addr(debug_rpc, rpc_addr, c.rpc);
        ConfigView {
            network: NetworkSettingsView {
                addr: network_addr,
                boot_nodes: if i == 0 { Seq::empty() } else { boot_node(first_key, first_addr) },
                skip_sync_wait: num_validator_seats == 1,
                ..c.network
            },
            ..with_rpc
        }
    } else {
        debug_rpc
    };
    ConfigView { consensus, archive, tracked_shards, ..local }
}

/// The configurations, network keys and genesis of a test network.
#[derive(Debug)]
pub struct TestnetConfigs {
    pub configs: Vec<Config>,
    pub network_signers: Vec<SignerKeys>,
    pub genesis: GenesisParams,
}

/// The network key of a test network node: the account `node` with the key derived from
/// the node's seed.
pub open spec fn network_signer_view(seed: Seq<char>) -> SignerKeysView {
    SignerKeysView {
        account_id: NODE_ACCOUNT@,
        public_key: seeded_key_pair(seed).0,
        secret_key: seeded_key_pair(seed).1,
    }
}

/// Whether `r` is the test network that [`create_testnet_configs_from_seeds`] makes.
pub open spec fn is_testnet_from_seeds(
    r: TestnetConfigs,
    seeds: Seq<Seq<char>>,
    num_non_validator_seats: u64,
    local_ports: bool,
    archive: bool,
    tracked_shards: Seq<u64>,
    d: ChainDefaults,
    c: ComponentDefaultsView,
    chain_id: Seq<char>,
    seats_per_shard: Seq<u64>,
    network_addrs: Seq<Seq<char>>,
    rpc_addrs: Seq<Seq<char>>,
) -> bool {
    let nv = seeds.len() - num_non_validator_seats;
    &&& r.configs@.len() == seeds.len()
    &&& r.network_signers@.len() == seeds.len()
    &&& forall|i: int| 0 <= i < seeds.len() ==> #[trigger] r.network_signers@[i]@ == network_signer_view(seeds[i])
    &&& forall|i: int| 0 <= i < seeds.len() ==> #[trigger] r.configs@[i]@ == spec_testnet_node_config(
        d, c, i, nv, local_ports, archive, tracked_shards,
        network_addrs[i], rpc_addrs[i], seeded_key_pair(seeds[0]).0, network_addrs[0],
    )
    &&& r.genesis@ == spec_test_genesis(chain_id, seeds, nv as u64, seats_per_shard)
}

fn testnet_node_config(
    d: ChainDefaults,
    c: &ComponentDefaults,
    i: usize,
    num_validator_seats: usize,
    local_ports: bool,
    archive: bool,
    tracked_shards: &Vec<u64>,
    network_addr: &String,
    rpc_addr: &String,
    first_key: &String,
    first_addr: &String,
) -> (r: Config)
    requires
        num_validator_seats >= 1,
    ensures
        r@ == spec_testnet_node_config(
            d, c@, i as int, num_validator_seats as int, local_ports, archive, tracked_shards@,
            network_addr@, rpc_addr@, first_key@, first_addr@,
        ),
{
    let mut config = Config::with_defaults(d, c);
    let rpc = match config.rpc.take() {
        Some(r) => RpcConfig { addr: r.addr, enable_debug_rpc: true },
        None => RpcConfig { addr: c.rpc.addr.clone(), enable_debug_rpc: true },
    };
    config.rpc = Some(rpc);
    config.consensus.min_block_production_delay = Duration::from_millis(TESTNET_NODE_MIN_DELAY);
    config.consensus.max_block_production_delay = Duration::from_millis(TESTNET_NODE_MAX_DELAY);
    if local_ports {
        config.network.addr = network_addr.clone();
        config.set_rpc_addr(rpc_addr.clone(), &c.rpc);
        config.network.boot_nodes = if i == 0 {
            String::new()
        } else {
            let mut b = first_key.clone();
            b.append("@");
            b.append(first_addr.as_str());
            b
        };
        config.network.skip_sync_wait = num_validator_seats == 1;
    }
    config.archive = archive;
    config.tracked_shards = copy_u64s(tracked_shards);
    let fewer = num_validator_seats - 1;
    config.consensus.min_num_peers = if fewer < config.consensus.min_num_peers {
        fewer
    } else {
        config.consensus.min_num_peers
    };
    config
}

/// The test network of the nodes named by `seeds`, the last `num_non_validator_seats` of
/// which are not validators. Each node's configuration is described by
/// [`spec_testnet_node_config`]; each node's network key is the account `node` with the
/// key derived from its seed; the genesis is the test genesis of the seeds' accounts with
/// the validators' seats spread as `seats_per_shard` says. Where `local_ports` is set,
/// `network_addrs` and `rpc_addrs` hold each node's addresses.
pub fn create_testnet_configs_from_seeds(
    seeds: &Vec<String>,
    num_non_validator_seats: u64,
    local_ports: bool,
    archive: bool,
    tracked_shards: &Vec<u64>,
    d: ChainDefaults,
    c: &ComponentDefaults,
    chain_id: String,
    seats_per_shard: Vec<u64>,
    network_addrs: &Vec<String>,
    rpc_addrs: &Vec<String>,
) -> (r: TestnetConfigs)
    requires
        num_non_validator_seats <= seeds@.len(),
        seeds@.len() > 0 ==> num_non_validator_seats < seeds@.len(),
        forall|i: int| 0 <= i < seeds@.len() ==> valid_account_id(#[trigger] seeds@[i]@),
        network_addrs@.len() == seeds@.len(),
        rpc_addrs@.len() == seeds@.len(),
    ensures
        is_testnet_from_seeds(
            r, account_texts(seeds@), num_non_validator_seats, local_ports, archive, tracked_shards@,
            d, c@, chain_id@, seats_per_shard@, account_texts(network_addrs@), account_texts(rpc_addrs@),
        ),
        r.network_signers@.len() == seeds@.len(),
        forall|i: int| 0 <= i < seeds@.len() ==> {
            &&& (#[trigger] r.network_signers@[i]).account_id@ == NODE_ACCOUNT@
            &&& r.network_signers@[i].public_key@ == seeded_key_pair(seeds@[i]@).0
            &&& r.network_signers@[i].secret_key@ == seeded_key_pair(seeds@[i]@).1
        },
        forall|i: int, j: int|
            0 <= i < seeds@.len() && 0 <= j < seeds@.len() && seed_block(seeds@[i]@) != seed_block(seeds@[j]@)
                ==> #[trigger] r.network_signers@[i].secret_key@ != #[trigger] r.network_signers@[j].secret_key@,
{
    let n = seeds.len();
    let num_validator_seats: usize = n - (num_non_validator_seats as usize);
    let ghost names = account_texts(seeds@);
    let ghost naddrs = account_texts(network_addrs@);
    let ghost raddrs = account_texts(rpc_addrs@);
    let mut network_signers: Vec<SignerKeys> = Vec::new();
    let mut i: usize = 0;
    proof {
        lemma_node_account_valid();
    }
    while i < n
        invariant
            i <= n,
            n == seeds@.len(),
            names == account_texts(seeds@),
            valid_account_id(NODE_ACCOUNT@),
            network_signers@.len() == i,
            forall|k: int| 0 <= k < i ==> #[trigger] network_signers@[k]@ == network_signer_view(names[k]),
            forall|k: int, other: Seq<char>|
                0 <= k < i && seed_block(other) != seed_block(names[k])
                    ==> #[trigger] seeded_key_pair(other).1 != (#[trigger] network_signers@[k]).secret_key@,
        decreases n - i,
    {
        network_signers.push(signer_from_seed(NODE_ACCOUNT, seeds[i].as_str()));
        proof {
            assert(names[i as int] == seeds@[i as int]@);
        }
        i = i + 1;
    }
    proof {
        assert forall|a: int, b: int|
            0 <= a < n && 0 <= b < n && seed_block(seeds@[a]@) != seed_block(seeds@[b]@)
                implies #[trigger] network_signers@[a].secret_key@ != #[trigger] network_signers@[b].secret_key@ by {
            assert(names[a] == seeds@[a]@);
            assert(names[b] == seeds@[b]@);
            assert(network_signers@[b]@ == network_signer_view(names[b]));
            assert(network_signers@[a]@ == network_signer_view(names[a]));
            assert(seeded_key_pair(names[a]).1 != network_signers@[b].secret_key@);
        }
        assert forall|a: int| 0 <= a < n implies {
            &&& (#[trigger] network_signers@[a]).account_id@ == NODE_ACCOUNT@
            &&& network_signers@[a].public_key@ == seeded_key_pair(seeds@[a]@).0
            &&& network_signers@[a].secret_key@ == seeded_key_pair(seeds@[a]@).1
        } by {
            assert(names[a] == seeds@[a]@);
            assert(network_signers@[a]@ == network_signer_view(names[a]));
        }
    }
    let genesis = GenesisParams::test_with_seeds(chain_id, seeds, num_validator_seats as u64, seats_per_shard);
    let mut configs: Vec<Config> = Vec::new();
    if n > 0 {
        assert(network_signers@[0]@ == network_signer_view(names[0]));
        let first_key = &network_signers[0].public_key;
        let first_addr = &network_addrs[0];
        let mut j: usize = 0;
        while j < n
            invariant
                j <= n,
                n == seeds@.len(),
                n == network_addrs@.len(),
                n == rpc_addrs@.len(),
                n > 0,
                num_validator_seats >= 1,
                num_validator_seats == n - num_non_validator_seats,
                names == account_texts(seeds@),
                naddrs == account_texts(network_addrs@),
                raddrs == account_texts(rpc_addrs@),
                first_key@ == seeded_key_pair(names[0]).0,
                first_addr@ == naddrs[0],
                configs@.len() == j,
                forall|k: int| 0 <= k < j ==> #[trigger] configs@[k]@ == spec_testnet_node_config(
                    d, c@, k, num_validator_seats as int, local_ports, archive, tracked_shards@,
                    naddrs[k], raddrs[k], seeded_key_pair(names[0]).0, naddrs[0],
                ),
            decreases n - j,
        {
            let config = testnet_node_config(
                d, c, j, num_validator_seats, local_ports, archive, tracked_shards,
                &network_addrs[j], &rpc_addrs[j], first_key, first_addr,
            );
            configs.push(config);
            j = j + 1;
        }
    }
    TestnetConfigs { configs, network_signers, genesis }
}

/// The name of the `i`-th node of a test network: the prefix and the node's number.
pub open spec fn node_name(prefix: Seq<char>, i: int) -> Seq<char> {
    prefix + decimal(i as nat)
}

/// The names of the first `n` nodes of a test network.
pub open spec fn node_names(prefix: Seq<char>, n: nat) -> Seq<Seq<char>> {
    Seq::new(n, |i: int| node_name(prefix, i))
}

/// The seeds of a test network's nodes: `prefix0`, `prefix1`, and so on, one per node.
pub fn node_seeds(prefix: &str, n: u64) -> (r: Vec<String>)
    requires
        n <= usize::MAX,
    ensures
        account_texts(r@) == node_names(prefix@, n as nat),
{
    let mut r: Vec<String> = Vec::new();
    let mut i: u64 = 0;
    while i < n
        invariant
            i <= n,
            account_texts(r@) == node_names(prefix@, i as nat),
        decreases n - i,
    {
        let mut name = owned(prefix);
        push_decimal(&mut name, i);
        let ghost before = r@;
        assert(name@ == node_name(prefix@, i as int));
        r.push(name);
        assert(account_texts(r@) =~= account_texts(before).push(node_name(prefix@, i as int)));
        assert(node_names(prefix@, (i + 1) as nat) =~= node_names(prefix@, i as nat).push(node_name(prefix@, i as int)));
        i = i + 1;
    }
    r
}

/// The test network of `num_validator_seats` validators and `num_non_validator_seats`
/// other nodes, named `prefix0`, `prefix1`, and so on: [`create_testnet_configs_from_seeds`]
/// with those names as seeds.
pub fn create_testnet_configs(
    num_validator_seats: u64,
    num_non_validator_seats: u64,
    prefix: &str,
    local_ports: bool,
    archive: bool,
    tracked_shards: &Vec<u64>,
    d: ChainDefaults,
    c: &ComponentDefaults,
    chain_id: String,
    seats_per_shard: Vec<u64>,
    network_addrs: &Vec<String>,
    rpc_addrs: &Vec<String>,
) -> (r: TestnetConfigs)
    requires
        num_validator_seats + num_non_validator_seats <= usize::MAX,
        num_non_validator_seats > 0 ==> num_validator_seats >= 1,
        forall|i: int| 0 <= i < num_validator_seats + num_non_validator_seats
            ==> valid_account_id(#[trigger] node_name(prefix@, i)),
        network_addrs@.len() == num_validator_seats + num_non_validator_seats,
        rpc_addrs@.len() == num_validator_seats + num_non_validator_seats,
    ensures
        is_testnet_from_seeds(
            r,
            node_names(prefix@, (num_validator_seats + num_non_validator_seats) as nat),
            num_non_validator_seats, local_ports, archive, tracked_shards@,
            d, c@, chain_id@, seats_per_shard@, account_texts(network_addrs@), account_texts(rpc_addrs@),
        ),
{
    let total = num_validator_seats + num_non_validator_seats;
    let seeds = node_seeds(prefix, total);
    proof {
        assert(account_texts(seeds@).len() == total);
        assert forall|i: int| 0 <= i < seeds@.len() implies valid_account_id(#[trigger] seeds@[i]@) by {
            assert(account_texts(seeds@)[i] == seeds@[i]@);
            assert(node_names(prefix@, total as nat)[i] == node_name(prefix@, i));
        }
    }
    create_testnet_configs_from_seeds(
        &seeds, num_non_validator_seats, local_ports, archive, tracked_shards,
        d, c, chain_id, seats_per_shard, network_addrs, rpc_addrs,
    )
}

/// Every node of a test network archives as asked, tracks the asked shards and serves the
/// debug RPC pages, and no node waits for more peers than there are other validators. With
/// local ports, each node listens on its own addresses, every node but the first boots from
/// the first, and only a single validator skips waiting for peers.
pub proof fn law_testnet_nodes_follow_settings(
    d: ChainDefaults,
    c: ComponentDefaultsView,
    i: int,
    num_validator_seats: int,
    local_ports: bool,
    archive: bool,
    tracked_shards: Seq<u64>,
    network_addr: Seq<char>,
    rpc_addr: Seq<char>,
    first_key: Seq<char>,
    first_addr: Seq<char>,
)
    requires
        num_validator_seats >= 1,
    ensures
        ({
            let v = spec_testnet_node_config(
                d, c, i, num_validator_seats, local_ports, archive, tracked_shards,
                network_addr, rpc_addr, first_key, first_addr,
            );
            &&& v.archive == archive
            &&& v.tracked_shards == tracked_shards
            &&& v.consensus.min_num_peers < num_validator_seats
            &&& v.rpc matches Some(r) && r.enable_debug_rpc
            &&& local_ports ==> v.rpc->0.addr == rpc_addr && v.network.addr == network_addr
            &&& local_ports && i == 0 ==> v.network.boot_nodes.len() == 0
            &&& local_ports && i != 0 ==> v.network.boot_nodes == boot_node(first_key, first_addr)
            &&& local_ports ==> (v.network.skip_sync_wait <==> num_validator_seats == 1)
        }),
{
}

/// The configuration of a single test node listening on `addr`, serving RPC on
/// `rpc_addr`, with the fast block production delays.
pub open spec fn spec_test_node_config(d: ChainDefaults, c: ComponentDefaultsView, addr: Seq<char>, rpc_addr: Seq<char>) -> ConfigView {
    let base = spec_default_config(d, c);
    let with_addr = ConfigView { network: NetworkSettingsView { addr, ..base.network }, ..base };
    let with_rpc = spec_set_rpc_addr(with_addr, rpc_addr, c.rpc);
    ConfigView {
        consensus: Consensus {
            min_block_production_delay: Duration::spec_from_millis(FAST_MIN_BLOCK_PRODUCTION_DELAY),
            max_block_production_delay: Duration::spec_from_millis(FAST_MAX_BLOCK_PRODUCTION_DELAY),
            ..with_rpc.consensus
        },
        ..with_rpc
    }
}

/// A single test node: its settings, its network key, and whether it validates.
#[derive(Debug)]
pub struct TestNode {
    pub unc_config: UncConfig,
    pub network_signer: SignerKeys,
    /// Whether the node has a validator key, made from its seed.
    pub is_validator: bool,
}

/// The settings of a single test node: see [`spec_test_node_config`]. A node with an empty
/// seed has a random network key for the account `node` and does not validate; any other
/// node is the account named by its seed, with the key derived from it, and validates.
pub fn load_test_config(
    seed: &str,
    addr: String,
    rpc_addr: String,
    d: ChainDefaults,
    c: &ComponentDefaults,
    genesis: &GenesisInfo,
) -> (r: TestNode)
    requires
        seed@.len() == 0 || valid_account_id(seed@),
    ensures
        r.unc_config.config@ == spec_test_node_config(d, c@, addr@, rpc_addr@),
        r.unc_config.client_config.chain_id@ == genesis.chain_id@,
        opt_text(r.unc_config.client_config.rpc_addr) == Some(rpc_addr@),
        r.unc_config.client_config.settings == spec_client_settings(
            spec_test_node_config(d, c@, addr@, rpc_addr@),
            genesis.epoch_length,
            genesis.num_block_producer_seats,
        ),
        opt_rpc_view(r.unc_config.rpc_config) == spec_test_node_config(d, c@, addr@, rpc_addr@).rpc,
        opt_rpc_view(r.unc_config.rpc_config) matches Some(rc) && rc.addr == rpc_addr@,
        r.unc_config.telemetry_config@ == spec_test_node_config(d, c@, addr@, rpc_addr@).telemetry,
        r.is_validator == (seed@.len() > 0),
        r.network_signer.public_key@ == public_key_of(r.network_signer.secret_key@),
        seed@.len() == 0 ==> r.network_signer.account_id@ == NODE_ACCOUNT@,
        seed@.len() > 0 ==> r.network_signer@ == (SignerKeysView {
            account_id: seed@,
            public_key: seeded_key_pair(seed@).0,
            secret_key: seeded_key_pair(seed@).1,
        }),
{
    let mut config = Config::with_defaults(d, c);
    config.network.addr = addr;
    config.set_rpc_addr(rpc_addr, &c.rpc);
    config.consensus.min_block_production_delay = Duration::from_millis(FAST_MIN_BLOCK_PRODUCTION_DELAY);
    config.consensus.max_block_production_delay = Duration::from_millis(FAST_MAX_BLOCK_PRODUCTION_DELAY);
    let empty = seed.unicode_len() == 0;
    let network_signer = if empty {
        proof {
            lemma_node_account_valid();
        }
        signer_from_random(NODE_ACCOUNT)
    } else {
        signer_from_seed(seed, seed)
    };
    let unc_config = UncConfig::new(config, genesis);
    TestNode { unc_config, network_signer, is_validator: !empty }
}


/// Each node of a test network has the network key derived from its own seed, for the
/// account `node`.
pub proof fn law_testnet_network_keys(
    r: TestnetConfigs,
    seeds: Seq<Seq<char>>,
    num_non_validator_seats: u64,
    local_ports: bool,
    archive: bool,
    tracked_shards: Seq<u64>,
    d: ChainDefaults,
    c: ComponentDefaultsView,
    chain_id: Seq<char>,
    seats_per_shard: Seq<u64>,
    network_addrs: Seq<Seq<char>>,
    rpc_addrs: Seq<Seq<char>>,
    i: int,
)
    requires
        is_testnet_from_seeds(
            r, seeds, num_non_validator_seats, local_ports, archive, tracked_shards,
            d, c, chain_id, seats_per_shard, network_addrs, rpc_addrs,
        ),
        0 <= i < seeds.len(),
    ensures
        r.network_signers@.len() == seeds.len(),
        r.network_signers@[i].account_id@ == NODE_ACCOUNT@,
        r.network_signers@[i].public_key@ == seeded_key_pair(seeds[i]).0,
        r.network_signers@[i].secret_key@ == seeded_key_pair(seeds[i]).1,
{
    assert(r.network_signers@[i]@ == network_signer_view(seeds[i]));
}

} // verus!
