//! The genesis of test and local networks: its accounts, validators and parameters.
use vstd::prelude::*;

use crate::account::{lemma_treasury_account_valid, valid_account_id};
use crate::constants::{
    BLOCK_PRODUCER_KICKOUT_THRESHOLD, CHUNK_PRODUCER_KICKOUT_THRESHOLD, EXPECTED_EPOCH_LENGTH,
    FAST_EPOCH_LENGTH, FISHERMEN_THRESHOLD, INITIAL_GAS_LIMIT, MIN_GAS_PRICE,
    NUM_BLOCKS_PER_YEAR, NUM_BLOCK_PRODUCER_SEATS, PROTOCOL_TREASURY_ACCOUNT,
    TEST_CHAIN_PREFIX, TESTING_INIT_BALANCE, TESTING_INIT_PLEDGE, TESTING_INIT_POWER,
    TRANSACTION_VALIDITY_PERIOD,
};
use crate::shard::{local_shard_layout, shard_count, spec_local_shard_layout, ShardLayout, ShardLayoutView};
use crate::signer::{seeded_key_pair, signer_from_seed, SignerKeys};
use crate::text::owned;

verus! {

/// A record of the genesis state. Account records carry the hash of the account's code
/// and no storage usage; access keys grant full access.
#[derive(Debug)]
pub enum StateRecord {
    Account { account_id: String, amount: u128, pledging: u128, power: u128, code_hash: [u8; 32] },
    AccessKey { account_id: String, public_key: String },
}

/// The view of [`StateRecord`].
pub enum StateRecordView {
    Account { account_id: Seq<char>, amount: u128, pledging: u128, power: u128, code_hash: Seq<u8> },
    AccessKey { account_id: Seq<char>, public_key: Seq<char> },
}

/// The hash of no code: 32 zero bytes.
pub open spec fn zero_hash() -> Seq<u8> {
    Seq::new(32, |i: int| 0u8)
}

/// The hash of no code, the code hash of every account that the genesis builders create.
pub fn default_code_hash() -> (r: [u8; 32])
    ensures
        r@ == zero_hash(),
{
    let r = [0u8; 32];
    assert(r@ =~= zero_hash());
    r
}

impl View for StateRecord {
    type V = StateRecordView;

    open spec fn view(&self) -> StateRecordView {
        match self {
            StateRecord::Account { account_id, amount, pledging, power, code_hash } => StateRecordView::Account {
                account_id: account_id@,
                amount: *amount,
                pledging: *pledging,
                power: *power,
                code_hash: code_hash@,
            },
            StateRecord::AccessKey { account_id, public_key } => StateRecordView::AccessKey {
                account_id: account_id@,
                public_key: public_key@,
            },
        }
    }
}

/// The views of a list of records.
pub open spec fn records_view(s: Seq<StateRecord>) -> Seq<StateRecordView> {
    s.map_values(|r: StateRecord| r@)
}

/// A validator of the genesis: its account, its public key, its pledge and its power.
#[derive(Debug)]
pub struct AccountInfo {
    pub account_id: String,
    pub public_key: String,
    pub pledging: u128,
    pub power: u128,
}

/// The view of [`AccountInfo`].
pub struct AccountInfoView {
    pub account_id: Seq<char>,
    pub public_key: Seq<char>,
    pub pledging: u128,
    pub power: u128,
}

impl View for AccountInfo {
    type V = AccountInfoView;

    open spec fn view(&self) -> AccountInfoView {
        AccountInfoView {
            account_id: self.account_id@,
            public_key: self.public_key@,
            pledging: self.pledging,
            power: self.power,
        }
    }
}

/// The views of a list of validators.
pub open spec fn validators_view(s: Seq<AccountInfo>) -> Seq<AccountInfoView> {
    s.map_values(|v: AccountInfo| v@)
}

/// The two records of an account with one full-access key.
pub open spec fn account_records(
    account_id: Seq<char>,
    public_key: Seq<char>,
    amount: u128,
    pledging: u128,
    power: u128,
    code_hash: Seq<u8>,
) -> Seq<StateRecordView> {
    seq![
        StateRecordView::Account { account_id, amount, pledging, power, code_hash },
        StateRecordView::AccessKey { account_id, public_key },
    ]
}

/// Adds an account holding `amount`, with the pledge `pledging`, the power `power` and the
/// code hash `code_hash`, and one full-access key `public_key` for it.
pub fn add_account_with_key(
    records: &mut Vec<StateRecord>,
    account_id: String,
    public_key: &String,
    amount: u128,
    pledging: u128,
    power: u128,
    code_hash: [u8; 32],
)
    ensures
        records_view(final(records)@) == records_view(old(records)@) + account_records(
            account_id@,
            public_key@,
            amount,
            pledging,
            power,
            code_hash@,
        ),
{
    let ghost before = records@;
    records.push(StateRecord::Account { account_id: account_id.clone(), amount, pledging, power, code_hash });
    records.push(StateRecord::AccessKey { account_id, public_key: public_key.clone() });
    assert(records_view(records@) =~= records_view(before) + account_records(
        account_id@,
        public_key@,
        amount,
        pledging,
        power,
        code_hash@,
    ));
}

/// The records of the protocol treasury account: the test balance, no pledge, no power,
/// and the key derived from its own name.
pub open spec fn protocol_records() -> Seq<StateRecordView> {
    account_records(
        PROTOCOL_TREASURY_ACCOUNT@,
        seeded_key_pair(PROTOCOL_TREASURY_ACCOUNT@).0,
        TESTING_INIT_BALANCE,
        0,
        0,
        zero_hash(),
    )
}

/// Adds the protocol treasury account.
pub fn add_protocol_account(records: &mut Vec<StateRecord>)
    ensures
        records_view(final(records)@) == records_view(old(records)@) + protocol_records(),
{
    proof {
        lemma_treasury_account_valid();
    }
    let signer = signer_from_seed(PROTOCOL_TREASURY_ACCOUNT, PROTOCOL_TREASURY_ACCOUNT);
    add_account_with_key(
        records,
        owned(PROTOCOL_TREASURY_ACCOUNT),
        &signer.public_key,
        TESTING_INIT_BALANCE,
        0,
        0,
        default_code_hash(),
    );
}

/// The pledge of the `i`-th test account: the test pledge for the first
/// `num_validator_seats` accounts, none for the others.
pub open spec fn test_pledge(i: int, num_validator_seats: u64) -> u128 {
    if i < num_validator_seats { TESTING_INIT_PLEDGE } else { 0 }
}

/// The records of the test accounts `accounts`: each holds the test balance less its
/// pledge, its pledge and the test power, and the key derived from its own name.
pub open spec fn test_account_records(accounts: Seq<Seq<char>>, num_validator_seats: u64) -> Seq<StateRecordView>
    decreases accounts.len(),
{
    if accounts.len() == 0 {
        Seq::empty()
    } else {
        let i = accounts.len() - 1;
        test_account_records(accounts.drop_last(), num_validator_seats) + account_records(
            accounts[i],
            seeded_key_pair(accounts[i]).0,
            (TESTING_INIT_BALANCE - test_pledge(i, num_validator_seats)) as u128,
            test_pledge(i, num_validator_seats),
            TESTING_INIT_POWER,
            zero_hash(),
        )
    }
}

/// The validators of a test genesis: the first `num_validator_seats` accounts, each with
/// the key derived from its own name, the test pledge and the test power.
pub open spec fn test_validators(accounts: Seq<Seq<char>>, num_validator_seats: u64) -> Seq<AccountInfoView> {
    let n = if accounts.len() < num_validator_seats { accounts.len() as int } else { num_validator_seats as int };
    Seq::new(n as nat, |i: int| AccountInfoView {
        account_id: accounts[i],
        public_key: seeded_key_pair(accounts[i]).0,
        pledging: TESTING_INIT_PLEDGE,
        power: TESTING_INIT_POWER,
    })
}

/// The parameters of a genesis that this library decides; the rest (protocol version,
/// genesis time, rates and total supply) are filled in where the genesis is built.
#[derive(Debug)]
pub struct GenesisParams {
    pub chain_id: String,
    pub num_block_producer_seats: u64,
    pub num_block_producer_seats_per_shard: Vec<u64>,
    pub avg_hidden_validator_seats_per_shard: Vec<u64>,
    pub epoch_length: u64,
    pub gas_limit: u64,
    pub block_producer_kickout_threshold: u8,
    pub chunk_producer_kickout_threshold: u8,
    pub validators: Vec<AccountInfo>,
    pub records: Vec<StateRecord>,
    pub transaction_validity_period: u64,
    pub num_blocks_per_year: u64,
    pub protocol_treasury_account: String,
    pub fishermen_threshold: u128,
    pub min_gas_price: u128,
    /// Whether the online thresholds are set to 99/100 (maximum) and 90/100 (minimum)
    /// rather than left to their defaults.
    pub set_online_thresholds: bool,
    pub shard_layout: ShardLayout,
}

/// The view of [`GenesisParams`].
pub struct GenesisParamsView {
    pub chain_id: Seq<char>,
    pub num_block_producer_seats: u64,
    pub num_block_producer_seats_per_shard: Seq<u64>,
    pub avg_hidden_validator_seats_per_shard: Seq<u64>,
    pub epoch_length: u64,
    pub gas_limit: u64,
    pub block_producer_kickout_threshold: u8,
    pub chunk_producer_kickout_threshold: u8,
    pub validators: Seq<AccountInfoView>,
    pub records: Seq<StateRecordView>,
    pub transaction_validity_period: u64,
    pub num_blocks_per_year: u64,
    pub protocol_treasury_account: Seq<char>,
    pub fishermen_threshold: u128,
    pub min_gas_price: u128,
    pub set_online_thresholds: bool,
    pub shard_layout: ShardLayoutView,
}

impl View for GenesisParams {
    type V = GenesisParamsView;

    open spec fn view(&self) -> GenesisParamsView {
        GenesisParamsView {
            chain_id: self.chain_id@,
            num_block_producer_seats: self.num_block_producer_seats,
            num_block_producer_seats_per_shard: self.num_block_producer_seats_per_shard@,
            avg_hidden_validator_seats_per_shard: self.avg_hidden_validator_seats_per_shard@,
            epoch_length: self.epoch_length,
            gas_limit: self.gas_limit,
            block_producer_kickout_threshold: self.block_producer_kickout_threshold,
            chunk_producer_kickout_threshold: self.chunk_producer_kickout_threshold,
            validators: validators_view(self.validators@),
            records: records_view(self.records@),
            transaction_validity_period: self.transaction_validity_period,
            num_blocks_per_year: self.num_blocks_per_year,
            protocol_treasury_account: self.protocol_treasury_account@,
            fishermen_threshold: self.fishermen_threshold,
            min_gas_price: self.min_gas_price,
            set_online_thresholds: self.set_online_thresholds,
            shard_layout: self.shard_layout@,
        }
    }
}

/// `n` zeros.
pub fn zeros(n: u64) -> (r: Vec<u64>)
    ensures
        r@ == Seq::new(n as nat, |i: int| 0u64),
{
    let mut r: Vec<u64> = Vec::new();
    let mut i: u64 = 0;
    while i < n
        invariant
            i <= n,
            r@ == Seq::new(i as nat, |k: int| 0u64),
        decreases n - i,
    {
        r.push(0);
        i = i + 1;
        assert(r@ =~= Seq::new(i as nat, |k: int| 0u64));
    }
    r
}

/// The genesis parameters of a test network: see [`GenesisParams::test_with_seeds`].
pub open spec fn spec_test_genesis(
    chain_id: Seq<char>,
    accounts: Seq<Seq<char>>,
    num_validator_seats: u64,
    seats_per_shard: Seq<u64>,
) -> GenesisParamsView {
    GenesisParamsView {
        chain_id,
        num_block_producer_seats: num_validator_seats,
        num_block_producer_seats_per_shard: seats_per_shard,
        avg_hidden_validator_seats_per_shard: Seq::new(seats_per_shard.len(), |i: int| 0u64),
        epoch_length: FAST_EPOCH_LENGTH,
        gas_limit: INITIAL_GAS_LIMIT,
        block_producer_kickout_threshold: BLOCK_PRODUCER_KICKOUT_THRESHOLD,
        chunk_producer_kickout_threshold: CHUNK_PRODUCER_KICKOUT_THRESHOLD,
        validators: test_validators(accounts, num_validator_seats),
        records: test_account_records(accounts, num_validator_seats) + protocol_records(),
        transaction_validity_period: TRANSACTION_VALIDITY_PERIOD,
        num_blocks_per_year: NUM_BLOCKS_PER_YEAR,
        protocol_treasury_account: PROTOCOL_TREASURY_ACCOUNT@,
        fishermen_threshold: FISHERMEN_THRESHOLD,
        min_gas_price: MIN_GAS_PRICE,
        set_online_thresholds: false,
        shard_layout: ShardLayoutView::V0 { num_shards: seats_per_shard.len() as u64, version: 0 },
    }
}

/// The texts of a list of account ids.
pub open spec fn account_texts(v: Seq<String>) -> Seq<Seq<char>> {
    v.map_values(|s: String| s@)
}

impl GenesisParams {
    /// The genesis of a test network with the accounts `accounts`, the first
    /// `num_validator_seats` of which are validators, and `seats_per_shard` block producer
    /// seats in each shard.
    pub fn test_with_seeds(
        chain_id: String,
        accounts: &Vec<String>,
        num_validator_seats: u64,
        seats_per_shard: Vec<u64>,
    ) -> (r: GenesisParams)
        requires
            forall|i: int| 0 <= i < accounts@.len() ==> valid_account_id(#[trigger] accounts@[i]@),
        ensures
            r@ == spec_test_genesis(chain_id@, account_texts(accounts@), num_validator_seats, seats_per_shard@),
            r.validators@.len() <= accounts@.len(),
            forall|i: int| 0 <= i < r.validators@.len() ==> {
                &&& (#[trigger] r.validators@[i]).account_id@ == accounts@[i]@
                &&& r.validators@[i].public_key@ == seeded_key_pair(accounts@[i]@).0
            },
    {
        let ghost names = account_texts(accounts@);
        let mut validators: Vec<AccountInfo> = Vec::new();
        let mut records: Vec<StateRecord> = Vec::new();
        let mut i: usize = 0;
        while i < accounts.len()
            invariant
                i <= accounts@.len(),
                names == account_texts(accounts@),
                forall|k: int| 0 <= k < accounts@.len() ==> valid_account_id(#[trigger] accounts@[k]@),
                validators_view(validators@) == test_validators(names.take(i as int), num_validator_seats),
                records_view(records@) == test_account_records(names.take(i as int), num_validator_seats),
            decreases accounts@.len() - i,
        {
            let account = &accounts[i];
            let signer = signer_from_seed(account.as_str(), account.as_str());
            let is_validator = (i as u64) < num_validator_seats;
            let ghost vbefore = validators@;
            if is_validator {
                validators.push(AccountInfo {
                    account_id: account.clone(),
                    public_key: signer.public_key.clone(),
                    pledging: TESTING_INIT_PLEDGE,
                    power: TESTING_INIT_POWER,
                });
            }
            let pledge: u128 = if is_validator { TESTING_INIT_PLEDGE } else { 0 };
            add_account_with_key(
                &mut records,
                account.clone(),
                &signer.public_key,
                TESTING_INIT_BALANCE - pledge,
                pledge,
                TESTING_INIT_POWER,
                default_code_hash(),
            );
            proof {
                let next = names.take(i + 1);
                assert(next.drop_last() =~= names.take(i as int));
                assert(next[i as int] == accounts@[i as int]@);
                let prev = names.take(i as int);
                let tv = test_validators(next, num_validator_seats);
                let tp = test_validators(prev, num_validator_seats);
                assert forall|k: int| 0 <= k < tp.len() implies tv[k] == tp[k] by {
                    assert(next[k] == prev[k]);
                }
                if is_validator {
                    assert(validators_view(validators@) =~= validators_view(vbefore).push(
                        validators@[i as int]@,
                    ));
                    assert(tv.len() == tp.len() + 1);
                    assert(validators_view(validators@) =~= tv);
                } else {
                    assert(validators@ == vbefore);
                    assert(tv.len() == tp.len());
                    assert(validators_view(validators@) =~= tv);
                }
            }
            i = i + 1;
        }
        proof {
            assert(names.take(accounts@.len() as int) =~= names);
        }
        add_protocol_account(&mut records);
        let num_shards = seats_per_shard.len() as u64;
        let avg_hidden = zeros(num_shards);
        let r = GenesisParams {
            chain_id,
            num_block_producer_seats: num_validator_seats,
            num_block_producer_seats_per_shard: seats_per_shard,
            avg_hidden_validator_seats_per_shard: avg_hidden,
            epoch_length: FAST_EPOCH_LENGTH,
            gas_limit: INITIAL_GAS_LIMIT,
            block_producer_kickout_threshold: BLOCK_PRODUCER_KICKOUT_THRESHOLD,
            chunk_producer_kickout_threshold: CHUNK_PRODUCER_KICKOUT_THRESHOLD,
            validators,
            records,
            transaction_validity_period: TRANSACTION_VALIDITY_PERIOD,
            num_blocks_per_year: NUM_BLOCKS_PER_YEAR,
            protocol_treasury_account: owned(PROTOCOL_TREASURY_ACCOUNT),
            fishermen_threshold: FISHERMEN_THRESHOLD,
            min_gas_price: MIN_GAS_PRICE,
            set_online_thresholds: false,
            shard_layout: ShardLayout::V0 { num_shards: num_shards, version: 0 },
        };
        proof {
            let tv = test_validators(names, num_validator_seats);
            assert(validators_view(r.validators@) == tv);
            assert forall|i: int| 0 <= i < r.validators@.len() implies {
                &&& (#[trigger] r.validators@[i]).account_id@ == accounts@[i]@
                &&& r.validators@[i].public_key@ == seeded_key_pair(accounts@[i]@).0
            } by {
                assert(validators_view(r.validators@)[i] == r.validators@[i]@);
                assert(names[i] == accounts@[i]@);
            }
        }
        r
    }
}

impl GenesisParams {
    /// The genesis of a test network with one shard holding all `num_validator_seats` seats.
    pub fn test(chain_id: String, accounts: &Vec<String>, num_validator_seats: u64) -> (r: GenesisParams)
        requires
            forall|i: int| 0 <= i < accounts@.len() ==> valid_account_id(#[trigger] accounts@[i]@),
        ensures
            r@ == spec_test_genesis(chain_id@, account_texts(accounts@), num_validator_seats, seq![num_validator_seats]),
    {
        let mut seats: Vec<u64> = Vec::new();
        seats.push(num_validator_seats);
        assert(seats@ =~= seq![num_validator_seats]);
        GenesisParams::test_with_seeds(chain_id, accounts, num_validator_seats, seats)
    }

    /// The genesis of a test network with `seats_per_shard` seats in each shard.
    pub fn test_sharded(
        chain_id: String,
        accounts: &Vec<String>,
        num_validator_seats: u64,
        seats_per_shard: Vec<u64>,
    ) -> (r: GenesisParams)
        requires
            forall|i: int| 0 <= i < accounts@.len() ==> valid_account_id(#[trigger] accounts@[i]@),
        ensures
            r@ == spec_test_genesis(chain_id@, account_texts(accounts@), num_validator_seats, seats_per_shard@),
    {
        GenesisParams::test_with_seeds(chain_id, accounts, num_validator_seats, seats_per_shard)
    }

    /// The genesis of a sharded test network of the newest version: the same as
    /// [`GenesisParams::test_sharded`].
    pub fn test_sharded_new_version(
        chain_id: String,
        accounts: &Vec<String>,
        num_validator_seats: u64,
        seats_per_shard: Vec<u64>,
    ) -> (r: GenesisParams)
        requires
            forall|i: int| 0 <= i < accounts@.len() ==> valid_account_id(#[trigger] accounts@[i]@),
        ensures
            r@ == spec_test_genesis(chain_id@, account_texts(accounts@), num_validator_seats, seats_per_shard@),
    {
        GenesisParams::test_with_seeds(chain_id, accounts, num_validator_seats, seats_per_shard)
    }

    /// The genesis of a local network with one validator, `validator`, who is also the
    /// protocol treasury: `num_shards` shards split at the accounts `shard1.test.unc`,
    /// `shard2.test.unc`, and so on, `seats_per_shard` block producer seats per shard, and
    /// the fast epoch length where `fast` is set.
    pub fn localnet(
        chain_id: String,
        validator: &SignerKeys,
        num_shards: u64,
        fast: bool,
        seats_per_shard: Vec<u64>,
    ) -> (r: GenesisParams)
        ensures
            r@ == spec_localnet_genesis(chain_id@, validator.account_id@, validator.public_key@, num_shards, fast, seats_per_shard@),
    {
        let mut records: Vec<StateRecord> = Vec::new();
        add_account_with_key(
            &mut records,
            validator.account_id.clone(),
            &validator.public_key,
            TESTING_INIT_BALANCE,
            TESTING_INIT_PLEDGE,
            TESTING_INIT_POWER,
            default_code_hash(),
        );
        add_protocol_account(&mut records);
        let mut validators: Vec<AccountInfo> = Vec::new();
        validators.push(AccountInfo {
            account_id: validator.account_id.clone(),
            public_key: validator.public_key.clone(),
            pledging: TESTING_INIT_PLEDGE,
            power: TESTING_INIT_POWER,
        });
        let r = GenesisParams {
            chain_id,
            num_block_producer_seats: NUM_BLOCK_PRODUCER_SEATS,
            num_block_producer_seats_per_shard: seats_per_shard,
            avg_hidden_validator_seats_per_shard: zeros(num_shards),
            epoch_length: if fast { FAST_EPOCH_LENGTH } else { EXPECTED_EPOCH_LENGTH },
            gas_limit: INITIAL_GAS_LIMIT,
            block_producer_kickout_threshold: BLOCK_PRODUCER_KICKOUT_THRESHOLD,
            chunk_producer_kickout_threshold: CHUNK_PRODUCER_KICKOUT_THRESHOLD,
            validators,
            records,
            transaction_validity_period: TRANSACTION_VALIDITY_PERIOD,
            num_blocks_per_year: NUM_BLOCKS_PER_YEAR,
            protocol_treasury_account: validator.account_id.clone(),
            fishermen_threshold: FISHERMEN_THRESHOLD,
            min_gas_price: MIN_GAS_PRICE,
            set_online_thresholds: true,
            shard_layout: local_shard_layout(num_shards),
        };
        assert(validators_view(r.validators@) =~= seq![AccountInfoView {
            account_id: validator.account_id@,
            public_key: validator.public_key@,
            pledging: TESTING_INIT_PLEDGE,
            power: TESTING_INIT_POWER,
        }]);
        assert(records_view(Seq::<StateRecord>::empty()) =~= Seq::<StateRecordView>::empty());
        assert(Seq::<StateRecordView>::empty() + account_records(
            validator.account_id@,
            validator.public_key@,
            TESTING_INIT_BALANCE,
            TESTING_INIT_PLEDGE,
            TESTING_INIT_POWER,
            zero_hash(),
        ) =~= account_records(
            validator.account_id@,
            validator.public_key@,
            TESTING_INIT_BALANCE,
            TESTING_INIT_PLEDGE,
            TESTING_INIT_POWER,
            zero_hash(),
        ));
        r
    }
}

/// The genesis parameters of a local network: see [`GenesisParams::localnet`].
pub open spec fn spec_localnet_genesis(
    chain_id: Seq<char>,
    account_id: Seq<char>,
    public_key: Seq<char>,
    num_shards: u64,
    fast: bool,
    seats_per_shard: Seq<u64>,
) -> GenesisParamsView {
    GenesisParamsView {
        chain_id,
        num_block_producer_seats: NUM_BLOCK_PRODUCER_SEATS,
        num_block_producer_seats_per_shard: seats_per_shard,
        avg_hidden_validator_seats_per_shard: Seq::new(num_shards as nat, |i: int| 0u64),
        epoch_length: if fast { FAST_EPOCH_LENGTH } else { EXPECTED_EPOCH_LENGTH },
        gas_limit: INITIAL_GAS_LIMIT,
        block_producer_kickout_threshold: BLOCK_PRODUCER_KICKOUT_THRESHOLD,
        chunk_producer_kickout_threshold: CHUNK_PRODUCER_KICKOUT_THRESHOLD,
        validators: seq![AccountInfoView {
            account_id,
            public_key,
            pledging: TESTING_INIT_PLEDGE,
            power: TESTING_INIT_POWER,
        }],
        records: account_records(
            account_id,
            public_key,
            TESTING_INIT_BALANCE,
            TESTING_INIT_PLEDGE,
            TESTING_INIT_POWER,
            zero_hash(),
        ) + protocol_records(),
        transaction_validity_period: TRANSACTION_VALIDITY_PERIOD,
        num_blocks_per_year: NUM_BLOCKS_PER_YEAR,
        protocol_treasury_account: account_id,
        fishermen_threshold: FISHERMEN_THRESHOLD,
        min_gas_price: MIN_GAS_PRICE,
        set_online_thresholds: true,
        shard_layout: spec_local_shard_layout(num_shards),
    }
}

/// The name of a local chain whose id was left to chance: `test-chain-` and the random
/// suffix.
pub fn test_chain_id(random_suffix: &str) -> (r: String)
    ensures
        r@ == TEST_CHAIN_PREFIX@ + random_suffix@,
{
    let mut r = owned(TEST_CHAIN_PREFIX);
    r.append(random_suffix);
    r
}

/// A test genesis holds two records for every account and two for the treasury.
pub proof fn law_test_records_count(accounts: Seq<Seq<char>>, num_validator_seats: u64)
    ensures
        test_account_records(accounts, num_validator_seats).len() == 2 * accounts.len(),
    decreases accounts.len(),
{
    if accounts.len() > 0 {
        law_test_records_count(accounts.drop_last(), num_validator_seats);
    }
}

/// The `i`-th account of a test genesis: its account record is at `2i`, its key at
/// `2i + 1`.
pub proof fn lemma_test_record_at(accounts: Seq<Seq<char>>, num_validator_seats: u64, i: int)
    requires
        0 <= i < accounts.len(),
    ensures
        test_account_records(accounts, num_validator_seats).len() == 2 * accounts.len(),
        test_account_records(accounts, num_validator_seats)[2 * i] == (StateRecordView::Account {
            account_id: accounts[i],
            amount: (TESTING_INIT_BALANCE - test_pledge(i, num_validator_seats)) as u128,
            pledging: test_pledge(i, num_validator_seats),
            power: TESTING_INIT_POWER,
            code_hash: zero_hash(),
        }),
        test_account_records(accounts, num_validator_seats)[2 * i + 1] == (StateRecordView::AccessKey {
            account_id: accounts[i],
            public_key: seeded_key_pair(accounts[i]).0,
        }),
    decreases accounts.len(),
{
    law_test_records_count(accounts, num_validator_seats);
    let last = accounts.len() - 1;
    if i < last {
        lemma_test_record_at(accounts.drop_last(), num_validator_seats, i);
        law_test_records_count(accounts.drop_last(), num_validator_seats);
    }
}

/// In a test genesis an account pledges exactly when it is a validator: the `i`-th
/// account has a pledge iff it is among the first `num_validator_seats`, which are the
/// validators; and every account keeps the test balance across its holding and pledge.
pub proof fn law_test_pledges_match_validators(accounts: Seq<Seq<char>>, num_validator_seats: u64, i: int)
    requires
        0 <= i < accounts.len(),
    ensures
        test_account_records(accounts, num_validator_seats)[2 * i] matches StateRecordView::Account {
            amount,
            pledging,
            ..
        } && (pledging > 0 <==> i < test_validators(accounts, num_validator_seats).len())
            && amount + pledging == TESTING_INIT_BALANCE,
        i < test_validators(accounts, num_validator_seats).len() ==> test_validators(
            accounts,
            num_validator_seats,
        )[i].account_id == accounts[i],
{
    lemma_test_record_at(accounts, num_validator_seats, i);
}

/// A test genesis has as many validators as it has seats, or all its accounts where there
/// are fewer.
pub proof fn law_test_validators_count(accounts: Seq<Seq<char>>, num_validator_seats: u64)
    ensures
        test_validators(accounts, num_validator_seats).len() == if accounts.len() < num_validator_seats {
            accounts.len() as int
        } else {
            num_validator_seats as int
        },
{
}

/// A test network has one shard for each entry of its seats per shard.
pub proof fn law_test_genesis_shard_count(
    chain_id: Seq<char>,
    accounts: Seq<Seq<char>>,
    num_validator_seats: u64,
    seats_per_shard: Seq<u64>,
)
    requires
        seats_per_shard.len() <= u64::MAX,
    ensures
        shard_count(spec_test_genesis(chain_id, accounts, num_validator_seats, seats_per_shard).shard_layout)
            == seats_per_shard.len(),
{
}

/// A local network has `num_shards` shards, and at least one.
pub proof fn law_localnet_genesis_shard_count(
    chain_id: Seq<char>,
    account_id: Seq<char>,
    public_key: Seq<char>,
    num_shards: u64,
    fast: bool,
    seats_per_shard: Seq<u64>,
)
    ensures
        shard_count(spec_localnet_genesis(chain_id, account_id, public_key, num_shards, fast, seats_per_shard).shard_layout)
            == if num_shards == 0 { 1 } else { num_shards as int },
{
}


/// Each validator of a test genesis is the account at its own position, with the key
/// derived from that account's own name: the same key as that account's access-key
/// record.
pub proof fn law_test_validator_keys(accounts: Seq<Seq<char>>, num_validator_seats: u64, i: int)
    requires
        0 <= i < test_validators(accounts, num_validator_seats).len(),
    ensures
        i < accounts.len(),
        test_validators(accounts, num_validator_seats)[i].account_id == accounts[i],
        test_validators(accounts, num_validator_seats)[i].public_key == seeded_key_pair(accounts[i]).0,
        test_account_records(accounts, num_validator_seats)[2 * i + 1] == (StateRecordView::AccessKey {
            account_id: accounts[i],
            public_key: test_validators(accounts, num_validator_seats)[i].public_key,
        }),
{
    lemma_test_record_at(accounts, num_validator_seats, i);
}

} // verus!
