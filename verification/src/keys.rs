//! The node and validator keys: which files a node needs, and what is done with each
//! file, whether it is there or not.
use vstd::prelude::*;

use crate::account::{
    is_valid_account_id, lemma_local_validator_valid, lemma_node_account_valid, valid_account_id,
};
use crate::config::{ChainKind, Config};
use crate::constants::{DEFAULT_LOCAL_VALIDATOR, NODE_ACCOUNT};
use crate::signer::{
    public_key_of, seed_block, seeded_key_pair, signer_from_random, signer_from_seed, SignerKeys,
};
use crate::text::{copy_opt_string, opt_text, owned};

verus! {

/// What is done with a key file.
#[derive(Debug)]
pub enum KeyStep {
    /// The file is there: its key is loaded, and its account must be `expected_account`
    /// where one is given.
    Load { expected_account: Option<String> },
    /// The file is missing: a key is made for `account_id`, from `test_seed` where one is
    /// given, at random otherwise, and saved in the file.
    Generate { account_id: String, test_seed: Option<String> },
    /// The file is missing and no account is given: there is no key.
    Skip,
}

/// Whether a key file is made: it is missing and an account is given for it.
pub open spec fn makes_key(file_exists: bool, account_id: Option<Seq<char>>) -> bool {
    !file_exists && account_id is Some
}

/// Decides what is done with a key file: a file that is there is loaded (the seed then
/// plays no part); a missing one is made for the given account; without an account,
/// nothing is done.
pub fn plan_key(file_exists: bool, account_id: Option<String>, test_seed: Option<String>) -> (r: KeyStep)
    ensures
        r is Generate <==> makes_key(file_exists, opt_text(account_id)),
        file_exists ==> r == (KeyStep::Load { expected_account: account_id }),
        !file_exists && account_id is Some ==> r == (KeyStep::Generate {
            account_id: account_id->0,
            test_seed,
        }),
        !file_exists && account_id is None ==> r == KeyStep::Skip,
{
    if file_exists {
        KeyStep::Load { expected_account: account_id }
    } else {
        match account_id {
            Some(account_id) => KeyStep::Generate { account_id, test_seed },
            None => KeyStep::Skip,
        }
    }
}

/// The complaint about a key file at `path` that holds the key of `found` where the key
/// of `expected` was wanted.
pub open spec fn key_mismatch_message(path: Seq<char>, found: Seq<char>, expected: Seq<char>) -> Seq<char> {
    "‘"@ + path + "’ contains key for "@ + found + " but expecting key for "@ + expected
}

/// Whether a loaded key of the account `found` is accepted where `expected` is asked for.
pub open spec fn key_accepted(found: Seq<char>, expected: Option<Seq<char>>) -> bool {
    match expected {
        Some(e) => e == found,
        None => true,
    }
}

/// Checks a loaded key against the account it should belong to: it passes where no
/// account is expected or the accounts agree, and fails with the mismatch otherwise.
pub fn check_loaded_key(path: &str, found_account: &str, expected_account: &Option<String>) -> (r: Result<(), String>)
    ensures
        r is Ok <==> key_accepted(found_account@, opt_text(*expected_account)),
        r matches Err(m) ==> m@ == key_mismatch_message(path@, found_account@, expected_account->0@),
{
    match expected_account {
        None => Ok(()),
        Some(expected) => {
            let found = owned(found_account);
            if *expected == found {
                Ok(())
            } else {
                let mut m = owned("‘");
                m.append(path);
                m.append("’ contains key for ");
                m.append(found_account);
                m.append(" but expecting key for ");
                m.append(expected.as_str());
                Err(m)
            }
        },
    }
}

/// Makes a key for `account_id`: derived from `test_seed` where one is given, so that the
/// same seed always gives the same key pair whatever the account and seeds with other
/// bytes give other keys; drawn at random otherwise. Either way the public key is the one
/// that belongs to the secret key.
pub fn generate_key(account_id: &str, test_seed: Option<&str>) -> (r: SignerKeys)
    requires
        valid_account_id(account_id@),
    ensures
        r.account_id@ == account_id@,
        r.public_key@ == public_key_of(r.secret_key@),
        test_seed matches Some(seed) ==> (r.public_key@, r.secret_key@) == seeded_key_pair(seed@),
        test_seed matches Some(seed) ==> forall|other: Seq<char>|
            seed_block(other) != seed_block(seed@) ==> #[trigger] seeded_key_pair(other).1 != r.secret_key@,
{
    match test_seed {
        Some(seed) => signer_from_seed(account_id, seed),
        None => signer_from_random(account_id),
    }
}

/// A key that was made for an account is accepted when it is loaded again for that
/// account, or for no account in particular, and refused for any other account.
pub proof fn law_generated_key_reloads(account: Seq<char>, other: Seq<char>)
    ensures
        key_accepted(account, Some(account)),
        key_accepted(account, None),
        other != account ==> !key_accepted(account, Some(other)),
{
}

/// A key file that a node needs: its name, the account the key belongs to (if it must be
/// made or checked) and the seed to make it from.
#[derive(Debug)]
pub struct KeyRequest {
    pub filename: String,
    pub account_id: Option<String>,
    pub test_seed: Option<String>,
}

/// The view of [`KeyRequest`].
pub struct KeyRequestView {
    pub filename: Seq<char>,
    pub account_id: Option<Seq<char>>,
    pub test_seed: Option<Seq<char>>,
}

impl View for KeyRequest {
    type V = KeyRequestView;

    open spec fn view(&self) -> KeyRequestView {
        KeyRequestView {
            filename: self.filename@,
            account_id: opt_text(self.account_id),
            test_seed: opt_text(self.test_seed),
        }
    }
}

/// The key files that a node on a chain of kind `chain` needs, in the order they are
/// handled: the node key, for the account `node`; then the validator key, for the given
/// account on a public network (never from a seed), and on any other chain for the given
/// account or `test.unc`, from the given seed.
pub open spec fn spec_key_requests(
    node_key_file: Seq<char>,
    validator_key_file: Seq<char>,
    chain: ChainKind,
    account_id: Option<Seq<char>>,
    test_seed: Option<Seq<char>>,
) -> Seq<KeyRequestView> {
    let node = KeyRequestView { filename: node_key_file, account_id: Some(NODE_ACCOUNT@), test_seed: None };
    let validator = if chain.is_public() {
        KeyRequestView { filename: validator_key_file, account_id, test_seed: None }
    } else {
        let account = match account_id {
            Some(a) => a,
            None => DEFAULT_LOCAL_VALIDATOR@,
        };
        KeyRequestView { filename: validator_key_file, account_id: Some(account), test_seed }
    };
    seq![node, validator]
}

/// The key files that a node needs, as `generate_or_load_keys` handles them: see
/// [`spec_key_requests`].
pub fn key_requests(
    config: &Config,
    chain: ChainKind,
    account_id: &Option<String>,
    test_seed: &Option<String>,
) -> (r: Vec<KeyRequest>)
    ensures
        r@.map_values(|k: KeyRequest| k@) == spec_key_requests(
            config.node_key_file@,
            config.validator_key_file@,
            chain,
            opt_text(*account_id),
            opt_text(*test_seed),
        ),
{
    let node = KeyRequest {
        filename: config.node_key_file.clone(),
        account_id: Some(owned(NODE_ACCOUNT)),
        test_seed: None,
    };
    let validator = match chain {
        ChainKind::Mainnet | ChainKind::Testnet => KeyRequest {
            filename: config.validator_key_file.clone(),
            account_id: copy_opt_string(account_id),
            test_seed: None,
        },
        ChainKind::Local => {
            let account = match account_id {
                Some(a) => a.clone(),
                None => owned(DEFAULT_LOCAL_VALIDATOR),
            };
            KeyRequest {
                filename: config.validator_key_file.clone(),
                account_id: Some(account),
                test_seed: copy_opt_string(test_seed),
            }
        },
    };
    let mut r: Vec<KeyRequest> = Vec::new();
    r.push(node);
    r.push(validator);
    assert(r@.map_values(|k: KeyRequest| k@) =~= spec_key_requests(
        config.node_key_file@,
        config.validator_key_file@,
        chain,
        opt_text(*account_id),
        opt_text(*test_seed),
    ));
    r
}

/// Every account that the key requests name is valid where the given account is.
pub proof fn law_key_request_accounts_valid(
    node_key_file: Seq<char>,
    validator_key_file: Seq<char>,
    chain: ChainKind,
    account_id: Option<Seq<char>>,
    test_seed: Option<Seq<char>>,
    i: int,
)
    requires
        account_id matches Some(a) ==> valid_account_id(a),
        0 <= i < 2,
    ensures
        spec_key_requests(node_key_file, validator_key_file, chain, account_id, test_seed)[i].account_id
            matches Some(a) ==> valid_account_id(a),
{
    lemma_node_account_valid();
    lemma_local_validator_valid();
}

/// A node key file as it is read: the account may be left empty.
#[derive(Debug)]
pub struct NodeKeyFile {
    pub account_id: String,
    pub public_key: String,
    pub private_key: String,
}

/// The account a node key file stands for: the one it names, or `node` if it names none.
pub open spec fn node_key_account(account_id: Seq<char>) -> Seq<char> {
    if account_id.len() == 0 { NODE_ACCOUNT@ } else { account_id }
}

impl NodeKeyFile {
    /// The key this file holds, for the account it names or `node` if it names none;
    /// `None` where that account is not a valid account id.
    pub fn into_key_file(self) -> (r: Option<SignerKeys>)
        ensures
            r is Some <==> valid_account_id(node_key_account(self.account_id@)),
            r matches Some(k) ==> k.account_id@ == node_key_account(self.account_id@)
                && k.public_key@ == self.public_key@ && k.secret_key@ == self.private_key@,
    {
        let account_id = if self.account_id.as_str().unicode_len() == 0 {
            owned(NODE_ACCOUNT)
        } else {
            self.account_id
        };
        if is_valid_account_id(account_id.as_str()) {
            Some(SignerKeys {
                account_id,
                public_key: self.public_key,
                secret_key: self.private_key,
            })
        } else {
            None
        }
    }
}

/// On a local chain both key files get an account, so each one that is missing is made;
/// on any chain the node key file gets one.
pub proof fn law_local_key_files_made_when_missing(
    node_key_file: Seq<char>,
    validator_key_file: Seq<char>,
    chain: ChainKind,
    account_id: Option<Seq<char>>,
    test_seed: Option<Seq<char>>,
    i: int,
)
    requires
        0 <= i < 2,
        chain == ChainKind::Local || i == 0,
    ensures
        makes_key(false, spec_key_requests(node_key_file, validator_key_file, chain, account_id, test_seed)[i].account_id),
{
}

} // verus!
