//! Signing keys of accounts, as texts: the account id, the public key and the secret key.
use vstd::prelude::*;

use crate::account::valid_account_id;

verus! {

/// A signer of an account: its account id with an ED25519 key pair, each held as the
/// text that the key files hold (`ed25519:` followed by the base58 of the key).
#[derive(Debug)]
pub struct SignerKeys {
    pub account_id: String,
    pub public_key: String,
    pub secret_key: String,
}

/// The view of [`SignerKeys`]: the account id, the public key and the secret key.
pub struct SignerKeysView {
    pub account_id: Seq<char>,
    pub public_key: Seq<char>,
    pub secret_key: Seq<char>,
}

impl View for SignerKeys {
    type V = SignerKeysView;

    open spec fn view(&self) -> SignerKeysView {
        SignerKeysView {
            account_id: self.account_id@,
            public_key: self.public_key@,
            secret_key: self.secret_key@,
        }
    }
}

/// The ED25519 key pair, as `(public key, secret key)` texts, that is derived from `seed`.
pub uninterp spec fn seeded_key_pair(seed: Seq<char>) -> (Seq<char>, Seq<char>);

/// The text of the ED25519 public key that belongs to the secret key whose text is
/// `secret_key`.
pub uninterp spec fn public_key_of(secret_key: Seq<char>) -> Seq<char>;

/// The 32 bytes that a key is derived from: the UTF-8 bytes of `seed`, cut to 32 or
/// padded with spaces to 32.
pub open spec fn seed_block(seed: Seq<char>) -> Seq<u8> {
    let bytes = vstd::utf8::encode_utf8(seed);
    if bytes.len() >= 32 {
        bytes.take(32)
    } else {
        bytes + Seq::new((32 - bytes.len()) as nat, |i: int| 32u8)
    }
}

/// `InMemorySigner::from_seed` of the crypto crate with an ED25519 key: the signer of
/// `account_id` whose key pair is derived from `seed` alone. The derivation is named by
/// `seeded_key_pair`, a function of the seed: the account id plays no part in it. The
/// public key is the one that belongs to the secret key. The secret key's text encodes
/// the seed's 32 bytes (see [`seed_block`]), so a seed with other bytes never gives the
/// same secret key.
#[verifier::external_body]
pub(crate) fn signer_from_seed(account_id: &str, seed: &str) -> (r: SignerKeys)
    requires
        valid_account_id(account_id@),
    ensures
        r.account_id@ == account_id@,
        (r.public_key@, r.secret_key@) == seeded_key_pair(seed@),
        r.public_key@ == public_key_of(r.secret_key@),
        forall|other: Seq<char>|
            seed_block(other) != seed_block(seed@) ==> #[trigger] seeded_key_pair(other).1 != r.secret_key@,
{
    let signer = unc_crypto::InMemorySigner::from_seed(
        account_id.parse().unwrap(),
        unc_crypto::KeyType::ED25519,
        seed,
    );
    SignerKeys {
        account_id: signer.account_id.to_string(),
        public_key: signer.public_key.to_string(),
        secret_key: signer.secret_key.to_string(),
    }
}

/// `InMemorySigner::from_random` of the crypto crate with an ED25519 key: a signer of
/// `account_id` with a secret key drawn from the operating system's random source and the
/// public key that belongs to it. Which secret key is drawn is not stated: it is random.
#[verifier::external_body]
pub(crate) fn signer_from_random(account_id: &str) -> (r: SignerKeys)
    requires
        valid_account_id(account_id@),
    ensures
        r.account_id@ == account_id@,
        r.public_key@ == public_key_of(r.secret_key@),
{
    let signer = unc_crypto::InMemorySigner::from_random(
        account_id.parse().unwrap(),
        unc_crypto::KeyType::ED25519,
    );
    SignerKeys {
        account_id: signer.account_id.to_string(),
        public_key: signer.public_key.to_string(),
        secret_key: signer.secret_key.to_string(),
    }
}

} // verus!
